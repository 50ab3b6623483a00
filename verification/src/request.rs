//! The dialog request: the configuration that one invocation carries, read
//! from the command-line argument vector, and the option bits that configure
//! the platform's file dialog.

use vstd::prelude::*;
use crate::args::{has_flag, parse_arg, spec_arg_value, spec_has_flag, str_eq};

verus! {

/// What kind of filesystem object the dialog lets the user pick.
#[derive(Clone, Copy, PartialEq, Eq, Structural, Debug)]
pub enum DialogMode {
    Files,
    Folder,
}

/// Dialog option bit: only real filesystem items may be picked.
pub const OPT_FORCE_FILESYSTEM: u32 = 0x40;

/// Dialog option bit: the path of the picked item must exist.
pub const OPT_PATH_MUST_EXIST: u32 = 0x800;

/// Dialog option bit: the picked file must exist.
pub const OPT_FILE_MUST_EXIST: u32 = 0x1000;

/// Dialog option bit: pick folders instead of files.
pub const OPT_PICK_FOLDERS: u32 = 0x20;

/// Dialog option bit: more than one item may be picked in one session.
pub const OPT_ALLOW_MULTISELECT: u32 = 0x200;

/// One invocation's configuration, immutable once built from the flags.
pub struct DialogRequest {
    pub mode: DialogMode,
    pub multi: bool,
    pub title: String,
    pub initial: String,
    pub filter: String,
}

/// The mode that an argument vector selects: folders exactly when the
/// `--mode` flag carries the value `folder`, files otherwise.
pub open spec fn spec_mode(args: Seq<Seq<char>>) -> DialogMode {
    if spec_arg_value("--mode"@, args, "files"@) == "folder"@ {
        DialogMode::Folder
    } else {
        DialogMode::Files
    }
}

/// The window title an argument vector selects: the value of `--title`,
/// with the default caption when the flag is absent or its value is empty.
pub open spec fn spec_title(args: Seq<Seq<char>>) -> Seq<char> {
    let t = spec_arg_value("--title"@, args, "Open"@);
    if t.len() == 0 {
        "Open"@
    } else {
        t
    }
}

/// The option bits for `mode` and `multi` folded into `base`: always
/// filesystem-only existing targets; folder picking exactly in folder mode;
/// multi-selection exactly when requested.
pub open spec fn spec_options(base: u32, mode: DialogMode, multi: bool) -> u32 {
    (base | OPT_FORCE_FILESYSTEM | OPT_PATH_MUST_EXIST | OPT_FILE_MUST_EXIST) | (if mode
        is Folder {
        OPT_PICK_FOLDERS
    } else {
        0
    }) | (if multi {
        OPT_ALLOW_MULTISELECT
    } else {
        0
    })
}

impl DialogRequest {
    /// Builds the request that an argument vector describes, flag by flag.
    pub fn from_args(args: &Vec<String>) -> (req: DialogRequest)
        ensures
            req.mode == spec_mode(args.deep_view()),
            req.multi == spec_has_flag("--multi"@, args.deep_view()),
            req.title@ == spec_title(args.deep_view()),
            req.initial@ == spec_arg_value("--initial"@, args.deep_view(), Seq::<char>::empty()),
            req.filter@ == spec_arg_value("--filter"@, args.deep_view(), Seq::<char>::empty()),
    {
        let mode_value = parse_arg("--mode", args, "files");
        let mode = if str_eq(mode_value.as_str(), "folder") {
            DialogMode::Folder
        } else {
            DialogMode::Files
        };
        let multi = has_flag("--multi", args);
        let mut title = parse_arg("--title", args, "Open");
        if title.as_str().unicode_len() == 0 {
            title = String::from_str("Open");
        }
        let initial = parse_arg("--initial", args, "");
        let filter = parse_arg("--filter", args, "");
        proof {
            reveal_strlit("");
            assert(""@ =~= Seq::<char>::empty());
        }
        DialogRequest { mode, multi, title, initial, filter }
    }

    /// True when a starting folder was requested.
    pub fn wants_initial(&self) -> (r: bool)
        ensures
            r == (self.initial@.len() != 0),
    {
        self.initial.as_str().unicode_len() != 0
    }

    /// True when a file-type filter was requested; with an empty pattern the
    /// listing stays unfiltered.
    pub fn wants_filter(&self) -> (r: bool)
        ensures
            r == (self.filter@.len() != 0),
    {
        self.filter.as_str().unicode_len() != 0
    }
}

/// Folds the request's option bits into the dialog's current options word.
pub fn dialog_options(base: u32, mode: DialogMode, multi: bool) -> (opts: u32)
    ensures
        opts == spec_options(base, mode, multi),
{
    let folder_bit: u32 = if let DialogMode::Folder = mode {
        OPT_PICK_FOLDERS
    } else {
        0
    };
    let multi_bit: u32 = if multi {
        OPT_ALLOW_MULTISELECT
    } else {
        0
    };
    (base | OPT_FORCE_FILESYSTEM | OPT_PATH_MUST_EXIST | OPT_FILE_MUST_EXIST) | folder_bit
        | multi_bit
}

} // verus!
