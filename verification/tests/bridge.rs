use dialog_bridge::args::{has_flag, parse_arg, str_eq};
use dialog_bridge::json::{render_result, report_line};
use dialog_bridge::outcome::{run_outcome, DialogResult, SessionOutcome};
use dialog_bridge::request::{
    dialog_options, DialogMode, DialogRequest, OPT_ALLOW_MULTISELECT, OPT_FILE_MUST_EXIST,
    OPT_FORCE_FILESYSTEM, OPT_PATH_MUST_EXIST, OPT_PICK_FOLDERS,
};
use dialog_bridge::utf16::encode_wide_nul;

fn args_of(items: &[&str]) -> Vec<String> {
    let mut v = Vec::new();
    for item in items {
        v.push(item.to_string());
    }
    v
}

#[test]
fn str_eq_basic() {
    assert!(str_eq("abc", "abc"));
    assert!(!str_eq("abc", "abd"));
    assert!(!str_eq("abc", "ab"));
    assert!(str_eq("", ""));
    assert!(str_eq("naïve", "naïve"));
    assert!(!str_eq("naïve", "naive"));
}

#[test]
fn parse_arg_returns_value_after_flag() {
    let args = args_of(&["prog", "--mode", "folder"]);
    assert_eq!(parse_arg("--mode", &args, "files"), "folder");
}

#[test]
fn parse_arg_default_when_absent() {
    let args = args_of(&["prog"]);
    assert_eq!(parse_arg("--mode", &args, "files"), "files");
}

#[test]
fn parse_arg_default_when_flag_is_last() {
    let args = args_of(&["prog", "--title"]);
    assert_eq!(parse_arg("--title", &args, "Open"), "Open");
}

#[test]
fn parse_arg_first_occurrence_wins() {
    let args = args_of(&["--title", "A", "--title", "B"]);
    assert_eq!(parse_arg("--title", &args, "Open"), "A");
}

#[test]
fn has_flag_found_and_missing() {
    let args = args_of(&["prog", "--multi", "x"]);
    assert!(has_flag("--multi", &args));
    assert!(!has_flag("--mode", &args));
}

#[test]
fn from_args_defaults() {
    let args = args_of(&["prog"]);
    let req = DialogRequest::from_args(&args);
    assert!(matches!(req.mode, DialogMode::Files));
    assert!(!req.multi);
    assert_eq!(req.title, "Open");
    assert_eq!(req.initial, "");
    assert_eq!(req.filter, "");
    assert!(!req.wants_initial());
    assert!(!req.wants_filter());
}

#[test]
fn from_args_all_flags() {
    let args = args_of(&[
        "prog", "--mode", "folder", "--multi", "--title", "Pick one", "--initial",
        "C:\\Users\\x\\Documents", "--filter", "*.srt;*.vtt;*.csv",
    ]);
    let req = DialogRequest::from_args(&args);
    assert!(matches!(req.mode, DialogMode::Folder));
    assert!(req.multi);
    assert_eq!(req.title, "Pick one");
    assert_eq!(req.initial, "C:\\Users\\x\\Documents");
    assert_eq!(req.filter, "*.srt;*.vtt;*.csv");
    assert!(req.wants_initial());
    assert!(req.wants_filter());
}

#[test]
fn from_args_empty_title_gets_default() {
    let args = args_of(&["prog", "--title", ""]);
    let req = DialogRequest::from_args(&args);
    assert_eq!(req.title, "Open");
}

#[test]
fn from_args_unknown_mode_means_files() {
    let args = args_of(&["prog", "--mode", "folders"]);
    let req = DialogRequest::from_args(&args);
    assert!(matches!(req.mode, DialogMode::Files));
}

#[test]
fn options_files_single() {
    let opts = dialog_options(0, DialogMode::Files, false);
    assert_eq!(opts, OPT_FORCE_FILESYSTEM | OPT_PATH_MUST_EXIST | OPT_FILE_MUST_EXIST);
    assert_eq!(opts & OPT_PICK_FOLDERS, 0);
    assert_eq!(opts & OPT_ALLOW_MULTISELECT, 0);
}

#[test]
fn options_folder_multi() {
    let opts = dialog_options(0, DialogMode::Folder, true);
    assert_ne!(opts & OPT_PICK_FOLDERS, 0);
    assert_ne!(opts & OPT_ALLOW_MULTISELECT, 0);
    assert_ne!(opts & OPT_FORCE_FILESYSTEM, 0);
    assert_ne!(opts & OPT_PATH_MUST_EXIST, 0);
    assert_ne!(opts & OPT_FILE_MUST_EXIST, 0);
}

#[test]
fn options_keep_base_bits() {
    let base: u32 = 0x8000_0001;
    let opts = dialog_options(base, DialogMode::Files, false);
    assert_eq!(opts & base, base);
}

#[test]
fn wide_ascii() {
    assert_eq!(encode_wide_nul("A"), vec![65u16, 0]);
    assert_eq!(encode_wide_nul(""), vec![0u16]);
}

#[test]
fn wide_bmp_char() {
    assert_eq!(encode_wide_nul("€"), vec![0x20ACu16, 0]);
}

#[test]
fn wide_surrogate_pair() {
    assert_eq!(encode_wide_nul("𝄞"), vec![0xD834u16, 0xDD1E, 0]);
}

#[test]
fn wide_matches_std_encoding() {
    let s = "C:\\Users\\x\\Ünicode 𝄞 path";
    let mut expected: Vec<u16> = s.encode_utf16().collect();
    expected.push(0);
    assert_eq!(encode_wide_nul(s), expected);
}

#[test]
fn outcome_cancel_gives_empty() {
    let r = run_outcome(false, SessionOutcome::Canceled);
    assert!(r.canceled);
    assert!(r.paths.is_empty());
}

#[test]
fn outcome_single_keeps_path() {
    let r = run_outcome(false, SessionOutcome::Confirmed(args_of(&["C:\\a.txt"])));
    assert!(!r.canceled);
    assert_eq!(r.paths, args_of(&["C:\\a.txt"]));
}

#[test]
fn outcome_multi_keeps_order() {
    let picked = args_of(&["C:\\b.txt", "C:\\a.txt", "C:\\c.txt"]);
    let r = run_outcome(true, SessionOutcome::Confirmed(picked.clone()));
    assert!(!r.canceled);
    assert_eq!(r.paths, picked);
}

#[test]
fn cancel_line_is_exact() {
    let line = report_line(false, SessionOutcome::Canceled);
    assert_eq!(line, "{\"canceled\": true, \"paths\": []}");
}

#[test]
fn folder_cancel_scenario() {
    let args = args_of(&["prog", "--mode", "folder", "--initial", "C:\\Users\\x\\Documents"]);
    let req = DialogRequest::from_args(&args);
    assert!(matches!(req.mode, DialogMode::Folder));
    let line = report_line(req.multi, SessionOutcome::Canceled);
    assert_eq!(line, "{\"canceled\": true, \"paths\": []}");
}

#[test]
fn csv_selection_scenario() {
    let args = args_of(&["prog", "--mode", "files", "--filter", "*.csv"]);
    let req = DialogRequest::from_args(&args);
    assert!(req.wants_filter());
    let outcome = SessionOutcome::Confirmed(args_of(&["C:\\data\\report.csv"]));
    let line = report_line(req.multi, outcome);
    assert_eq!(line, "{\"canceled\": false, \"paths\": [\"C:\\\\data\\\\report.csv\"]}");
}

#[test]
fn multi_selection_scenario() {
    let args = args_of(&["prog", "--mode", "files", "--multi"]);
    let req = DialogRequest::from_args(&args);
    assert!(req.multi);
    let outcome = SessionOutcome::Confirmed(args_of(&["C:\\one.txt", "C:\\two.txt"]));
    let line = report_line(req.multi, outcome);
    assert_eq!(line, "{\"canceled\": false, \"paths\": [\"C:\\\\one.txt\", \"C:\\\\two.txt\"]}");
}

#[test]
fn identical_runs_identical_lines() {
    let make = || {
        let outcome = SessionOutcome::Confirmed(args_of(&["C:\\data\\a.bin", "C:\\data\\b.bin"]));
        report_line(true, outcome)
    };
    assert_eq!(make(), make());
}

#[test]
fn render_escapes_quote_and_backslash() {
    let r = DialogResult { canceled: false, paths: args_of(&["C:\\he said \"hi\""]) };
    let line = render_result(&r);
    assert_eq!(line, "{\"canceled\": false, \"paths\": [\"C:\\\\he said \\\"hi\\\"\"]}");
}

#[test]
fn render_escapes_named_controls() {
    let r = DialogResult {
        canceled: false,
        paths: args_of(&["a\nb\tc\rd\u{8}e\u{c}f"]),
    };
    let line = render_result(&r);
    assert_eq!(
        line,
        "{\"canceled\": false, \"paths\": [\"a\\nb\\tc\\rd\\be\\ff\"]}"
    );
}

#[test]
fn render_escapes_other_controls_as_hex() {
    let r = DialogResult { canceled: false, paths: args_of(&["x\u{1}y\u{1f}z"]) };
    let line = render_result(&r);
    assert_eq!(line, "{\"canceled\": false, \"paths\": [\"x\\u0001y\\u001fz\"]}");
}

#[test]
fn render_keeps_unicode_text() {
    let r = DialogResult { canceled: false, paths: args_of(&["C:\\Ünicode 𝄞.txt"]) };
    let line = render_result(&r);
    assert_eq!(line, "{\"canceled\": false, \"paths\": [\"C:\\\\Ünicode 𝄞.txt\"]}");
}
