//! Rendering the one-line structured report that downstream consumers parse:
//! `{"canceled": <bool>, "paths": [<string>, ...]}`.

use vstd::prelude::*;
use crate::outcome::{outcome_valid, run_outcome, spec_result, DialogResult, SessionOutcome};

verus! {

/// The lower-case hexadecimal digit for `n`.
pub open spec fn hex_digit(n: int) -> char
    recommends
        0 <= n < 16,
{
    if n == 0 {
        '0'
    } else if n == 1 {
        '1'
    } else if n == 2 {
        '2'
    } else if n == 3 {
        '3'
    } else if n == 4 {
        '4'
    } else if n == 5 {
        '5'
    } else if n == 6 {
        '6'
    } else if n == 7 {
        '7'
    } else if n == 8 {
        '8'
    } else if n == 9 {
        '9'
    } else if n == 10 {
        'a'
    } else if n == 11 {
        'b'
    } else if n == 12 {
        'c'
    } else if n == 13 {
        'd'
    } else if n == 14 {
        'e'
    } else {
        'f'
    }
}

/// How one character appears inside a quoted string of the report: quote,
/// backslash and control characters are escaped as in JSON text, every other
/// character stands for itself.
pub open spec fn escaped_char(c: char) -> Seq<char> {
    if c == '"' {
        seq!['\\', '"']
    } else if c == '\\' {
        seq!['\\', '\\']
    } else if c == '\u{8}' {
        seq!['\\', 'b']
    } else if c == '\t' {
        seq!['\\', 't']
    } else if c == '\n' {
        seq!['\\', 'n']
    } else if c == '\u{c}' {
        seq!['\\', 'f']
    } else if c == '\r' {
        seq!['\\', 'r']
    } else if (c as u32) < 0x20 {
        seq!['\\', 'u', '0', '0', hex_digit(c as int / 16), hex_digit(c as int % 16)]
    } else {
        seq![c]
    }
}

/// A character sequence with report escaping applied throughout.
pub open spec fn spec_escaped(s: Seq<char>) -> Seq<char>
    decreases s.len(),
{
    if s.len() == 0 {
        Seq::<char>::empty()
    } else {
        spec_escaped(s.drop_last()) + escaped_char(s.last())
    }
}

/// A path as it appears in the report: quoted and escaped.
pub open spec fn json_string(s: Seq<char>) -> Seq<char> {
    seq!['"'] + spec_escaped(s) + seq!['"']
}

/// The members of the report's `paths` array: every picked path, quoted and
/// escaped, comma-separated, in order.
pub open spec fn json_paths_items(paths: Seq<Seq<char>>) -> Seq<char>
    decreases paths.len(),
{
    if paths.len() == 0 {
        Seq::<char>::empty()
    } else if paths.len() == 1 {
        json_string(paths[0])
    } else {
        json_paths_items(paths.drop_last()) + seq![',', ' '] + json_string(paths.last())
    }
}

/// The report's `paths` array.
pub open spec fn json_paths(paths: Seq<Seq<char>>) -> Seq<char> {
    seq!['['] + json_paths_items(paths) + seq![']']
}

/// The whole report line: both fields always present, cancellation with an
/// empty array.
pub open spec fn json_result(canceled: bool, paths: Seq<Seq<char>>) -> Seq<char> {
    "{\"canceled\": "@ + (if canceled {
        "true"@
    } else {
        "false"@
    }) + ", \"paths\": "@ + json_paths(paths) + seq!['}']
}

/// Relies on String::push: appends exactly one character at the end.
#[verifier::external_body]
fn push_char(out: &mut String, c: char)
    ensures
        final(out)@ == old(out)@.push(c),
{
    out.push(c);
}

/// The lower-case hexadecimal digit character for `n`.
fn hex_char(n: u32) -> (c: char)
    requires
        n < 16,
    ensures
        c == hex_digit(n as int),
{
    if n == 0 {
        '0'
    } else if n == 1 {
        '1'
    } else if n == 2 {
        '2'
    } else if n == 3 {
        '3'
    } else if n == 4 {
        '4'
    } else if n == 5 {
        '5'
    } else if n == 6 {
        '6'
    } else if n == 7 {
        '7'
    } else if n == 8 {
        '8'
    } else if n == 9 {
        '9'
    } else if n == 10 {
        'a'
    } else if n == 11 {
        'b'
    } else if n == 12 {
        'c'
    } else if n == 13 {
        'd'
    } else if n == 14 {
        'e'
    } else {
        'f'
    }
}

/// Appends `s` to `out` with report escaping applied.
fn append_escaped(out: &mut String, s: &str)
    ensures
        final(out)@ == old(out)@ + spec_escaped(s@),
{
    let n = s.unicode_len();
    let mut i: usize = 0;
    proof {
        assert(s@.take(0) =~= Seq::<char>::empty());
        assert(out@ =~= out@ + spec_escaped(s@.take(0)));
    }
    while i < n
        invariant
            n == s@.len(),
            0 <= i <= n,
            out@ == old(out)@ + spec_escaped(s@.take(i as int)),
        decreases n - i,
    {
        let c = s.get_char(i);
        if c == '"' {
            out.append("\\\"");
            proof {
                reveal_strlit("\\\"");
            }
        } else if c == '\\' {
            out.append("\\\\");
            proof {
                reveal_strlit("\\\\");
            }
        } else if c == '\u{8}' {
            out.append("\\b");
            proof {
                reveal_strlit("\\b");
            }
        } else if c == '\t' {
            out.append("\\t");
            proof {
                reveal_strlit("\\t");
            }
        } else if c == '\n' {
            out.append("\\n");
            proof {
                reveal_strlit("\\n");
            }
        } else if c == '\u{c}' {
            out.append("\\f");
            proof {
                reveal_strlit("\\f");
            }
        } else if c == '\r' {
            out.append("\\r");
            proof {
                reveal_strlit("\\r");
            }
        } else if (c as u32) < 0x20 {
            let v = c as u32;
            out.append("\\u00");
            push_char(out, hex_char(v / 16));
            push_char(out, hex_char(v % 16));
            proof {
                reveal_strlit("\\u00");
            }
        } else {
            push_char(out, c);
        }
        proof {
            assert(s@.take(i as int + 1).drop_last() =~= s@.take(i as int));
            assert(s@.take(i as int + 1).last() == s@[i as int]);
            assert(out@ =~= old(out)@ + spec_escaped(s@.take(i as int + 1)));
        }
        i += 1;
    }
    proof {
        assert(s@.take(n as int) =~= s@);
    }
}

/// Renders the one-line report for a result: exactly the line the process
/// prints before it exits.
pub fn render_result(r: &DialogResult) -> (out: String)
    ensures
        out@ == json_result(r.canceled, r.paths.deep_view()),
{
    let ghost paths_view: Seq<Seq<char>> = r.paths.deep_view();
    let mut out = String::new();
    out.append("{\"canceled\": ");
    if r.canceled {
        out.append("true");
    } else {
        out.append("false");
    }
    out.append(", \"paths\": ");
    out.append("[");
    let ghost head = out@;
    proof {
        reveal_strlit("[");
        assert(paths_view.take(0) =~= Seq::<Seq<char>>::empty());
        assert(out@ =~= head + json_paths_items(paths_view.take(0)));
    }
    let n = r.paths.len();
    let mut i: usize = 0;
    while i < n
        invariant
            n == r.paths@.len(),
            0 <= i <= n,
            paths_view == r.paths.deep_view(),
            out@ == head + json_paths_items(paths_view.take(i as int)),
            head == "{\"canceled\": "@ + (if r.canceled {
                "true"@
            } else {
                "false"@
            }) + ", \"paths\": "@ + seq!['['],
        decreases n - i,
    {
        if i > 0 {
            out.append(", ");
            proof {
                reveal_strlit(", ");
            }
        }
        out.append("\"");
        append_escaped(&mut out, r.paths[i].as_str());
        out.append("\"");
        proof {
            reveal_strlit("\"");
            assert(paths_view.take(i as int + 1).drop_last() =~= paths_view.take(i as int));
            assert(paths_view.take(i as int + 1).last() == r.paths@[i as int]@);
            assert(out@ =~= head + json_paths_items(paths_view.take(i as int + 1)));
        }
        i += 1;
    }
    out.append("]");
    out.append("}");
    proof {
        reveal_strlit("]");
        reveal_strlit("}");
        assert(paths_view.take(n as int) =~= paths_view);
        assert(out@ =~= json_result(r.canceled, paths_view));
    }
    out
}

/// The report line for one finished dialog session: translates the outcome
/// into a result and renders it.
pub fn report_line(multi: bool, outcome: SessionOutcome) -> (line: String)
    requires
        outcome_valid(multi, outcome),
    ensures
        line@ == json_result(spec_result(outcome).0, spec_result(outcome).1),
{
    let r = run_outcome(multi, outcome);
    render_result(&r)
}

} // verus!
