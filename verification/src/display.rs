//! The post-decode display pass: detecting control characters in decoded
//! text and substituting the Unicode replacement character for them.
use vstd::prelude::*;

use crate::chars::{chars_to_string, str_to_chars};

verus! {

/// Whether `c` is a control character that must not reach the display:
/// any scalar below U+0020 except tab, newline and carriage return.
pub open spec fn is_forbidden_control(c: char) -> bool {
    c < ' ' && c != '\t' && c != '\n' && c != '\r'
}

/// The text with every forbidden control character replaced by U+FFFD.
pub open spec fn spec_sanitize(s: Seq<char>) -> Seq<char> {
    s.map_values(
        |c: char|
            if is_forbidden_control(c) {
                '\u{fffd}'
            } else {
                c
            },
    )
}

/// Whether the text holds any control character below U+0020 other than
/// tab, newline or carriage return.
pub fn contains_control_chars(text: &str) -> (r: bool)
    ensures
        r == exists|i: int| 0 <= i < text@.len() && is_forbidden_control(text@[i]),
{
    let cs = str_to_chars(text);
    let mut i: usize = 0;
    while i < cs.len()
        invariant
            i <= cs.len(),
            cs@ == text@,
            forall|j: int| 0 <= j < i ==> !is_forbidden_control(text@[j]),
        decreases cs.len() - i,
    {
        let ch = cs[i];
        if ch < ' ' && ch != '\t' && ch != '\n' && ch != '\r' {
            proof {
                assert(is_forbidden_control(text@[i as int]));
            }
            return true;
        }
        i += 1;
    }
    false
}

/// The text with every forbidden control character replaced by U+FFFD;
/// every other character passes through unchanged.
pub fn sanitize_control_chars(text: &str) -> (r: String)
    ensures
        r@ == spec_sanitize(text@),
{
    let cs = str_to_chars(text);
    let mut out: Vec<char> = Vec::new();
    let mut i: usize = 0;
    while i < cs.len()
        invariant
            i <= cs.len(),
            cs@ == text@,
            out@ == spec_sanitize(text@.subrange(0, i as int)),
        decreases cs.len() - i,
    {
        let ch = cs[i];
        if ch < ' ' && ch != '\t' && ch != '\n' && ch != '\r' {
            out.push('\u{fffd}');
        } else {
            out.push(ch);
        }
        proof {
            assert(out@ =~= spec_sanitize(text@.subrange(0, (i + 1) as int)));
        }
        i += 1;
    }
    proof {
        assert(out@ =~= spec_sanitize(text@));
    }
    chars_to_string(&out)
}

} // verus!
