//! The JSON body handed to the commit transport: one object with the
//! commit message, the base64 content and the repository path, with
//! the string escaping the format requires.

use vstd::prelude::*;
use crate::models::{CommitContent, SpecCommit};

verus! {

/// The character for one hexadecimal digit.
pub open spec fn hex_char(d: int) -> char
    recommends
        0 <= d < 16,
{
    if d == 0 {
        '0'
    } else if d == 1 {
        '1'
    } else if d == 2 {
        '2'
    } else if d == 3 {
        '3'
    } else if d == 4 {
        '4'
    } else if d == 5 {
        '5'
    } else if d == 6 {
        '6'
    } else if d == 7 {
        '7'
    } else if d == 8 {
        '8'
    } else if d == 9 {
        '9'
    } else if d == 10 {
        'a'
    } else if d == 11 {
        'b'
    } else if d == 12 {
        'c'
    } else if d == 13 {
        'd'
    } else if d == 14 {
        'e'
    } else {
        'f'
    }
}

/// How one character appears inside a JSON string: quotes and
/// backslashes are escaped, control characters take the `\u00XX` form,
/// every other character stands as itself.
pub open spec fn spec_escape_char(c: char) -> Seq<char> {
    if c == '"' {
        seq!['\\', '"']
    } else if c == '\\' {
        seq!['\\', '\\']
    } else if (c as u32) < 32 {
        seq!['\\', 'u', '0', '0', hex_char((c as int) / 16), hex_char((c as int) % 16)]
    } else {
        seq![c]
    }
}

/// A whole string escaped for a JSON string literal.
pub open spec fn spec_escape(s: Seq<char>) -> Seq<char>
    decreases s.len(),
{
    if s.len() == 0 {
        Seq::empty()
    } else {
        spec_escape(s.drop_last()) + spec_escape_char(s.last())
    }
}

/// The JSON object the commit transport receives: the message, the
/// base64 content and the path, each as an escaped string.
pub open spec fn spec_commit_body(c: SpecCommit) -> Seq<char> {
    "{\"message\":\""@ + spec_escape(c.message) + "\",\"content\":\""@ + spec_escape(c.content)
        + "\",\"path\":\""@ + spec_escape(c.path) + "\"}"@
}

/// Relies on `String::push`: appends exactly the given character.
#[verifier::external_body]
fn push_char(out: &mut String, c: char)
    ensures
        final(out)@ == old(out)@.push(c),
{
    out.push(c);
}

/// Appends the character for one hexadecimal digit.
fn append_hex_digit(out: &mut String, d: u32)
    requires
        d < 16,
    ensures
        final(out)@ == old(out)@ + seq![hex_char(d as int)],
{
    proof {
        reveal_strlit("0");
        reveal_strlit("1");
        reveal_strlit("2");
        reveal_strlit("3");
        reveal_strlit("4");
        reveal_strlit("5");
        reveal_strlit("6");
        reveal_strlit("7");
        reveal_strlit("8");
        reveal_strlit("9");
        reveal_strlit("a");
        reveal_strlit("b");
        reveal_strlit("c");
        reveal_strlit("d");
        reveal_strlit("e");
        reveal_strlit("f");
    }
    if d == 0 {
        out.append("0");
    } else if d == 1 {
        out.append("1");
    } else if d == 2 {
        out.append("2");
    } else if d == 3 {
        out.append("3");
    } else if d == 4 {
        out.append("4");
    } else if d == 5 {
        out.append("5");
    } else if d == 6 {
        out.append("6");
    } else if d == 7 {
        out.append("7");
    } else if d == 8 {
        out.append("8");
    } else if d == 9 {
        out.append("9");
    } else if d == 10 {
        out.append("a");
    } else if d == 11 {
        out.append("b");
    } else if d == 12 {
        out.append("c");
    } else if d == 13 {
        out.append("d");
    } else if d == 14 {
        out.append("e");
    } else {
        out.append("f");
    }
    proof {
        assert(out@ =~= old(out)@ + seq![hex_char(d as int)]);
    }
}

/// Appends one string in its escaped form.
#[verifier::loop_isolation(false)]
fn append_escaped(out: &mut String, s: &str)
    ensures
        final(out)@ == old(out)@ + spec_escape(s@),
{
    proof {
        reveal_strlit("\\\"");
        reveal_strlit("\\\\");
        reveal_strlit("\\u00");
    }
    let n = s.unicode_len();
    let mut i: usize = 0;
    proof {
        assert(s@.subrange(0, 0) =~= Seq::<char>::empty());
        assert(out@ =~= old(out)@ + spec_escape(s@.subrange(0, 0)));
    }
    while i < n
        invariant
            i <= n,
            out@ == old(out)@ + spec_escape(s@.subrange(0, i as int)),
        decreases n - i,
    {
        let c = s.get_char(i);
        if c == '"' {
            out.append("\\\"");
        } else if c == '\\' {
            out.append("\\\\");
        } else {
            let v = c as u32;
            if v < 32 {
                out.append("\\u00");
                append_hex_digit(out, v / 16);
                append_hex_digit(out, v % 16);
            } else {
                push_char(out, c);
            }
        }
        proof {
            let pre = s@.subrange(0, i as int);
            let post = s@.subrange(0, i + 1);
            assert(post.drop_last() =~= pre);
            assert(post.last() == s@[i as int]);
            assert(out@ =~= old(out)@ + spec_escape(post));
        }
        i += 1;
    }
    proof {
        assert(s@.subrange(0, s@.len() as int) =~= s@);
    }
}

/// Serializes the commit payload as the JSON object the content API
/// expects.
pub fn commit_body(c: &CommitContent) -> (r: String)
    ensures
        r@ == spec_commit_body(c@),
{
    let mut out = "{\"message\":\"".to_owned();
    append_escaped(&mut out, c.message.as_str());
    out.append("\",\"content\":\"");
    append_escaped(&mut out, c.content.as_str());
    out.append("\",\"path\":\"");
    append_escaped(&mut out, c.path.as_str());
    out.append("\"}");
    proof {
        assert(out@ =~= spec_commit_body(c@));
    }
    out
}

} // verus!
