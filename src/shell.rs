//! Rendering `.env` entries as shell `export` statements.

use vstd::prelude::*;
use vstd::string::*;

verus! {

/// What one character of a value becomes inside single quotes: a single
/// quote closes the quoting, emits a double-quoted `'` and reopens it.
pub open spec fn quote_char(c: char) -> Seq<char> {
    if c == '\'' {
        seq!['\'', '"', '\'', '"', '\'']
    } else {
        seq![c]
    }
}

/// The characters of `s`, each replaced by `quote_char`.
pub open spec fn escaped_body(s: Seq<char>) -> Seq<char>
    decreases s.len(),
{
    if s.len() == 0 {
        Seq::empty()
    } else {
        escaped_body(s.drop_last()) + quote_char(s.last())
    }
}

/// `s` as one single-quoted shell word.
pub open spec fn shell_quoted(s: Seq<char>) -> Seq<char> {
    seq!['\''] + escaped_body(s) + seq!['\'']
}

/// Wraps `value` in single quotes so that a POSIX shell reads it back
/// literally; each `'` inside becomes `'"'"'`.
pub fn escape_for_shell(value: &str) -> (r: String)
    ensures
        r@ == shell_quoted(value@),
{
    let n = value.unicode_len();
    let mut out = String::from_str("'");
    proof {
        reveal_strlit("'");
        assert(value@.subrange(0, 0) =~= Seq::<char>::empty());
        assert(out@ =~= seq!['\''] + escaped_body(value@.subrange(0, 0)));
    }
    let mut i: usize = 0;
    while i < n
        invariant
            n == value@.len(),
            i <= n,
            out@ == seq!['\''] + escaped_body(value@.subrange(0, i as int)),
        decreases n - i,
    {
        let c = value.get_char(i);
        if c == '\'' {
            out.append("'\"'\"'");
            proof {
                reveal_strlit("'\"'\"'");
                assert("'\"'\"'"@ =~= quote_char(c));
            }
        } else {
            out.append(value.substring_char(i, i + 1));
            assert(value@.subrange(i as int, i + 1) =~= quote_char(c));
        }
        proof {
            let pre = value@.subrange(0, i + 1);
            assert(pre.drop_last() =~= value@.subrange(0, i as int));
            assert(pre.last() == c);
            assert(out@ =~= seq!['\''] + escaped_body(pre));
        }
        i = i + 1;
    }
    out.append("'");
    proof {
        reveal_strlit("'");
        assert(value@.subrange(0, n as int) =~= value@);
        assert(out@ =~= shell_quoted(value@));
    }
    out
}

/// The statement that sets `key` to `value`: `export KEY='value'`.
pub open spec fn export_statement(key: Seq<char>, value: Seq<char>) -> Seq<char> {
    "export "@ + key + "="@ + shell_quoted(value)
}

/// The shell line for one `.env` entry, or `None` for an entry with an
/// empty key, which is skipped.
pub fn export_line(key: &str, value: &str) -> (r: Option<String>)
    ensures
        key@.len() == 0 ==> r is None,
        key@.len() > 0 ==> (r matches Some(line) && line@ == export_statement(key@, value@)),
{
    if key.unicode_len() == 0 {
        return None;
    }
    let mut line = String::from_str("export ");
    line.append(key);
    line.append("=");
    let quoted = escape_for_shell(value);
    line.append(quoted.as_str());
    Some(line)
}

} // verus!
