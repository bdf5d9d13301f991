//! Quote escaping for rendered attribute names and string values.
//!
//! The reference sink escapes the double quote character (and nothing else —
//! a documented limitation of the textual output, not a defect) when it
//! renders a property name or a string/date-time value.

use vstd::prelude::*;

verus! {

/// The escaped form of one character: a double quote gains a backslash,
/// every other character is kept as it is.
pub open spec fn escaped_char(c: char) -> Seq<char> {
    if c == '"' {
        seq!['\\', '"']
    } else {
        seq![c]
    }
}

/// The escaped form of a whole text: each character replaced by its escaped
/// form, in order.
pub open spec fn escaped(s: Seq<char>) -> Seq<char>
    decreases s.len(),
{
    if s.len() == 0 {
        Seq::empty()
    } else {
        escaped(s.drop_last()) + escaped_char(s.last())
    }
}

/// Escaping distributes over appending one character at the end.
pub proof fn lemma_escaped_push(s: Seq<char>, c: char)
    ensures
        escaped(s.push(c)) == escaped(s) + escaped_char(c),
{
    assert(s.push(c).drop_last() =~= s);
    assert(s.push(c).last() == c);
}

/// Appends the escaped form of `s` to `out`.
pub fn append_escaped(out: &mut String, s: &str)
    ensures
        final(out)@ == old(out)@ + escaped(s@),
{
    let n = s.unicode_len();
    let mut i: usize = 0;
    while i < n
        invariant
            n == s@.len(),
            i <= n,
            out@ == old(out)@ + escaped(s@.subrange(0, i as int)),
        decreases n - i,
    {
        let c = s.get_char(i);
        if c == '"' {
            crate::num_text::push_char(out, '\\');
            crate::num_text::push_char(out, '"');
        } else {
            crate::num_text::push_char(out, c);
        }
        proof {
            let pre = s@.subrange(0, i as int);
            assert(s@.subrange(0, i + 1) =~= pre.push(s@[i as int]));
            lemma_escaped_push(pre, s@[i as int]);
            assert(out@ =~= old(out)@ + escaped(s@.subrange(0, i + 1)));
        }
        i = i + 1;
    }
    proof {
        assert(s@.subrange(0, n as int) =~= s@);
        assert(escaped(s@.subrange(0, i as int)) == escaped(s@));
    }
}

/// Every double quote in an escaped text is preceded by a backslash: no
/// unescaped quote survives the transformation.
pub proof fn lemma_escaped_quotes_guarded(s: Seq<char>)
    ensures
        forall|j: int|
            0 <= j < escaped(s).len() && #[trigger] escaped(s)[j] == '"' ==> j > 0 && escaped(
                s,
            )[j - 1] == '\\',
    decreases s.len(),
{
    if s.len() > 0 {
        lemma_escaped_quotes_guarded(s.drop_last());
        let e1 = escaped(s.drop_last());
        let t = escaped_char(s.last());
        assert(escaped(s) == e1 + t);
        assert forall|j: int|
            0 <= j < escaped(s).len() && #[trigger] escaped(s)[j] == '"' implies j > 0 && escaped(
            s,
        )[j - 1] == '\\' by {
            if j < e1.len() {
                assert(e1[j] == '"');
            } else {
                if s.last() == '"' {
                    assert(j == e1.len() + 1);
                } else {
                    assert(escaped(s)[j] == t[j - e1.len()]);
                }
            }
        }
    }
}

/// A text without a double quote is unchanged by escaping.
pub proof fn lemma_escaped_identity(s: Seq<char>)
    requires
        forall|j: int| 0 <= j < s.len() ==> s[j] != '"',
    ensures
        escaped(s) == s,
    decreases s.len(),
{
    if s.len() == 0 {
        assert(escaped(s) =~= s);
    } else {
        lemma_escaped_identity(s.drop_last());
        assert(escaped(s) =~= s.drop_last().push(s.last()));
        assert(s.drop_last().push(s.last()) =~= s);
    }
}

} // verus!
