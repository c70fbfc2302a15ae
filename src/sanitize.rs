use vstd::prelude::*;

verus! {

/// The escape marker placed before each quote.
pub open spec fn marker() -> char {
    '\\'
}

/// `s` with an escape marker inserted immediately before every single quote.
pub open spec fn escaped(s: Seq<char>) -> Seq<char>
    decreases s.len(),
{
    if s.len() == 0 {
        Seq::empty()
    } else if s.last() == '\'' {
        escaped(s.drop_last()) + seq![marker(), '\'']
    } else {
        escaped(s.drop_last()).push(s.last())
    }
}

/// Removes the character before each quote: the inverse of `escaped`.
pub open spec fn unescaped(t: Seq<char>) -> Seq<char>
    decreases t.len(),
{
    if t.len() == 0 {
        Seq::empty()
    } else if t.last() == '\'' && t.len() >= 2 {
        unescaped(t.subrange(0, t.len() - 2)).push('\'')
    } else {
        unescaped(t.drop_last()).push(t.last())
    }
}

/// The number of single quotes in `s`.
pub open spec fn quote_count(s: Seq<char>) -> nat
    decreases s.len(),
{
    if s.len() == 0 {
        0
    } else {
        quote_count(s.drop_last()) + if s.last() == '\'' { 1nat } else { 0nat }
    }
}

/// Inserts an escape marker immediately before every single quote of `input`;
/// every other character stays as it was.
pub fn sanitize_user_input(input: &mut String)
    ensures
        final(input)@ == escaped(old(input)@),
{
    let s: &str = input.as_str();
    let n: usize = s.unicode_len();
    let mut out = String::new();
    let mut i: usize = 0;
    while i < n
        invariant
            i <= n,
            n == s@.len(),
            out@ == escaped(s@.subrange(0, i as int)),
        decreases n - i,
    {
        let c = s.get_char(i);
        let ghost prefix = s@.subrange(0, i + 1);
        assert(prefix.drop_last() == s@.subrange(0, i as int));
        if c == '\'' {
            let esc = "\\'";
            proof {
                reveal_strlit("\\'");
            }
            out.append(esc);
        } else {
            out.append(s.substring_char(i, i + 1));
        }
        i = i + 1;
    }
    assert(s@.subrange(0, n as int) == s@);
    *input = out;
}

proof fn lemma_escaped_shape(s: Seq<char>)
    ensures
        escaped(s).len() == s.len() + quote_count(s),
        forall|j: int|
            0 <= j < escaped(s).len() && #[trigger] escaped(s)[j] == '\'' ==> j >= 1
                && escaped(s)[j - 1] == marker(),
        quote_count(escaped(s)) == quote_count(s),
        unescaped(escaped(s)) == s,
    decreases s.len(),
{
    if s.len() > 0 {
        let p = s.drop_last();
        lemma_escaped_shape(p);
        let ep = escaped(p);
        let e = escaped(s);
        if s.last() == '\'' {
            assert(e.subrange(0, e.len() - 2) == ep);
            assert(e.drop_last().drop_last() == ep);
            assert(e.drop_last() == ep.push(marker()));
            assert(ep.push(marker()).drop_last() == ep);
            assert(quote_count(ep.push(marker())) == quote_count(ep));
        } else {
            assert(e.drop_last() == ep);
        }
        assert forall|j: int| 0 <= j < e.len() && #[trigger] e[j] == '\'' implies j >= 1 && e[j
            - 1] == marker() by {
            if j < ep.len() {
                assert(e[j] == ep[j]);
                assert(e[j - 1] == ep[j - 1]);
            }
        }
    }
}

/// Every quote in the sanitized text is immediately preceded by an escape
/// marker, the text is longer by exactly one character per quote, and
/// removing the character before each quote gives back the input: no other
/// character is altered. Sanitizing twice escapes again the quotes that the
/// first pass left, so the operation is not idempotent on text with a quote.
pub proof fn lemma_sanitize_laws(s: Seq<char>)
    ensures
        forall|j: int|
            0 <= j < escaped(s).len() && #[trigger] escaped(s)[j] == '\'' ==> j >= 1
                && escaped(s)[j - 1] == marker(),
        escaped(s).len() == s.len() + quote_count(s),
        unescaped(escaped(s)) == s,
        escaped(escaped(s)).len() == s.len() + 2 * quote_count(s),
        quote_count(s) > 0 ==> escaped(escaped(s)) != escaped(s),
{
    lemma_escaped_shape(s);
    lemma_escaped_shape(escaped(s));
}

/// Text without a quote is left as it is.
pub proof fn lemma_escaped_no_quote(s: Seq<char>)
    requires
        forall|j: int| 0 <= j < s.len() ==> s[j] != '\'',
    ensures
        escaped(s) == s,
    decreases s.len(),
{
    if s.len() > 0 {
        lemma_escaped_no_quote(s.drop_last());
        assert(s.drop_last().push(s.last()) == s);
    }
}

} // verus!
