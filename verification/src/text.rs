//! Normalisation of text taken from property values.

use vstd::prelude::*;

verus! {

/// True for the two quote characters that normalisation strips.
pub open spec fn is_quote(c: char) -> bool {
    c == '"' || c == '\''
}

/// `s` without its leading run of quote characters.
pub open spec fn strip_leading(s: Seq<char>) -> Seq<char>
    decreases s.len(),
{
    if s.len() > 0 && is_quote(s[0]) {
        strip_leading(s.drop_first())
    } else {
        s
    }
}

/// `s` without its trailing run of quote characters.
pub open spec fn strip_trailing(s: Seq<char>) -> Seq<char>
    decreases s.len(),
{
    if s.len() > 0 && is_quote(s.last()) {
        strip_trailing(s.drop_last())
    } else {
        s
    }
}

/// `s` without the quote characters at either end. Quotes inside the text
/// stay.
pub open spec fn strip_quotes(s: Seq<char>) -> Seq<char> {
    strip_trailing(strip_leading(s))
}

/// Text that neither starts nor ends with a quote character.
pub open spec fn quote_free_ends(s: Seq<char>) -> bool {
    s.len() > 0 ==> !is_quote(s[0]) && !is_quote(s.last())
}

fn quote_char(c: char) -> (r: bool)
    ensures
        r == is_quote(c),
{
    c == '"' || c == '\''
}

/// Removes every double or single quote from both ends of `s`.
pub fn remove_quotes(s: &str) -> (r: String)
    ensures
        r@ == strip_quotes(s@),
{
    let n: usize = s.unicode_len();
    let mut start: usize = 0;
    proof {
        assert(s@.subrange(0, n as int) =~= s@);
    }
    while start < n && quote_char(s.get_char(start))
        invariant
            start <= n,
            n == s@.len(),
            strip_leading(s@) == strip_leading(s@.subrange(start as int, n as int)),
        decreases n - start,
    {
        proof {
            let cur = s@.subrange(start as int, n as int);
            assert(cur.drop_first() =~= s@.subrange(start + 1, n as int));
        }
        start = start + 1;
    }
    let mut end: usize = n;
    while end > start && quote_char(s.get_char(end - 1))
        invariant
            start <= end <= n,
            n == s@.len(),
            strip_trailing(s@.subrange(start as int, n as int)) == strip_trailing(
                s@.subrange(start as int, end as int),
            ),
        decreases end - start,
    {
        proof {
            let cur = s@.subrange(start as int, end as int);
            assert(cur.drop_last() =~= s@.subrange(start as int, end - 1));
        }
        end = end - 1;
    }
    s.substring_char(start, end).to_owned()
}

/// Stripping leaves text with no quote at either end as it is.
pub proof fn lemma_strip_quote_free(s: Seq<char>)
    requires
        quote_free_ends(s),
    ensures
        strip_quotes(s) == s,
{
}

/// What stripping returns has no quote at either end.
pub proof fn lemma_strip_quotes_ends(s: Seq<char>)
    ensures
        quote_free_ends(strip_quotes(s)),
{
    lemma_strip_leading_head(s);
    lemma_strip_trailing_keeps_head(strip_leading(s));
    lemma_strip_trailing_last(strip_leading(s));
}

/// Stripping twice gives what stripping once gives.
pub proof fn lemma_strip_quotes_idempotent(s: Seq<char>)
    ensures
        strip_quotes(strip_quotes(s)) == strip_quotes(s),
{
    lemma_strip_quotes_ends(s);
    lemma_strip_quote_free(strip_quotes(s));
}

proof fn lemma_strip_leading_head(s: Seq<char>)
    ensures
        strip_leading(s).len() > 0 ==> !is_quote(strip_leading(s)[0]),
    decreases s.len(),
{
    if s.len() > 0 && is_quote(s[0]) {
        lemma_strip_leading_head(s.drop_first());
    }
}

proof fn lemma_strip_trailing_last(s: Seq<char>)
    ensures
        strip_trailing(s).len() > 0 ==> !is_quote(strip_trailing(s).last()),
    decreases s.len(),
{
    if s.len() > 0 && is_quote(s.last()) {
        lemma_strip_trailing_last(s.drop_last());
    }
}

proof fn lemma_strip_trailing_keeps_head(s: Seq<char>)
    requires
        s.len() > 0 ==> !is_quote(s[0]),
    ensures
        strip_trailing(s).len() > 0 ==> !is_quote(strip_trailing(s)[0]),
    decreases s.len(),
{
    if s.len() > 0 && is_quote(s.last()) {
        let t = s.drop_last();
        if t.len() > 0 {
            assert(t[0] == s[0]);
        }
        lemma_strip_trailing_keeps_head(t);
    }
}

} // verus!
