//! Text utilities of the search core: splitting a comma-delimited
//! multi-value parameter into its tokens, and substring containment,
//! which gives the "contains feature" predicate its meaning.

use vstd::prelude::*;

verus! {

/// Splitting on commas, defined over the last character: the empty string
/// yields one empty token, a trailing comma opens a new empty token, and
/// any other character extends the last token.  Empty tokens are kept,
/// exactly as the standard comma split keeps them.
pub open spec fn spec_split_commas(s: Seq<char>) -> Seq<Seq<char>>
    decreases s.len(),
{
    if s.len() == 0 {
        seq![Seq::<char>::empty()]
    } else if s.last() == ',' {
        spec_split_commas(s.drop_last()).push(Seq::<char>::empty())
    } else {
        let r = spec_split_commas(s.drop_last());
        r.update(r.len() - 1, r.last().push(s.last()))
    }
}

pub proof fn lemma_split_commas_len(s: Seq<char>)
    ensures
        spec_split_commas(s).len() >= 1,
    decreases s.len(),
{
    if s.len() > 0 {
        lemma_split_commas_len(s.drop_last());
    }
}

/// Splits a string on commas, keeping empty tokens.
pub fn split_commas(s: &str) -> (r: Vec<String>)
    ensures
        r.deep_view() == spec_split_commas(s@),
{
    let n: usize = s.unicode_len();
    let mut out: Vec<String> = Vec::new();
    let mut tok_start: usize = 0;
    let mut i: usize = 0;
    proof {
        assert(s@.subrange(0, 0) =~= Seq::<char>::empty());
        assert(out.deep_view() =~= Seq::<Seq<char>>::empty());
        assert(out.deep_view().push(Seq::<char>::empty()) =~= seq![Seq::<char>::empty()]);
    }
    while i < n
        invariant
            0 <= tok_start <= i <= n,
            n == s@.len(),
            spec_split_commas(s@.subrange(0, i as int)) == out.deep_view().push(
                s@.subrange(tok_start as int, i as int),
            ),
        decreases n - i,
    {
        let c: char = s.get_char(i);
        let ghost prefix: Seq<char> = s@.subrange(0, i as int);
        let ghost prefix1: Seq<char> = s@.subrange(0, i as int + 1);
        proof {
            assert(prefix1.drop_last() =~= prefix);
            assert(prefix1.last() == s@[i as int]);
            lemma_split_commas_len(prefix);
        }
        if c == ',' {
            let tok: String = s.substring_char(tok_start, i).to_owned();
            let ghost old_out: Seq<Seq<char>> = out.deep_view();
            out.push(tok);
            proof {
                assert(out.deep_view() =~= old_out.push(tok@));
                assert(s@.subrange(i as int + 1, i as int + 1) =~= Seq::<char>::empty());
                assert(spec_split_commas(prefix1) =~= out.deep_view().push(
                    Seq::<char>::empty(),
                ));
            }
            tok_start = i + 1;
        } else {
            proof {
                let r = spec_split_commas(prefix);
                assert(r == out.deep_view().push(s@.subrange(tok_start as int, i as int)));
                assert(r.len() == out.deep_view().len() + 1);
                assert(r.last() == s@.subrange(tok_start as int, i as int));
                assert(s@.subrange(tok_start as int, i as int).push(s@[i as int]) =~= s@.subrange(
                    tok_start as int,
                    i as int + 1,
                ));
                assert(spec_split_commas(prefix1) =~= out.deep_view().push(
                    s@.subrange(tok_start as int, i as int + 1),
                ));
            }
        }
        i = i + 1;
    }
    let tok: String = s.substring_char(tok_start, n).to_owned();
    let ghost old_out: Seq<Seq<char>> = out.deep_view();
    out.push(tok);
    proof {
        assert(s@.subrange(0, n as int) =~= s@);
        assert(out.deep_view() =~= old_out.push(tok@));
    }
    out
}

/// `needle` occurs contiguously inside `hay`.
pub open spec fn spec_contains_sub(hay: Seq<char>, needle: Seq<char>) -> bool {
    exists|i: int|
        0 <= i <= hay.len() - needle.len() && #[trigger] hay.subrange(i, i + needle.len())
            == needle
}

/// Whether `hay[at .. at + needle.len()]` equals `needle`.
fn matches_at(hay: &str, needle: &str, at: usize) -> (r: bool)
    requires
        at + needle@.len() <= hay@.len(),
    ensures
        r == (hay@.subrange(at as int, at as int + needle@.len()) == needle@),
{
    let n: usize = hay.unicode_len();
    let m: usize = needle.unicode_len();
    let mut j: usize = 0;
    while j < m
        invariant
            0 <= j <= m,
            n == hay@.len(),
            m == needle@.len(),
            at + m <= n,
            forall|k: int| 0 <= k < j ==> hay@[at + k] == needle@[k],
        decreases m - j,
    {
        if hay.get_char(at + j) != needle.get_char(j) {
            proof {
                assert(hay@.subrange(at as int, at as int + needle@.len())[j as int] == hay@[at
                    + j]);
            }
            return false;
        }
        j = j + 1;
    }
    proof {
        assert(hay@.subrange(at as int, at as int + needle@.len()) =~= needle@);
    }
    true
}

/// Substring search: whether `needle` occurs contiguously inside `hay`.
pub fn contains_sub(hay: &str, needle: &str) -> (r: bool)
    ensures
        r == spec_contains_sub(hay@, needle@),
{
    let n: usize = hay.unicode_len();
    let m: usize = needle.unicode_len();
    if m > n {
        return false;
    }
    if m == 0 {
        proof {
            assert(hay@.subrange(0, 0 + needle@.len() as int) =~= needle@);
        }
        return true;
    }
    let mut i: usize = 0;
    while i <= n - m
        invariant
            0 <= i <= n - m + 1,
            1 <= m <= n,
            n == hay@.len(),
            m == needle@.len(),
            forall|k: int|
                0 <= k < i ==> #[trigger] hay@.subrange(k, k + needle@.len()) != needle@,
        decreases n - m + 1 - i,
    {
        if matches_at(hay, needle, i) {
            return true;
        }
        i = i + 1;
    }
    false
}

} // verus!
