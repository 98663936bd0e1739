use vstd::prelude::*;

use crate::page::Page;
use crate::text::chars_of;

verus! {

/// The lowercase form of a text, as `str::to_lowercase` gives it.
pub uninterp spec fn lower_of(s: Seq<char>) -> Seq<char>;

/// Relies on `str::to_lowercase`: the lowercase form depends on the characters
/// alone, and the empty text stays empty.
#[verifier::external_body]
fn lowercase(s: &str) -> (r: String)
    ensures
        r@ == lower_of(s@),
        s@.len() == 0 ==> r@.len() == 0,
{
    s.to_lowercase()
}

/// `needle` occurs in `hay` as a run of consecutive characters.
pub open spec fn is_infix(needle: Seq<char>, hay: Seq<char>) -> bool {
    exists|i: int|
        0 <= i && i + needle.len() <= hay.len() && #[trigger] hay.subrange(i, i + needle.len())
            == needle
}

/// The pages of `s` whose lowercased title holds `folded_query`, in order.
pub open spec fn matching(s: Seq<Page>, folded_query: Seq<char>) -> Seq<Page>
    decreases s.len(),
{
    if s.len() == 0 {
        s
    } else {
        let r = matching(s.drop_last(), folded_query);
        if is_infix(folded_query, lower_of(s.last().title@)) {
            r.push(s.last())
        } else {
            r
        }
    }
}

/// Whether `hay` holds `needle` at position `i`.
fn occurs_at(hay: &Vec<char>, needle: &Vec<char>, i: usize) -> (r: bool)
    requires
        i + needle@.len() <= hay@.len(),
    ensures
        r == (hay@.subrange(i as int, i + needle@.len()) == needle@),
{
    let mut j: usize = 0;
    while j < needle.len()
        invariant
            i + needle@.len() <= hay.len(),
            j <= needle@.len(),
            forall|k: int| 0 <= k < j ==> hay@[i + k] == needle@[k],
        decreases needle@.len() - j,
    {
        if hay[i + j] != needle[j] {
            assert(hay@.subrange(i as int, i + needle@.len())[j as int] != needle@[j as int]);
            return false;
        }
        j += 1;
    }
    assert(hay@.subrange(i as int, i + needle@.len()) =~= needle@);
    true
}

/// Whether the characters `needle` occur in `hay` as a run.
pub fn contains_chars(hay: &Vec<char>, needle: &Vec<char>) -> (r: bool)
    ensures
        r == is_infix(needle@, hay@),
{
    if needle.len() > hay.len() {
        return false;
    }
    let last = hay.len() - needle.len();
    let mut i: usize = 0;
    while i <= last
        invariant
            last + needle@.len() == hay@.len(),
            forall|k: int|
                0 <= k < i ==> #[trigger] hay@.subrange(k, k + needle@.len()) != needle@,
        decreases last + 1 - i,
    {
        if occurs_at(hay, needle, i) {
            return true;
        }
        if i == last {
            assert forall|k: int|
                0 <= k && k + needle@.len() <= hay@.len() implies #[trigger] hay@.subrange(
                k,
                k + needle@.len(),
            ) != needle@ by {
                if k < i {
                } else {
                    assert(k == i);
                }
            }
            return false;
        }
        i += 1;
    }
    false
}

/// Whether a title, already lowercased, holds a query, already lowercased.
pub fn title_matches_folded(folded_title: &str, folded_query: &str) -> (r: bool)
    ensures
        r == is_infix(folded_query@, folded_title@),
{
    contains_chars(&chars_of(folded_title), &chars_of(folded_query))
}

/// The pages whose title holds `query`, ignoring case, in their order.
pub fn retain_matching(pages: Vec<Page>, query: &str) -> (r: Vec<Page>)
    ensures
        r@ == matching(pages@, lower_of(query@)),
{
    let ghost s = pages@;
    let folded_query = lowercase(query);
    let mut rest = pages;
    let mut out: Vec<Page> = Vec::new();
    let ghost mut i: int = 0;
    while rest.len() > 0
        invariant
            0 <= i <= s.len(),
            rest@ == s.skip(i),
            out@ == matching(s.take(i), folded_query@),
            folded_query@ == lower_of(query@),
        decreases rest@.len(),
    {
        let x = rest.remove(0);
        proof {
            assert(s.take(i + 1).drop_last() =~= s.take(i));
            assert(x == s[i]);
        }
        let folded_title = lowercase(x.title.as_str());
        if title_matches_folded(folded_title.as_str(), folded_query.as_str()) {
            out.push(x);
        }
        proof {
            i = i + 1;
            assert(rest@ =~= s.skip(i));
        }
    }
    proof {
        assert(s.take(i) =~= s);
    }
    out
}

} // verus!
