//! The paged-fetch protocol: what each response contributes to the result
//! and when the sequence ends.
//!
//! The first URL is caller-built; every later URL is taken verbatim from
//! the previous response's `Link` header, with no prefix re-applied. The
//! caller performs one GET per pending URL and accounts the response with
//! [`PagedFetch::step`]; the fetch is finished once no URL is pending.

use vstd::prelude::*;

use crate::error::ApiError;
use crate::link::get_next_url;
use crate::link::spec_next_url;

verus! {

/// The view of an optional header value.
pub open spec fn spec_link_view(link: Option<&str>) -> Option<Seq<char>> {
    match link {
        Some(h) => Some(h@),
        None => None,
    }
}

/// The continuation a response yields: none when the `Link` header is
/// absent or carries no `next` relation.
pub open spec fn spec_link_next(link: Option<Seq<char>>) -> Option<Seq<char>> {
    match link {
        None => None,
        Some(h) => spec_next_url(h),
    }
}

/// The outcome of a paged fetch over a sequence of responses, each given
/// as status, `Link` header and page items: responses are consumed in
/// order while a continuation is pending; a non-success status aborts the
/// whole fetch with that status and surfaces nothing.
pub open spec fn spec_run<T>(
    acc: Seq<T>,
    pages: Seq<(u16, Option<Seq<char>>, Seq<T>)>,
) -> Result<Seq<T>, u16>
    decreases pages.len(),
{
    if pages.len() == 0 {
        Ok(acc)
    } else {
        let page = pages[0];
        if page.0 != 200 {
            Err(page.0)
        } else if spec_link_next(page.1) is None {
            Ok(acc + page.2)
        } else {
            spec_run(acc + page.2, pages.drop_first())
        }
    }
}

/// The items of all pages, concatenated in page order.
pub open spec fn spec_pages_items<T>(pages: Seq<(u16, Option<Seq<char>>, Seq<T>)>) -> Seq<T>
    decreases pages.len(),
{
    if pages.len() == 0 {
        Seq::empty()
    } else {
        pages[0].2 + spec_pages_items(pages.drop_first())
    }
}

/// An in-progress paged fetch: the items gathered so far and the URL of
/// the next request, if one is pending.
pub struct PagedFetch<T> {
    /// The items of the pages accounted so far, in page order, each page's
    /// internal order preserved.
    pub items: Vec<T>,
    /// The URL the next GET must use, or nothing once the last page was
    /// seen.
    pub next: Option<String>,
}

impl<T> PagedFetch<T> {
    /// Start a paged fetch at a caller-built absolute URL.
    pub fn begin(url: String) -> (r: Self)
        ensures
            r.items@ == Seq::<T>::empty(),
            r.next == Some(url),
    {
        PagedFetch { items: Vec::new(), next: Some(url) }
    }

    /// Account one response. On status 200 the page's items are appended
    /// and the `Link` header's `next` relation, if any, becomes the next
    /// URL, used verbatim. On any other status the fetch fails with that
    /// status and the state is left as it was: the accumulated items are
    /// never surfaced as a result.
    pub fn step(&mut self, status: u16, link: Option<&str>, items: Vec<T>) -> (r: Result<
        (),
        ApiError,
    >)
        ensures
            status != 200 ==> r == Err::<(), ApiError>(ApiError::HttpStatus(status)) && *final(self)
                == *old(self),
            status == 200 ==> r == Ok::<(), ApiError>(()) && final(self).items@ == old(self).items@
                + items@ && (match spec_link_next(spec_link_view(link)) {
                None => final(self).next is None,
                Some(u) => final(self).next is Some && final(self).next->0@ == u,
            }),
    {
        if status != 200 {
            return Err(ApiError::HttpStatus(status));
        }
        let next = match link {
            None => None,
            Some(h) => get_next_url(h),
        };
        let mut page = items;
        self.items.append(&mut page);
        self.next = next;
        Ok(())
    }
}

/// A run from any accumulator appends the items of all pages when every
/// response succeeds and exactly the last one lacks a continuation.
proof fn lemma_run_all_pages<T>(acc: Seq<T>, pages: Seq<(u16, Option<Seq<char>>, Seq<T>)>)
    requires
        pages.len() > 0,
        forall|k: int| 0 <= k < pages.len() ==> (#[trigger] pages[k]).0 == 200,
        forall|k: int| 0 <= k < pages.len() - 1 ==> spec_link_next((#[trigger] pages[k]).1)
            is Some,
        spec_link_next(pages[pages.len() - 1].1) is None,
    ensures
        spec_run(acc, pages) == Ok::<Seq<T>, u16>(acc + spec_pages_items(pages)),
    decreases pages.len(),
{
    if pages.len() == 1 {
        reveal_with_fuel(spec_pages_items, 2);
        assert(pages.drop_first() =~= Seq::<(u16, Option<Seq<char>>, Seq<T>)>::empty());
        assert(acc + pages[0].2 =~= acc + spec_pages_items(pages));
        assert(spec_run(acc, pages) == Ok::<Seq<T>, u16>(acc + pages[0].2));
    } else {
        let rest = pages.drop_first();
        assert(spec_link_next(pages[0].1) is Some);
        assert(spec_run(acc, pages) == spec_run(acc + pages[0].2, rest));
        assert(forall|k: int| 0 <= k < rest.len() ==> (#[trigger] rest[k]) == pages[k + 1]);
        lemma_run_all_pages(acc + pages[0].2, rest);
        assert(spec_pages_items(pages) == pages[0].2 + spec_pages_items(rest));
        assert((acc + pages[0].2) + spec_pages_items(rest) =~= acc + spec_pages_items(pages));
    }
}

/// Law: over responses where response `k` carries a `next` relation for
/// every `k` before the last and the last carries none, and every status
/// is a success, the paged fetch consumes all the responses and returns
/// the concatenation of all pages' items, in page order.
pub proof fn lemma_paged_fetch_concatenates<T>(pages: Seq<(u16, Option<Seq<char>>, Seq<T>)>)
    requires
        pages.len() > 0,
        forall|k: int| 0 <= k < pages.len() ==> (#[trigger] pages[k]).0 == 200,
        forall|k: int| 0 <= k < pages.len() - 1 ==> spec_link_next((#[trigger] pages[k]).1)
            is Some,
        spec_link_next(pages[pages.len() - 1].1) is None,
    ensures
        spec_run(Seq::<T>::empty(), pages) == Ok::<Seq<T>, u16>(spec_pages_items(pages)),
{
    lemma_run_all_pages(Seq::<T>::empty(), pages);
    assert(Seq::<T>::empty() + spec_pages_items(pages) =~= spec_pages_items(pages));
}

/// A run aborts with the first non-success status, whatever was gathered.
proof fn lemma_run_aborts<T>(acc: Seq<T>, pages: Seq<(u16, Option<Seq<char>>, Seq<T>)>, k: int)
    requires
        0 <= k < pages.len(),
        forall|j: int| 0 <= j < k ==> (#[trigger] pages[j]).0 == 200 && spec_link_next(
            pages[j].1,
        ) is Some,
        pages[k].0 != 200,
    ensures
        spec_run(acc, pages) == Err::<Seq<T>, u16>(pages[k].0),
    decreases k,
{
    if k > 0 {
        let rest = pages.drop_first();
        assert(forall|j: int| 0 <= j < rest.len() ==> (#[trigger] rest[j]) == pages[j + 1]);
        lemma_run_aborts(acc + pages[0].2, rest, k - 1);
    }
}

/// Law: when an intermediate response has a non-success status — the
/// responses before it succeed, each with a continuation — the paged
/// fetch returns an error carrying that status, and the items gathered so
/// far are discarded, not partially returned.
pub proof fn lemma_paged_fetch_aborts<T>(pages: Seq<(u16, Option<Seq<char>>, Seq<T>)>, k: int)
    requires
        0 <= k < pages.len(),
        forall|j: int| 0 <= j < k ==> (#[trigger] pages[j]).0 == 200 && spec_link_next(
            pages[j].1,
        ) is Some,
        pages[k].0 != 200,
    ensures
        spec_run(Seq::<T>::empty(), pages) == Err::<Seq<T>, u16>(pages[k].0),
{
    lemma_run_aborts(Seq::<T>::empty(), pages, k);
}

} // verus!
