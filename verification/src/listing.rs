use vstd::prelude::*;

verus! {

/// One page of a listing traversal, as the service reports it: each entry's
/// key where the entry carries one, whether the traversal is truncated, and
/// the token that asks for the next page.
pub struct ListPage {
    pub keys: Vec<Option<String>>,
    pub is_truncated: Option<bool>,
    pub next_token: Option<String>,
}

/// What a listing does after a page: ask for the next page with the page's
/// continuation token, or stop.
pub enum ListAction {
    FetchMore(Option<String>),
    Done,
}

/// The keys an entry sequence carries, in order, entries without a key
/// left out.
pub open spec fn present_keys(entries: Seq<Option<Seq<char>>>) -> Seq<Seq<char>>
    decreases entries.len(),
{
    if entries.len() == 0 {
        Seq::<Seq<char>>::empty()
    } else {
        present_keys(entries.drop_last()) + match entries.last() {
            Some(k) => seq![k],
            None => Seq::<Seq<char>>::empty(),
        }
    }
}

/// The keys one page carries.
pub open spec fn page_keys(page: ListPage) -> Seq<Seq<char>> {
    present_keys(page.keys.deep_view())
}

/// The keys a whole run of pages carries, first page first.
pub open spec fn pages_keys(pages: Seq<ListPage>) -> Seq<Seq<char>>
    decreases pages.len(),
{
    if pages.len() == 0 {
        Seq::<Seq<char>>::empty()
    } else {
        pages_keys(pages.drop_last()) + page_keys(pages.last())
    }
}

/// Accumulates the keys of a listing traversal, page by page.
pub struct KeyListing {
    keys: Vec<String>,
}

impl View for KeyListing {
    type V = Seq<Seq<char>>;

    closed spec fn view(&self) -> Seq<Seq<char>> {
        self.keys.deep_view()
    }
}

impl KeyListing {
    /// A listing that has seen no page yet.
    pub fn new() -> (r: KeyListing)
        ensures
            r@ == Seq::<Seq<char>>::empty(),
    {
        let r = KeyListing { keys: Vec::new() };
        proof {
            assert(r@ =~= Seq::<Seq<char>>::empty());
        }
        r
    }

    /// Takes one page in: appends every key the page carries, in order, and
    /// decides whether the traversal goes on -- it does exactly when the
    /// page says it is truncated, and then with the page's token.
    pub fn absorb(&mut self, page: ListPage) -> (r: ListAction)
        ensures
            final(self)@ == old(self)@ + page_keys(page),
            page.is_truncated == Some(true) ==> (r matches ListAction::FetchMore(t) && t
                == page.next_token),
            page.is_truncated != Some(true) ==> r is Done,
    {
        let ghost entries = page.keys.deep_view();
        let mut i: usize = 0;
        while i < page.keys.len()
            invariant
                i <= page.keys.len(),
                entries == page.keys.deep_view(),
                entries.len() == page.keys.len(),
                self.keys.deep_view() == old(self).keys.deep_view() + present_keys(
                    entries.take(i as int),
                ),
            decreases page.keys.len() - i,
        {
            let ghost before = self.keys.deep_view();
            match &page.keys[i] {
                Some(k) => {
                    self.keys.push(k.clone());
                    proof {
                        assert(self.keys.deep_view() =~= before + seq![k@]);
                    }
                },
                None => {},
            }
            proof {
                assert(entries.take(i + 1).drop_last() =~= entries.take(i as int));
                assert(entries.take(i + 1).last() == entries[i as int]);
                assert(self.keys.deep_view() =~= old(self).keys.deep_view() + present_keys(
                    entries.take(i + 1),
                ));
            }
            i = i + 1;
        }
        proof {
            assert(entries.take(entries.len() as int) =~= entries);
        }
        let truncated = match page.is_truncated {
            Some(t) => t,
            None => false,
        };
        if truncated {
            ListAction::FetchMore(page.next_token)
        } else {
            ListAction::Done
        }
    }

    /// Hands the accumulated keys out, in the order they arrived.
    pub fn into_keys(self) -> (r: Vec<String>)
        ensures
            r.deep_view() == self@,
    {
        self.keys
    }
}

/// Pagination is complete: a listing that absorbs every page of a
/// traversal, in order, holds exactly the keys of those pages laid end to
/// end -- no key is dropped, none is added, and a key that the pages carry
/// once arrives once.
pub proof fn lemma_pagination_complete(pages: Seq<ListPage>)
    ensures
        pages_keys(pages) == pages.map_values(|p: ListPage| page_keys(p)).flatten(),
    decreases pages.len(),
{
    let mapped = pages.map_values(|p: ListPage| page_keys(p));
    if pages.len() == 0 {
        assert(mapped =~= Seq::<Seq<Seq<char>>>::empty());
        assert(mapped.flatten() =~= Seq::<Seq<char>>::empty());
    } else {
        lemma_pagination_complete(pages.drop_last());
        let rest = pages.drop_last().map_values(|p: ListPage| page_keys(p));
        assert(mapped.drop_last() =~= rest);
        mapped.lemma_flatten_and_flatten_alt_are_equivalent();
        mapped.drop_last().lemma_flatten_and_flatten_alt_are_equivalent();
        assert(mapped.flatten_alt() == mapped.drop_last().flatten_alt() + mapped.last());
        assert(mapped.last() == page_keys(pages.last()));
    }
}

} // verus!
