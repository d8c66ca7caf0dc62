//! Gathering every item of a list, page by page.
use vstd::prelude::*;

verus! {

/// What a [`Pager`] holds: the items gathered so far, the token of the next
/// page, and whether the list is complete.
pub ghost struct PagerView<T> {
    pub items: Seq<T>,
    pub token: Seq<char>,
    pub done: bool,
}

/// The state before the first page.
pub open spec fn first_state<T>() -> PagerView<T> {
    PagerView { items: Seq::empty(), token: Seq::empty(), done: false }
}

/// The state after one more page: its items are added, its continuation
/// token is the next one, and the list is complete once the token is empty
/// or the items reach the total that the service reported.
pub open spec fn next_state<T>(
    s: PagerView<T>,
    page: Seq<T>,
    token: Seq<char>,
    total: nat,
) -> PagerView<T> {
    PagerView {
        items: s.items + page,
        token,
        done: token.len() == 0 || s.items.len() + page.len() >= total,
    }
}

/// Gathers the items of a list, the pages fetched by the caller with the
/// token that [`Pager::page_token`] gives.
pub struct Pager<T> {
    items: Vec<T>,
    token: String,
    done: bool,
}

impl<T> View for Pager<T> {
    type V = PagerView<T>;

    closed spec fn view(&self) -> PagerView<T> {
        PagerView { items: self.items@, token: self.token@, done: self.done }
    }
}

impl<T> Pager<T> {
    pub fn new() -> (r: Pager<T>)
        ensures
            r@ == first_state::<T>(),
    {
        Pager { items: Vec::new(), token: String::new(), done: false }
    }

    /// The token to ask the next page with.
    pub fn page_token(&self) -> (r: &str)
        ensures
            r@ == self@.token,
    {
        self.token.as_str()
    }

    /// Whether every page is in.
    pub fn done(&self) -> (r: bool)
        ensures
            r == self@.done,
    {
        self.done
    }

    /// Takes in one page: its items, its continuation token, and the total
    /// number of items that the service reported.
    pub fn absorb(&mut self, page: Vec<T>, next_page_token: String, total_count: usize)
        ensures
            final(self)@ == next_state(old(self)@, page@, next_page_token@, total_count as nat),
    {
        let mut page = page;
        self.items.append(&mut page);
        self.done = next_page_token.as_str().is_empty() || self.items.len() >= total_count;
        self.token = next_page_token;
    }

    /// The items gathered, in the order of the pages.
    pub fn into_items(self) -> (r: Vec<T>)
        ensures
            r@ == self@.items,
    {
        self.items
    }
}

/// Two pages whose sizes add up to the reported total, the first with a
/// continuation token and the second without, are gathered whole: the
/// list is not complete after the first and is complete after the second,
/// holding exactly the items of both in order.
pub proof fn two_pages_complete_the_list<T>(
    first: Seq<T>,
    token: Seq<char>,
    second: Seq<T>,
    total: nat,
)
    requires
        token.len() > 0,
        first.len() < total,
        first.len() + second.len() == total,
    ensures
        !next_state(first_state::<T>(), first, token, total).done,
        next_state(next_state(first_state::<T>(), first, token, total), second, seq![], total).done,
        next_state(next_state(first_state::<T>(), first, token, total), second, seq![], total).items
            == first + second,
        next_state(
            next_state(first_state::<T>(), first, token, total),
            second,
            seq![],
            total,
        ).items.len() == total,
{
    assert(Seq::<T>::empty() + first =~= first);
}

/// Gathering stops at the first page without a continuation token,
/// whatever the reported total.
pub proof fn empty_token_completes_the_list<T>(s: PagerView<T>, page: Seq<T>, total: nat)
    ensures
        next_state(s, page, seq![], total).done,
        next_state(s, page, seq![], total).items == s.items + page,
{
}

} // verus!
