//! Collection queries: which collection, in which order.
use super::PWCollection;
use crate::client::{Client, Lobby};
use crate::text::{join_with, joined, string_views};
use std::marker::PhantomData;
use vstd::prelude::*;
use vstd::string::to_string_from_display_ensures;

verus! {

/// A collection query made from a logged-in client: the collection of `T`,
/// sorted by the sort options pushed so far. The records are fetched page
/// by page; [`PageCollector`](super::paging::PageCollector) decides which
/// pages and which records.
pub struct PWCollectionQuery<'a, T: PWCollection> {
    client: &'a Client<Lobby>,
    phantom: PhantomData<T>,
    sort_options: Vec<String>,
}

impl<'a, T: PWCollection> PWCollectionQuery<'a, T> {
    /// The sort options pushed so far, in order.
    pub closed spec fn sort_options(&self) -> Seq<Seq<char>> {
        string_views(self.sort_options@)
    }

    /// The client that the query is made with.
    pub closed spec fn client(&self) -> &'a Client<Lobby> {
        self.client
    }

    /// Creates a new collection query from a logged-in client.
    pub fn new(client: &'a Client<Lobby>) -> (q: Self)
        ensures
            q.sort_options() == Seq::<Seq<char>>::empty(),
            q.client() == client,
    {
        let q = PWCollectionQuery { client, phantom: PhantomData, sort_options: Vec::new() };
        assert(q.sort_options() =~= Seq::<Seq<char>>::empty());
        q
    }

    /// Pushes a new sort index to the query builder: the text that
    /// `sort_option.to_string()` gives (for a string, the string itself).
    /// The sort direction can be optionally specified with a leading `+`
    /// (ascending, default) or a `-` (descending). Earlier sort options take
    /// precedence: later ones sort ties.
    pub fn sort<K: std::fmt::Display + ?Sized>(&mut self, sort_option: &K) -> (r: &mut Self)
        ensures
            exists|text: String|
                to_string_from_display_ensures::<K>(sort_option, text)
                    && r.sort_options() == old(self).sort_options().push(text@),
            r.client() == old(self).client(),
            *final(self) == *final(r),
    {
        let text = sort_option.to_string();
        let ghost pushed = text;
        self.sort_options.push(text);
        assert(self.sort_options() =~= old(self).sort_options().push(pushed@));
        self
    }

    /// The client that the query is made with.
    pub fn lobby(&self) -> (c: &'a Client<Lobby>)
        ensures
            c == self.client(),
    {
        self.client
    }

    /// The name of the collection that the query reads.
    pub fn collection_name(&self) -> (name: &'static str)
        ensures
            name == T::COLLECTION_NAME,
    {
        T::COLLECTION_NAME
    }

    /// The `sort` parameter of the list requests: none where no sort option
    /// was pushed, else the options joined by commas.
    pub fn sort_parameter(&self) -> (p: Option<String>)
        ensures
            self.sort_options().len() == 0 ==> p is None,
            self.sort_options().len() > 0 ==> p is Some && p->0@ == joined(self.sort_options(), ","@),
    {
        if self.sort_options.len() > 0 {
            Some(join_with(&self.sort_options, ","))
        } else {
            None
        }
    }
}

/// The length of a collection (the amount of its records), from the
/// `total_items` that the API server reports; a negative count wraps as
/// `as usize` makes it.
pub fn collection_len(total_items: i32) -> (len: usize)
    ensures
        total_items >= 0 ==> len == total_items,
        len == total_items as usize,
{
    total_items as usize
}

} // verus!
