//! Checks on books and on the texts of a catalogue search.

use crate::library::Library;
use crate::workflow::{Outcome, Task};
use vstd::prelude::*;

verus! {

/// Whether no title was given.
pub fn is_book_title_empty(title: &String) -> (empty: bool)
    ensures
        empty == (title@.len() == 0),
{
    title.as_str().is_empty()
}

/// Whether no author was given.
pub fn is_book_author_empty(author: &String) -> (empty: bool)
    ensures
        empty == (author@.len() == 0),
{
    author.as_str().is_empty()
}

/// Whether no publisher was given.
pub fn is_book_publisher_empty(publisher: &String) -> (empty: bool)
    ensures
        empty == (publisher@.len() == 0),
{
    publisher.as_str().is_empty()
}

/// Whether the catalogue has a book with the id `id`.
pub fn book_exists(store: &mut Library, id: &i32) -> (exists: bool)
    ensures
        final(store)@ == old(store)@,
        exists == old(store)@.has_book(*id),
{
    let result = store.perform(Task::BookExists(*id));
    proof {
        old(store)@.lemma_single_reads();
    }
    match result {
        Ok(Outcome::Flag(exists)) => exists,
        _ => false,
    }
}

/// Whether the book with the id `id` is out on loan; a book that cannot be
/// found counts as free.
pub fn is_book_loaned(store: &mut Library, id: &i32) -> (loaned: bool)
    ensures
        final(store)@ == old(store)@,
        loaned == old(store)@.is_loaned(*id),
{
    let result = store.perform(Task::IsBookLoaned(*id));
    proof {
        old(store)@.lemma_single_reads();
    }
    match result {
        Ok(Outcome::Flag(loaned)) => loaned,
        _ => false,
    }
}

} // verus!
