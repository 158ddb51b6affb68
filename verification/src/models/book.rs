//! Books of the catalogue.

use crate::calendar::Date;
use crate::custom_errors::app_error::AppError;
use crate::library::Library;
use crate::persistence::BookColumn;
use crate::validation::book_validation::{
    is_book_author_empty, is_book_publisher_empty, is_book_title_empty,
};
use crate::workflow::{seen, Outcome, Progress, Task, TaskView};
use vstd::prelude::*;

verus! {

/// A book of the catalogue, as the store holds it.
#[derive(Debug, PartialEq, Eq)]
pub struct Book {
    pub book_id: i32,
    pub title: String,
    pub authors: String,
    pub isbn: String,
    pub language_code: String,
    pub num_pages: i32,
    pub publication_date: Date,
    pub publisher: String,
    /// Whether the book is out on loan: no new loan may be made while it is set.
    pub is_loaned: bool,
}

/// What a `Book` holds, as mathematical values.
pub struct BookView {
    pub book_id: i32,
    pub title: Seq<char>,
    pub authors: Seq<char>,
    pub isbn: Seq<char>,
    pub language_code: Seq<char>,
    pub num_pages: i32,
    pub publication_date: Date,
    pub publisher: Seq<char>,
    pub is_loaned: bool,
}

impl View for Book {
    type V = BookView;

    open spec fn view(&self) -> BookView {
        BookView {
            book_id: self.book_id,
            title: self.title@,
            authors: self.authors@,
            isbn: self.isbn@,
            language_code: self.language_code@,
            num_pages: self.num_pages,
            publication_date: self.publication_date,
            publisher: self.publisher@,
            is_loaned: self.is_loaned,
        }
    }
}

impl DeepView for Book {
    type V = BookView;

    open spec fn deep_view(&self) -> BookView {
        self@
    }
}

impl Clone for Book {
    fn clone(&self) -> (copy: Book)
        ensures
            copy == *self,
    {
        Book {
            book_id: self.book_id,
            title: self.title.clone(),
            authors: self.authors.clone(),
            isbn: self.isbn.clone(),
            language_code: self.language_code.clone(),
            num_pages: self.num_pages,
            publication_date: self.publication_date,
            publisher: self.publisher.clone(),
            is_loaned: self.is_loaned,
        }
    }
}

impl BookView {
    /// The same book with its availability flag set to `loaned`.
    pub open spec fn with_loaned(self, loaned: bool) -> BookView {
        BookView { is_loaned: loaned, ..self }
    }
}

impl Book {
    /// The first books of the catalogue, in row order.
    pub fn get_all_books(store: &mut Library) -> (books: Result<Vec<Book>, AppError>)
        ensures
            final(store)@ == old(store)@,
            books is Ok,
            books->Ok_0.deep_view() == old(store)@.listed_books(),
    {
        let result = store.perform(Task::ListBooks);
        proof {
            old(store)@.lemma_single_reads();
        }
        match result {
            Ok(Outcome::Books(books)) => Ok(books),
            Ok(_) => Err(AppError::InternalError),
            Err(error) => Err(error),
        }
    }

    /// The book with the id `id`, or `NotFound`.
    pub fn get_book_by_id(store: &mut Library, id: &i32) -> (book: Result<Book, AppError>)
        ensures
            final(store)@ == old(store)@,
            seen(book) == old(store)@.get_book(*id),
    {
        let result = store.perform(Task::GetBook(*id));
        proof {
            old(store)@.lemma_single_reads();
        }
        match result {
            Ok(Outcome::Book(book)) => Ok(book),
            Ok(_) => Err(AppError::InternalError),
            Err(error) => Err(error),
        }
    }

    /// Flips the availability flag of the book with the id `id`: a book that
    /// was free is flagged as loaned, and the other way round. The caller
    /// has to know which of the two it wants.
    pub fn update_loan_status(store: &mut Library, id: &i32) -> (updated: Result<bool, AppError>)
        ensures
            final(store)@ == old(store)@.toggle(*id).0,
            updated == old(store)@.toggle(*id).1,
            updated is Ok <==> old(store)@.has_book(*id),
    {
        let result = store.perform(Task::ToggleLoanStatus(*id));
        proof {
            old(store)@.lemma_toggle(*id);
        }
        match result {
            Ok(Outcome::Flag(done)) => Ok(done),
            Ok(_) => Err(AppError::InternalError),
            Err(error) => Err(error),
        }
    }
}

/// The three texts a catalogue search can go by.
#[derive(Debug, PartialEq, Eq)]
pub struct SearchableBook {
    pub title: String,
    pub authors: String,
    pub publisher: String,
}

impl SearchableBook {
    /// The first step of a search by title: `BadRequest` if no title was
    /// given, else the call that finds the books whose title holds it.
    pub fn search_book_by_title(book: SearchableBook) -> (first: Progress)
        ensures
            first@ == (TaskView::SearchBooks {
                column: BookColumn::Title,
                text: book.title@,
            }).begin(),
    {
        if is_book_title_empty(&book.title) {
            return Progress::Done(Err(AppError::BadRequest));
        }
        Task::SearchBooks { column: BookColumn::Title, text: book.title }.begin()
    }

    /// The first step of a search by author: `BadRequest` if no author was
    /// given, else the call that finds the books whose authors hold it.
    pub fn search_book_by_author(book: SearchableBook) -> (first: Progress)
        ensures
            first@ == (TaskView::SearchBooks {
                column: BookColumn::Authors,
                text: book.authors@,
            }).begin(),
    {
        if is_book_author_empty(&book.authors) {
            return Progress::Done(Err(AppError::BadRequest));
        }
        Task::SearchBooks { column: BookColumn::Authors, text: book.authors }.begin()
    }

    /// The first step of a search by publisher: `BadRequest` if no publisher
    /// was given, else the call that finds the books whose publisher holds it.
    pub fn search_book_by_publisher(book: SearchableBook) -> (first: Progress)
        ensures
            first@ == (TaskView::SearchBooks {
                column: BookColumn::Publisher,
                text: book.publisher@,
            }).begin(),
    {
        if is_book_publisher_empty(&book.publisher) {
            return Progress::Done(Err(AppError::BadRequest));
        }
        Task::SearchBooks { column: BookColumn::Publisher, text: book.publisher }.begin()
    }
}

} // verus!
