//! What the lending core asks of a store, and what a store answers.
//!
//! The core never talks to a store itself. It hands out a `Query`, and
//! whoever holds the store hands back the `Reply`.

use crate::calendar::Date;
use crate::custom_errors::app_error::StoreFault;
use crate::models::book::{Book, BookView};
use crate::models::loan::{Loan, LoanView};
use crate::models::user::{NewUser, NewUserView, User, UserView};
use vstd::prelude::*;

verus! {

/// The text columns of a book that a search can go by.
#[derive(Clone, Copy, Debug, PartialEq, Eq, Structural)]
pub enum BookColumn {
    Title,
    Authors,
    Publisher,
}

/// One call on the store.
#[derive(Debug, PartialEq, Eq)]
pub enum Query {
    /// The first `limit` books.
    ListBooks { limit: usize },
    /// The books with this id: one at most.
    BookById(i32),
    /// The books with this id, as for `BookById`; besides, nobody else
    /// writes to the row until the task that asked has ended.
    LockBook(i32),
    /// The books whose `column` matches `pattern`, letter case ignored;
    /// in the pattern `%` stands for any run of characters.
    BooksLike { column: BookColumn, pattern: String },
    /// Set the availability flag of the book with this id.
    SetBookLoaned { book_id: i32, loaned: bool },
    /// Every loan.
    ListLoans,
    /// The loans with this id: one at most.
    LoanById(String),
    /// The loans with this id, as for `LoanById`; besides, nobody else
    /// writes to the row until the task that asked has ended.
    LockLoan(String),
    /// The loans of this user.
    LoansOfUser(String),
    /// Close the loan with this id, if it is open.
    MarkLoanReturned(String),
    /// Create a loan of this book to this user, starting today.
    InsertLoan { book_id: i32, user_id: String },
    /// Every user.
    ListUsers,
    /// The users with this id: one at most.
    UserById(String),
    /// The users with this e-mail address: one at most.
    UserByEmail(String),
    /// Mark the user with this id as deleted.
    MarkUserDeleted(String),
    /// Create this user.
    InsertUser(NewUser),
    /// Today's date.
    Today,
}

/// What a `Query` holds, as mathematical values.
pub enum QueryView {
    ListBooks { limit: usize },
    BookById(i32),
    LockBook(i32),
    BooksLike { column: BookColumn, pattern: Seq<char> },
    SetBookLoaned { book_id: i32, loaned: bool },
    ListLoans,
    LoanById(Seq<char>),
    LockLoan(Seq<char>),
    LoansOfUser(Seq<char>),
    MarkLoanReturned(Seq<char>),
    InsertLoan { book_id: i32, user_id: Seq<char> },
    ListUsers,
    UserById(Seq<char>),
    UserByEmail(Seq<char>),
    MarkUserDeleted(Seq<char>),
    InsertUser(NewUserView),
    Today,
}

impl View for Query {
    type V = QueryView;

    open spec fn view(&self) -> QueryView {
        match self {
            Query::ListBooks { limit } => QueryView::ListBooks { limit: *limit },
            Query::BookById(id) => QueryView::BookById(*id),
            Query::LockBook(id) => QueryView::LockBook(*id),
            Query::BooksLike { column, pattern } => QueryView::BooksLike {
                column: *column,
                pattern: pattern@,
            },
            Query::SetBookLoaned { book_id, loaned } => QueryView::SetBookLoaned {
                book_id: *book_id,
                loaned: *loaned,
            },
            Query::ListLoans => QueryView::ListLoans,
            Query::LoanById(id) => QueryView::LoanById(id@),
            Query::LockLoan(id) => QueryView::LockLoan(id@),
            Query::LoansOfUser(id) => QueryView::LoansOfUser(id@),
            Query::MarkLoanReturned(id) => QueryView::MarkLoanReturned(id@),
            Query::InsertLoan { book_id, user_id } => QueryView::InsertLoan {
                book_id: *book_id,
                user_id: user_id@,
            },
            Query::ListUsers => QueryView::ListUsers,
            Query::UserById(id) => QueryView::UserById(id@),
            Query::UserByEmail(email) => QueryView::UserByEmail(email@),
            Query::MarkUserDeleted(id) => QueryView::MarkUserDeleted(id@),
            Query::InsertUser(user) => QueryView::InsertUser(user@),
            Query::Today => QueryView::Today,
        }
    }
}

/// What the store hands back for one `Query`.
#[derive(Debug, PartialEq, Eq)]
pub enum Reply {
    /// The rows a query on books selected, or the book just written.
    Books(Vec<Book>),
    /// The rows a query on loans selected, or the loan just created.
    Loans(Vec<Loan>),
    /// The rows a query on users selected, or the user just created.
    Users(Vec<User>),
    /// How many rows an update changed.
    Affected(usize),
    /// Today's date.
    Today(Date),
    /// The call failed.
    Failed(StoreFault),
}

/// What a `Reply` holds, as mathematical values.
pub enum ReplyView {
    Books(Seq<BookView>),
    Loans(Seq<LoanView>),
    Users(Seq<UserView>),
    Affected(usize),
    Today(Date),
    Failed(StoreFault),
}

impl View for Reply {
    type V = ReplyView;

    open spec fn view(&self) -> ReplyView {
        match self {
            Reply::Books(rows) => ReplyView::Books(rows.deep_view()),
            Reply::Loans(rows) => ReplyView::Loans(rows.deep_view()),
            Reply::Users(rows) => ReplyView::Users(rows.deep_view()),
            Reply::Affected(count) => ReplyView::Affected(*count),
            Reply::Today(date) => ReplyView::Today(*date),
            Reply::Failed(fault) => ReplyView::Failed(*fault),
        }
    }
}

} // verus!
