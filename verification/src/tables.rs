//! The store as a mathematical value: three tables and a clock, with the
//! rules every store keeps and the meaning of every call on it.

use crate::calendar::{Date, Timestamp};
use crate::custom_errors::app_error::StoreFault;
use crate::models::book::BookView;
use crate::models::loan::LoanView;
use crate::models::user::{NewUserView, UserView};
use crate::persistence::{QueryView, ReplyView};
use crate::text::{decimal, lemma_decimal_injective};
use vstd::prelude::*;

verus! {

/// The tables of the store and its clock.
pub struct LibraryView {
    pub books: Seq<BookView>,
    pub loans: Seq<LoanView>,
    pub users: Seq<UserView>,
    pub today: Date,
    pub now: Timestamp,
}

/// How many of `loans` are active loans of the book `book_id`.
pub open spec fn active_loans(loans: Seq<LoanView>, book_id: i32) -> nat
    decreases loans.len(),
{
    if loans.len() == 0 {
        0
    } else {
        let earlier = active_loans(loans.drop_last(), book_id);
        if loans.last().book_id == book_id && loans.last().is_active() {
            earlier + 1
        } else {
            earlier
        }
    }
}

/// Those of `loans` that were made to the user `user_id`, in their order.
pub open spec fn loans_of_user(loans: Seq<LoanView>, user_id: Seq<char>) -> Seq<LoanView>
    decreases loans.len(),
{
    if loans.len() == 0 {
        Seq::empty()
    } else {
        let earlier = loans_of_user(loans.drop_last(), user_id);
        if loans.last().user_id == user_id {
            earlier.push(loans.last())
        } else {
            earlier
        }
    }
}

/// Whether one of `books` has the id `id`.
pub open spec fn holds_book(books: Seq<BookView>, id: i32) -> bool {
    exists|i: int| 0 <= i < books.len() && books[i].book_id == id
}

/// Whether one of `loans` has the id `id`.
pub open spec fn holds_loan(loans: Seq<LoanView>, id: Seq<char>) -> bool {
    exists|i: int| 0 <= i < loans.len() && loans[i].id == id
}

/// Whether one of `users` has the id `id`.
pub open spec fn holds_user(users: Seq<UserView>, id: Seq<char>) -> bool {
    exists|i: int| 0 <= i < users.len() && users[i].id == id
}

/// Whether one of `users` has the e-mail address `email`.
pub open spec fn holds_email(users: Seq<UserView>, email: Seq<char>) -> bool {
    exists|i: int| 0 <= i < users.len() && users[i].email == email
}

impl LibraryView {
    /// Whether the catalogue has the book `id`.
    pub open spec fn has_book(self, id: i32) -> bool {
        holds_book(self.books, id)
    }

    /// Where the book `id` stands in the table.
    pub open spec fn book_index(self, id: i32) -> int {
        choose|i: int| 0 <= i < self.books.len() && self.books[i].book_id == id
    }

    /// The book `id`.
    pub open spec fn book(self, id: i32) -> BookView {
        self.books[self.book_index(id)]
    }

    /// Whether there is a loan `id`.
    pub open spec fn has_loan(self, id: Seq<char>) -> bool {
        holds_loan(self.loans, id)
    }

    /// Where the loan `id` stands in the table.
    pub open spec fn loan_index(self, id: Seq<char>) -> int {
        choose|i: int| 0 <= i < self.loans.len() && self.loans[i].id == id
    }

    /// The loan `id`.
    pub open spec fn loan(self, id: Seq<char>) -> LoanView {
        self.loans[self.loan_index(id)]
    }

    /// Whether there is a user `id`, deleted or not.
    pub open spec fn has_user(self, id: Seq<char>) -> bool {
        holds_user(self.users, id)
    }

    /// Where the user `id` stands in the table.
    pub open spec fn user_index(self, id: Seq<char>) -> int {
        choose|i: int| 0 <= i < self.users.len() && self.users[i].id == id
    }

    /// The user `id`.
    pub open spec fn user(self, id: Seq<char>) -> UserView {
        self.users[self.user_index(id)]
    }

    /// Whether a user has the e-mail address `email`.
    pub open spec fn has_email(self, email: Seq<char>) -> bool {
        holds_email(self.users, email)
    }

    /// Where the user with the address `email` stands in the table.
    pub open spec fn email_index(self, email: Seq<char>) -> int {
        choose|i: int| 0 <= i < self.users.len() && self.users[i].email == email
    }

    /// The user with the e-mail address `email`.
    pub open spec fn user_by_email(self, email: Seq<char>) -> UserView {
        self.users[self.email_index(email)]
    }

    /// The rules that every state of the store obeys: keys are unique, the
    /// ids of loans and users are the numerals of their row numbers, a loan
    /// refers to a book and a user that exist and falls due after it was
    /// made, and a loan made today has a deadline that a `Date` can hold.
    pub open spec fn wf(self) -> bool {
        &&& self.today.can_start_loan()
        &&& forall|i: int, j: int|
            0 <= i < j < self.books.len() ==> self.books[i].book_id != self.books[j].book_id
        &&& forall|i: int|
            0 <= i < self.loans.len() ==> (#[trigger] self.loans[i]).id == decimal(i as nat)
        &&& forall|i: int|
            0 <= i < self.users.len() ==> (#[trigger] self.users[i]).id == decimal(i as nat)
        &&& forall|i: int, j: int|
            0 <= i < j < self.users.len() ==> self.users[i].email != self.users[j].email
        &&& forall|i: int|
            0 <= i < self.loans.len() ==> holds_book(
                self.books,
                (#[trigger] self.loans[i]).book_id,
            )
        &&& forall|i: int|
            0 <= i < self.loans.len() ==> holds_user(
                self.users,
                (#[trigger] self.loans[i]).user_id,
            )
        &&& forall|i: int|
            0 <= i < self.loans.len() ==> (#[trigger] self.loans[i]).loan_date.days
                < self.loans[i].return_deadline.days
    }

    /// The availability rule: a book is flagged as loaned exactly when it has
    /// one active loan, and has none otherwise.
    pub open spec fn consistent(self) -> bool {
        forall|i: int|
            0 <= i < self.books.len() ==> active_loans(
                self.loans,
                (#[trigger] self.books[i]).book_id,
            ) == if self.books[i].is_loaned {
                1nat
            } else {
                0nat
            }
    }

    /// The store with the availability flag of the book `id` set to `loaned`.
    pub open spec fn with_book_loaned(self, id: i32, loaned: bool) -> LibraryView {
        LibraryView {
            books: self.books.update(self.book_index(id), self.book(id).with_loaned(loaned)),
            ..self
        }
    }

    /// The store with the loan `id` closed.
    pub open spec fn with_loan_returned(self, id: Seq<char>) -> LibraryView {
        LibraryView {
            loans: self.loans.update(self.loan_index(id), self.loan(id).returned()),
            ..self
        }
    }

    /// The store with the user `id` marked as deleted.
    pub open spec fn with_user_deleted(self, id: Seq<char>) -> LibraryView {
        LibraryView {
            users: self.users.update(
                self.user_index(id),
                UserView { is_deleted: true, ..self.user(id) },
            ),
            ..self
        }
    }

    /// The row that a loan of `book_id` to `user_id` gets when it is made now.
    pub open spec fn fresh_loan(self, book_id: i32, user_id: Seq<char>) -> LoanView {
        LoanView {
            id: decimal(self.loans.len()),
            book_id,
            user_id,
            loan_date: self.today,
            return_deadline: self.today.deadline(),
            is_returned: false,
            created_at: self.now,
            updated_at: self.now,
        }
    }

    /// The row that `user` gets when it is created now.
    pub open spec fn fresh_user(self, user: NewUserView) -> UserView {
        UserView {
            id: decimal(self.users.len()),
            first_name: user.first_name,
            last_name: user.last_name,
            email: user.email,
            pass: user.pass,
            is_admin: user.is_admin,
            created_at: self.now,
            updated_at: self.now,
            is_deleted: false,
        }
    }

    /// The store after the call `query`, and the reply to it.
    ///
    /// Reads leave the store as it is; a read that locks its row answers as
    /// the plain read does. An update says how many rows it changed. A loan is refused unless its book and its user exist, a user
    /// unless the e-mail address is new. The store keeps rows by key and
    /// does not evaluate text patterns: it refuses `BooksLike`.
    pub open spec fn answer(self, query: QueryView) -> (LibraryView, ReplyView) {
        match query {
            QueryView::ListBooks { limit } => (
                self,
                ReplyView::Books(
                    if limit < self.books.len() {
                        self.books.take(limit as int)
                    } else {
                        self.books
                    },
                ),
            ),
            QueryView::BookById(id) | QueryView::LockBook(id) => (
                self,
                ReplyView::Books(
                    if self.has_book(id) {
                        seq![self.book(id)]
                    } else {
                        Seq::empty()
                    },
                ),
            ),
            QueryView::BooksLike { column, pattern } => (
                self,
                ReplyView::Failed(StoreFault::QueryBuilderError),
            ),
            QueryView::SetBookLoaned { book_id, loaned } => if self.has_book(book_id) {
                (self.with_book_loaned(book_id, loaned), ReplyView::Affected(1))
            } else {
                (self, ReplyView::Affected(0))
            },
            QueryView::ListLoans => (self, ReplyView::Loans(self.loans)),
            QueryView::LoanById(id) | QueryView::LockLoan(id) => (
                self,
                ReplyView::Loans(
                    if self.has_loan(id) {
                        seq![self.loan(id)]
                    } else {
                        Seq::empty()
                    },
                ),
            ),
            QueryView::LoansOfUser(id) => (self, ReplyView::Loans(loans_of_user(self.loans, id))),
            QueryView::MarkLoanReturned(id) => if self.has_loan(id) && self.loan(id).is_active() {
                (self.with_loan_returned(id), ReplyView::Affected(1))
            } else {
                (self, ReplyView::Affected(0))
            },
            QueryView::InsertLoan { book_id, user_id } => if self.has_book(book_id)
                && self.has_user(user_id) {
                let row = self.fresh_loan(book_id, user_id);
                (LibraryView { loans: self.loans.push(row), ..self }, ReplyView::Loans(seq![row]))
            } else {
                (self, ReplyView::Failed(StoreFault::DatabaseError))
            },
            QueryView::ListUsers => (self, ReplyView::Users(self.users)),
            QueryView::UserById(id) => (
                self,
                ReplyView::Users(
                    if self.has_user(id) {
                        seq![self.user(id)]
                    } else {
                        Seq::empty()
                    },
                ),
            ),
            QueryView::UserByEmail(email) => (
                self,
                ReplyView::Users(
                    if self.has_email(email) {
                        seq![self.user_by_email(email)]
                    } else {
                        Seq::empty()
                    },
                ),
            ),
            QueryView::MarkUserDeleted(id) => if self.has_user(id) {
                (self.with_user_deleted(id), ReplyView::Affected(1))
            } else {
                (self, ReplyView::Affected(0))
            },
            QueryView::InsertUser(user) => if self.has_email(user.email) {
                (self, ReplyView::Failed(StoreFault::DatabaseError))
            } else {
                let row = self.fresh_user(user);
                (LibraryView { users: self.users.push(row), ..self }, ReplyView::Users(seq![row]))
            },
            QueryView::Today => (self, ReplyView::Today(self.today)),
        }
    }

    /// The book in row `i` is the one that its id names.
    pub proof fn lemma_book_row(self, i: int)
        requires
            self.wf(),
            0 <= i < self.books.len(),
        ensures
            self.has_book(self.books[i].book_id),
            self.book_index(self.books[i].book_id) == i,
    {
    }

    /// The loan in row `i` is the one that its id names.
    pub proof fn lemma_loan_row(self, i: int)
        requires
            self.wf(),
            0 <= i < self.loans.len(),
        ensures
            self.has_loan(self.loans[i].id),
            self.loan_index(self.loans[i].id) == i,
    {
        lemma_decimal_injective(i as nat, self.loan_index(self.loans[i].id) as nat);
    }

    /// The user in row `i` is the one that its id names.
    pub proof fn lemma_user_row(self, i: int)
        requires
            self.wf(),
            0 <= i < self.users.len(),
        ensures
            self.has_user(self.users[i].id),
            self.user_index(self.users[i].id) == i,
    {
        lemma_decimal_injective(i as nat, self.user_index(self.users[i].id) as nat);
    }

    /// The user in row `i` is the one that its e-mail address names.
    pub proof fn lemma_email_row(self, i: int)
        requires
            self.wf(),
            0 <= i < self.users.len(),
        ensures
            self.has_email(self.users[i].email),
            self.email_index(self.users[i].email) == i,
    {
    }

    /// Every call leaves the store obeying its rules.
    pub proof fn lemma_answer_keeps_rules(self, query: QueryView)
        requires
            self.wf(),
        ensures
            self.answer(query).0.wf(),
    {
        let after = self.answer(query).0;
        match query {
            QueryView::SetBookLoaned { book_id, loaned } => {
                if self.has_book(book_id) {
                    assert forall|id: i32| holds_book(self.books, id) implies holds_book(
                        after.books,
                        id,
                    ) by {
                        let i = choose|i: int| 0 <= i < self.books.len() && self.books[i].book_id == id;
                        assert(after.books[i].book_id == id);
                    }
                }
            },
            QueryView::MarkUserDeleted(id) => {
                if self.has_user(id) {
                    assert forall|uid: Seq<char>| holds_user(self.users, uid) implies holds_user(
                        after.users,
                        uid,
                    ) by {
                        let i = choose|i: int| 0 <= i < self.users.len() && self.users[i].id == uid;
                        assert(after.users[i].id == uid);
                    }
                }
            },
            QueryView::InsertUser(user) => {
                if !self.has_email(user.email) {
                    assert forall|uid: Seq<char>| holds_user(self.users, uid) implies holds_user(
                        after.users,
                        uid,
                    ) by {
                        let i = choose|i: int| 0 <= i < self.users.len() && self.users[i].id == uid;
                        assert(after.users[i].id == uid);
                    }
                }
            },
            _ => {},
        }
    }
}

} // verus!
