//! What each task comes to on a store that answers as the model says,
//! stated without the steps in between, and the proofs that the steps come
//! to just that.

use crate::custom_errors::app_error::AppError;
use crate::tables::{loans_of_user, LibraryView};
use crate::models::authentication::auth::password_matches;
use crate::models::book::BookView;
use crate::models::loan::{status_on, LoanStatus, LoanView};
use crate::models::user::{NewUserView, UserView};
use crate::persistence::{QueryView, ReplyView};
use crate::text::trimmed;
use crate::validation::user_validation::{email_accepted, password_accepted};
use crate::workflow::{OutcomeView, TaskView, BOOK_LISTING_LIMIT};
use vstd::prelude::*;

verus! {

impl LibraryView {
    /// The books that a listing of the catalogue shows.
    pub open spec fn listed_books(self) -> Seq<BookView> {
        if BOOK_LISTING_LIMIT < self.books.len() {
            self.books.take(BOOK_LISTING_LIMIT as int)
        } else {
            self.books
        }
    }

    /// Looking a book up: the book, or `NotFound`.
    pub open spec fn get_book(self, id: i32) -> Result<BookView, AppError> {
        if self.has_book(id) {
            Ok(self.book(id))
        } else {
            Err(AppError::NotFound)
        }
    }

    /// Whether the book exists and is flagged as loaned.
    pub open spec fn is_loaned(self, id: i32) -> bool {
        self.has_book(id) && self.book(id).is_loaned
    }

    /// Flipping the availability flag of a book: the flag takes the other
    /// value; a book that does not exist is `NotFound`.
    pub open spec fn toggle(self, id: i32) -> (LibraryView, Result<bool, AppError>) {
        if self.has_book(id) {
            (self.with_book_loaned(id, !self.book(id).is_loaned), Ok(true))
        } else {
            (self, Err(AppError::NotFound))
        }
    }

    /// Looking a loan up: the loan if there is one.
    pub open spec fn get_loan(self, id: Seq<char>) -> Option<LoanView> {
        if self.has_loan(id) {
            Some(self.loan(id))
        } else {
            None
        }
    }

    /// Whether a loan is closed; a loan that does not exist is `NotFound`.
    pub open spec fn already_returned(self, id: Seq<char>) -> Result<bool, AppError> {
        if self.has_loan(id) {
            Ok(self.loan(id).is_returned)
        } else {
            Err(AppError::NotFound)
        }
    }

    /// Making a loan. Without the user or the book it is `NotFound`; of a
    /// book that is flagged as loaned, `BookLoanedError`; either way the
    /// store stays as it is. Otherwise the flag is set and the new row is
    /// added.
    pub open spec fn create_loan(self, book_id: i32, user_id: Seq<char>) -> (
        LibraryView,
        Result<LoanView, AppError>,
    ) {
        if !self.has_user(user_id) || !self.has_book(book_id) {
            (self, Err(AppError::NotFound))
        } else if self.book(book_id).is_loaned {
            (self, Err(AppError::BookLoanedError))
        } else {
            let row = self.fresh_loan(book_id, user_id);
            (
                LibraryView {
                    books: self.with_book_loaned(book_id, true).books,
                    loans: self.loans.push(row),
                    ..self
                },
                Ok(row),
            )
        }
    }

    /// Returning a loan. A loan that does not exist is `NotFound`, a closed
    /// one `LoanReturnedError`; either way the store stays as it is.
    /// Otherwise the loan is closed and the flag of its book is flipped.
    pub open spec fn return_loan(self, loan_id: Seq<char>) -> (LibraryView, Result<(), AppError>) {
        if !self.has_loan(loan_id) {
            (self, Err(AppError::NotFound))
        } else if self.loan(loan_id).is_returned {
            (self, Err(AppError::LoanReturnedError))
        } else {
            let book_id = self.loan(loan_id).book_id;
            (
                LibraryView {
                    books: self.with_book_loaned(book_id, !self.book(book_id).is_loaned).books,
                    loans: self.with_loan_returned(loan_id).loans,
                    ..self
                },
                Ok(()),
            )
        }
    }

    /// The status of a loan today. A loan that does not exist is `NotFound`;
    /// of a closed loan no status is given: `LoanReturnedError`.
    pub open spec fn check_status(self, loan_id: Seq<char>) -> Result<LoanStatus, AppError> {
        if !self.has_loan(loan_id) {
            Err(AppError::NotFound)
        } else if self.loan(loan_id).is_returned {
            Err(AppError::LoanReturnedError)
        } else {
            Ok(status_on(self.loan(loan_id).return_deadline, self.today))
        }
    }

    /// The loans of a user, in the order they were made; a user that does
    /// not exist is `NotFound`.
    pub open spec fn loans_for_user(self, user_id: Seq<char>) -> Result<Seq<LoanView>, AppError> {
        if self.has_user(user_id) {
            Ok(loans_of_user(self.loans, user_id))
        } else {
            Err(AppError::NotFound)
        }
    }

    /// Looking a user up: the user if there is one.
    pub open spec fn get_user(self, id: Seq<char>) -> Option<UserView> {
        if self.has_user(id) {
            Some(self.user(id))
        } else {
            None
        }
    }

    /// Deleting a user: the user is marked, and one row is reported; a user
    /// that does not exist is `NotFound`.
    pub open spec fn delete_user(self, id: Seq<char>) -> (LibraryView, Result<usize, AppError>) {
        if self.has_user(id) {
            (self.with_user_deleted(id), Ok(1usize))
        } else {
            (self, Err(AppError::NotFound))
        }
    }

    /// Creating a user: the new row is added, unless the e-mail address is
    /// taken, which is `UserCreationError`.
    pub open spec fn register(self, user: NewUserView) -> (LibraryView, Result<
        UserView,
        AppError,
    >) {
        if self.has_email(user.email) {
            (self, Err(AppError::UserCreationError))
        } else {
            let row = self.fresh_user(user);
            (LibraryView { users: self.users.push(row), ..self }, Ok(row))
        }
    }

    /// Signing in. Credentials that are malformed are `InvalidCredentials`;
    /// an address that no user has is `NotFound`; a password that does not
    /// match the hash of that user is `PasswordHashError`.
    pub open spec fn authenticate(self, email: Seq<char>, password: Seq<char>) -> Result<
        UserView,
        AppError,
    > {
        if !email_accepted(trimmed(email)) || !password_accepted(trimmed(password)) {
            Err(AppError::InvalidCredentials)
        } else if !self.has_email(email) {
            Err(AppError::NotFound)
        } else if !password_matches(password, self.user_by_email(email).pass) {
            Err(AppError::PasswordHashError)
        } else {
            Ok(self.user_by_email(email))
        }
    }

    /// The tasks that read one table and make one call.
    pub proof fn lemma_single_reads(self)
        requires
            self.wf(),
        ensures
            self.perform(TaskView::ListBooks) == (
                self,
                Ok::<OutcomeView, AppError>(OutcomeView::Books(self.listed_books())),
            ),
            self.perform(TaskView::ListLoans) == (
                self,
                Ok::<OutcomeView, AppError>(OutcomeView::Loans(self.loans)),
            ),
            self.perform(TaskView::ListUsers) == (
                self,
                Ok::<OutcomeView, AppError>(OutcomeView::Users(self.users)),
            ),
            forall|id: i32| #[trigger]
                self.perform(TaskView::GetBook(id)) == (
                    self,
                    match self.get_book(id) {
                        Ok(book) => Ok(OutcomeView::Book(book)),
                        Err(error) => Err(error),
                    },
                ),
            forall|id: i32| #[trigger]
                self.perform(TaskView::BookExists(id)) == (
                    self,
                    Ok::<OutcomeView, AppError>(OutcomeView::Flag(self.has_book(id))),
                ),
            forall|id: i32| #[trigger]
                self.perform(TaskView::IsBookLoaned(id)) == (
                    self,
                    Ok::<OutcomeView, AppError>(OutcomeView::Flag(self.is_loaned(id))),
                ),
            forall|id: Seq<char>| #[trigger]
                self.perform(TaskView::GetLoan(id)) == (
                    self,
                    Ok::<OutcomeView, AppError>(OutcomeView::MaybeLoan(self.get_loan(id))),
                ),
            forall|id: Seq<char>| #[trigger]
                self.perform(TaskView::AlreadyReturned(id)) == (
                    self,
                    match self.already_returned(id) {
                        Ok(closed) => Ok(OutcomeView::Flag(closed)),
                        Err(error) => Err(error),
                    },
                ),
            forall|id: Seq<char>| #[trigger]
                self.perform(TaskView::GetUser(id)) == (
                    self,
                    Ok::<OutcomeView, AppError>(OutcomeView::MaybeUser(self.get_user(id))),
                ),
            forall|id: Seq<char>| #[trigger]
                self.perform(TaskView::UserExists(id)) == (
                    self,
                    Ok::<OutcomeView, AppError>(OutcomeView::Flag(self.has_user(id))),
                ),
    {
        reveal_with_fuel(LibraryView::run, 2);
    }

    /// Setting the flag of a book moves no book and changes no id.
    pub proof fn lemma_flag_keeps_books(self, id: i32, loaned: bool)
        requires
            self.wf(),
            self.has_book(id),
        ensures
            self.with_book_loaned(id, loaned).wf(),
            forall|other: i32|
                self.with_book_loaned(id, loaned).has_book(other) == self.has_book(other),
            forall|other: i32|
                self.has_book(other) ==> self.with_book_loaned(id, loaned).book_index(other)
                    == self.book_index(other),
            self.with_book_loaned(id, loaned).book(id) == self.book(id).with_loaned(loaned),
    {
        let after = self.with_book_loaned(id, loaned);
        self.lemma_answer_keeps_rules(QueryView::SetBookLoaned { book_id: id, loaned });
        assert forall|other: i32| after.has_book(other) == self.has_book(other) by {
            if self.has_book(other) {
                let i = self.book_index(other);
                assert(after.books[i].book_id == other);
            }
        }
        assert forall|other: i32| self.has_book(other) implies after.book_index(other)
            == self.book_index(other) by {
            let i = self.book_index(other);
            after.lemma_book_row(i);
        }
    }

    /// Closing a loan moves no loan and changes no id.
    pub proof fn lemma_close_keeps_loans(self, id: Seq<char>)
        requires
            self.wf(),
            self.has_loan(id),
        ensures
            self.with_loan_returned(id).wf(),
            self.with_loan_returned(id).has_loan(id),
            self.with_loan_returned(id).loan(id) == self.loan(id).returned(),
            self.with_loan_returned(id).has_book(self.loan(id).book_id),
    {
        self.lemma_answer_keeps_rules(QueryView::MarkLoanReturned(id));
        self.with_loan_returned(id).lemma_loan_row(self.loan_index(id));
    }

    /// Flipping the flag of a book, step by step.
    pub proof fn lemma_toggle(self, id: i32)
        requires
            self.wf(),
        ensures
            self.perform(TaskView::ToggleLoanStatus(id)) == (
                self.toggle(id).0,
                match self.toggle(id).1 {
                    Ok(done) => Ok(OutcomeView::Flag(done)),
                    Err(error) => Err(error),
                },
            ),
    {
        reveal_with_fuel(LibraryView::run, 3);
    }

    /// The loans of a user, step by step.
    pub proof fn lemma_loans_for_user(self, user_id: Seq<char>)
        requires
            self.wf(),
        ensures
            self.perform(TaskView::LoansOfUser(user_id)) == (
                self,
                match self.loans_for_user(user_id) {
                    Ok(rows) => Ok(OutcomeView::Loans(rows)),
                    Err(error) => Err(error),
                },
            ),
    {
        reveal_with_fuel(LibraryView::run, 3);
    }

    /// Deleting a user, step by step.
    pub proof fn lemma_delete_user(self, id: Seq<char>)
        requires
            self.wf(),
        ensures
            self.perform(TaskView::DeleteUser(id)) == (
                self.delete_user(id).0,
                match self.delete_user(id).1 {
                    Ok(count) => Ok(OutcomeView::Count(count)),
                    Err(error) => Err(error),
                },
            ),
    {
        reveal_with_fuel(LibraryView::run, 2);
    }

    /// Creating a user, step by step.
    pub proof fn lemma_register(self, user: NewUserView)
        requires
            self.wf(),
        ensures
            self.perform(TaskView::RegisterUser(user)) == (
                self.register(user).0,
                match self.register(user).1 {
                    Ok(row) => Ok(OutcomeView::User(row)),
                    Err(error) => Err(error),
                },
            ),
    {
        reveal_with_fuel(LibraryView::run, 2);
    }

    /// Signing in, step by step.
    pub proof fn lemma_authenticate(self, email: Seq<char>, password: Seq<char>)
        requires
            self.wf(),
        ensures
            self.perform(TaskView::Authenticate { email, password }) == (
                self,
                match self.authenticate(email, password) {
                    Ok(row) => Ok(OutcomeView::User(row)),
                    Err(error) => Err(error),
                },
            ),
    {
        reveal_with_fuel(LibraryView::run, 2);
    }

    /// The status of a loan, step by step.
    pub proof fn lemma_check_status(self, loan_id: Seq<char>)
        requires
            self.wf(),
        ensures
            self.perform(TaskView::CheckStatus(loan_id)) == (
                self,
                match self.check_status(loan_id) {
                    Ok(status) => Ok(OutcomeView::Status(status)),
                    Err(error) => Err(error),
                },
            ),
    {
        reveal_with_fuel(LibraryView::run, 4);
    }

    /// Returning a loan, step by step.
    pub proof fn lemma_return_loan(self, loan_id: Seq<char>)
        requires
            self.wf(),
        ensures
            self.perform(TaskView::ReturnLoan(loan_id)) == (
                self.return_loan(loan_id).0,
                match self.return_loan(loan_id).1 {
                    Ok(_) => Ok(OutcomeView::Done),
                    Err(error) => Err(error),
                },
            ),
            self.return_loan(loan_id).0.wf(),
    {
        self.lemma_run_keeps_rules(TaskView::ReturnLoan(loan_id).begin());
        reveal_with_fuel(LibraryView::run, 6);
        if self.has_loan(loan_id) && !self.loan(loan_id).is_returned {
            self.lemma_close_keeps_loans(loan_id);
        }
    }

    /// Making a loan, step by step.
    pub proof fn lemma_create_loan(self, book_id: i32, user_id: Seq<char>)
        requires
            self.wf(),
        ensures
            self.perform(TaskView::CreateLoan { book_id, user_id }) == (
                self.create_loan(book_id, user_id).0,
                match self.create_loan(book_id, user_id).1 {
                    Ok(row) => Ok(OutcomeView::Loan(row)),
                    Err(error) => Err(error),
                },
            ),
            self.create_loan(book_id, user_id).0.wf(),
    {
        self.lemma_run_keeps_rules(TaskView::CreateLoan { book_id, user_id }.begin());
        reveal_with_fuel(LibraryView::run, 7);
        if self.has_user(user_id) && self.has_book(book_id) && !self.book(book_id).is_loaned {
            self.lemma_flag_keeps_books(book_id, true);
        }
    }
}

} // verus!
