//! Loans: one row per lending of a book to a user.

use crate::calendar::{Date, Timestamp, LOAN_PERIOD_DAYS};
use crate::custom_errors::app_error::AppError;
use crate::library::Library;
use crate::text::{join, decimal, decimal_string};
use crate::workflow::{seen, Outcome, Task};
use vstd::prelude::*;

verus! {

/// A loan, as the store holds it.
#[derive(Debug, PartialEq, Eq)]
pub struct Loan {
    pub id: String,
    pub book_id: i32,
    pub user_id: String,
    pub loan_date: Date,
    pub return_deadline: Date,
    /// Set once, when the book comes back; never cleared.
    pub is_returned: bool,
    pub created_at: Timestamp,
    pub updated_at: Timestamp,
}

/// What a `Loan` holds, as mathematical values.
pub struct LoanView {
    pub id: Seq<char>,
    pub book_id: i32,
    pub user_id: Seq<char>,
    pub loan_date: Date,
    pub return_deadline: Date,
    pub is_returned: bool,
    pub created_at: Timestamp,
    pub updated_at: Timestamp,
}

impl View for Loan {
    type V = LoanView;

    open spec fn view(&self) -> LoanView {
        LoanView {
            id: self.id@,
            book_id: self.book_id,
            user_id: self.user_id@,
            loan_date: self.loan_date,
            return_deadline: self.return_deadline,
            is_returned: self.is_returned,
            created_at: self.created_at,
            updated_at: self.updated_at,
        }
    }
}

impl DeepView for Loan {
    type V = LoanView;

    open spec fn deep_view(&self) -> LoanView {
        self@
    }
}

impl Clone for Loan {
    fn clone(&self) -> (copy: Loan)
        ensures
            copy == *self,
    {
        Loan {
            id: self.id.clone(),
            book_id: self.book_id,
            user_id: self.user_id.clone(),
            loan_date: self.loan_date,
            return_deadline: self.return_deadline,
            is_returned: self.is_returned,
            created_at: self.created_at,
            updated_at: self.updated_at,
        }
    }
}

impl LoanView {
    /// A loan is active until the book comes back.
    pub open spec fn is_active(self) -> bool {
        !self.is_returned
    }

    /// The same loan, closed.
    pub open spec fn returned(self) -> LoanView {
        LoanView { is_returned: true, ..self }
    }
}

/// Where an open loan stands with respect to its deadline.
///
/// The deadline day itself still counts as in time, with no day left.
#[derive(Clone, Copy, Debug, PartialEq, Eq, Structural)]
pub enum LoanStatus {
    /// The deadline has passed, `days` days ago.
    Overdue { days: u32 },
    /// The deadline is `days` days away.
    Due { days: u32 },
}

/// The status on the day `today` of an open loan that falls due on `deadline`.
pub open spec fn status_on(deadline: Date, today: Date) -> LoanStatus {
    if today.days > deadline.days {
        LoanStatus::Overdue { days: (today.days - deadline.days) as u32 }
    } else {
        LoanStatus::Due { days: (deadline.days - today.days) as u32 }
    }
}

impl LoanStatus {
    /// The sentence that tells the borrower this status.
    pub open spec fn text(self) -> Seq<char> {
        match self {
            LoanStatus::Overdue { days } => "You are late returning a book. Days overtime: "@
                + decimal(days as nat),
            LoanStatus::Due { days } => "Days until deadline: "@ + decimal(days as nat),
        }
    }

    /// Works out the status of an open loan from its deadline and today's date.
    pub fn on(deadline: Date, today: Date) -> (status: LoanStatus)
        ensures
            status == status_on(deadline, today),
    {
        if today.is_after(deadline) {
            LoanStatus::Overdue { days: today.days_since(deadline) as u32 }
        } else {
            LoanStatus::Due { days: deadline.days_since(today) as u32 }
        }
    }

    /// Writes the sentence that tells the borrower this status.
    pub fn message(&self) -> (sentence: String)
        ensures
            sentence@ == self.text(),
    {
        match self {
            LoanStatus::Overdue { days } => {
                let count = decimal_string(*days as u64);
                join("You are late returning a book. Days overtime: ", count.as_str())
            },
            LoanStatus::Due { days } => {
                let count = decimal_string(*days as u64);
                join("Days until deadline: ", count.as_str())
            },
        }
    }
}

/// What a caller supplies to have a loan made.
#[derive(Debug, PartialEq, Eq)]
pub struct NewLoan {
    pub book_id: i32,
    pub user_id: String,
}

impl Loan {
    /// Every loan, in the order they were made.
    pub fn get_all_loans(store: &mut Library) -> (loans: Result<Vec<Loan>, AppError>)
        ensures
            final(store)@ == old(store)@,
            loans is Ok,
            loans->Ok_0.deep_view() == old(store)@.loans,
    {
        let result = store.perform(Task::ListLoans);
        proof {
            old(store)@.lemma_single_reads();
        }
        match result {
            Ok(Outcome::Loans(loans)) => Ok(loans),
            Ok(_) => Err(AppError::InternalError),
            Err(error) => Err(error),
        }
    }

    /// The loan with the id `loan_id`, if there is one.
    pub fn get_loan_by_id(store: &mut Library, loan_id: &String) -> (loan: Result<
        Option<Loan>,
        AppError,
    >)
        ensures
            final(store)@ == old(store)@,
            loan is Ok,
            loan->Ok_0.deep_view() == old(store)@.get_loan(loan_id@),
    {
        let result = store.perform(Task::GetLoan(loan_id.clone()));
        proof {
            old(store)@.lemma_single_reads();
        }
        match result {
            Ok(Outcome::MaybeLoan(loan)) => Ok(loan),
            Ok(_) => Err(AppError::InternalError),
            Err(error) => Err(error),
        }
    }

    /// Takes a book back: closes the loan and flips the flag of its book.
    ///
    /// A loan that does not exist is `NotFound`. A loan that is closed
    /// already is `LoanReturnedError`, and nothing is flipped a second time.
    pub fn return_loan(store: &mut Library, id: String) -> (returned: Result<(), AppError>)
        ensures
            final(store)@ == old(store)@.return_loan(id@).0,
            returned == old(store)@.return_loan(id@).1,
            returned is Ok <==> old(store)@.has_loan(id@) && old(store)@.loan(id@).is_active(),
            returned is Err ==> final(store)@ == old(store)@,
            old(store)@.consistent() ==> final(store)@.consistent(),
    {
        let ghost loan_id = id@;
        let result = store.perform(Task::ReturnLoan(id));
        proof {
            old(store)@.lemma_return_loan(loan_id);
            if old(store)@.consistent() {
                old(store)@.lemma_return_keeps_availability(loan_id);
            }
        }
        match result {
            Ok(Outcome::Done) => Ok(()),
            Ok(_) => Err(AppError::InternalError),
            Err(error) => Err(error),
        }
    }

    /// Says where an open loan stands with respect to its deadline.
    ///
    /// A loan that does not exist is `NotFound`. Of a closed loan no status
    /// is given: `LoanReturnedError`.
    pub fn check_status(store: &mut Library, loan_id: String) -> (status: Result<String, AppError>)
        ensures
            final(store)@ == old(store)@,
            match old(store)@.check_status(loan_id@) {
                Ok(found) => status is Ok && status->Ok_0@ == found.text(),
                Err(error) => status == Err::<String, AppError>(error),
            },
    {
        let ghost id = loan_id@;
        let result = store.perform(Task::CheckStatus(loan_id));
        proof {
            old(store)@.lemma_check_status(id);
        }
        match result {
            Ok(Outcome::Status(found)) => Ok(found.message()),
            Ok(_) => Err(AppError::InternalError),
            Err(error) => Err(error),
        }
    }

    /// The loans of the user `user_id`, open or closed, in the order they
    /// were made; `NotFound` if there is no such user.
    pub fn get_loans_for_single_user(store: &mut Library, user_id: String) -> (loans: Result<
        Vec<Loan>,
        AppError,
    >)
        ensures
            final(store)@ == old(store)@,
            seen(loans) == old(store)@.loans_for_user(user_id@),
    {
        let ghost id = user_id@;
        let result = store.perform(Task::LoansOfUser(user_id));
        proof {
            old(store)@.lemma_loans_for_user(id);
        }
        match result {
            Ok(Outcome::Loans(loans)) => Ok(loans),
            Ok(_) => Err(AppError::InternalError),
            Err(error) => Err(error),
        }
    }
}

impl NewLoan {
    /// Lends the book `b_id` to the user `u_id`, from today for the loan period.
    ///
    /// Without the user or the book it is `NotFound`, and of a book that is
    /// out on loan `BookLoanedError`: no loan is made and no book touched.
    /// Otherwise the book is flagged and the loan comes back as the store
    /// holds it: open, and due a loan period after today.
    pub fn create_loan(store: &mut Library, b_id: i32, u_id: String) -> (made: Result<
        Loan,
        AppError,
    >)
        ensures
            final(store)@ == old(store)@.create_loan(b_id, u_id@).0,
            seen(made) == old(store)@.create_loan(b_id, u_id@).1,
            made is Ok <==> old(store)@.has_user(u_id@) && old(store)@.has_book(b_id)
                && !old(store)@.book(b_id).is_loaned,
            made is Err ==> final(store)@ == old(store)@,
            made is Ok ==> {
                &&& !made->Ok_0.is_returned
                &&& made->Ok_0.return_deadline.days == made->Ok_0.loan_date.days + LOAN_PERIOD_DAYS
                &&& final(store)@.get_loan(made->Ok_0.id@) == Some(made->Ok_0@)
            },
            old(store)@.consistent() ==> final(store)@.consistent(),
    {
        let ghost user_id = u_id@;
        let result = store.perform(Task::CreateLoan { book_id: b_id, user_id: u_id });
        proof {
            old(store)@.lemma_create_loan(b_id, user_id);
            if old(store)@.consistent() {
                old(store)@.lemma_create_keeps_availability(b_id, user_id);
            }
            if old(store)@.create_loan(b_id, user_id).1 is Ok {
                old(store)@.lemma_created_loan_is_found(b_id, user_id);
            }
        }
        match result {
            Ok(Outcome::Loan(loan)) => Ok(loan),
            Ok(_) => Err(AppError::InternalError),
            Err(error) => Err(error),
        }
    }
}

} // verus!
