//! What holds of the lending core as a whole: the availability rule and
//! what follows when operations are made one after the other.

use crate::calendar::{Date, LOAN_PERIOD_DAYS};
use crate::custom_errors::app_error::AppError;
use crate::tables::{active_loans, LibraryView};
use crate::models::loan::{status_on, LoanStatus, LoanView};
use crate::persistence::QueryView;
use vstd::prelude::*;

verus! {

/// A new row counts as one more active loan of its book if it is open, and
/// changes the count of no other book.
pub proof fn lemma_active_loans_push(loans: Seq<LoanView>, row: LoanView, book_id: i32)
    ensures
        active_loans(loans.push(row), book_id) == active_loans(loans, book_id) + if row.book_id
            == book_id && row.is_active() {
            1nat
        } else {
            0nat
        },
{
    assert(loans.push(row).drop_last() =~= loans);
}

/// Closing an open loan takes one from the count of its book, and changes
/// the count of no other book.
pub proof fn lemma_active_loans_close(loans: Seq<LoanView>, row: int, book_id: i32)
    requires
        0 <= row < loans.len(),
        loans[row].is_active(),
    ensures
        active_loans(loans, book_id) == active_loans(
            loans.update(row, loans[row].returned()),
            book_id,
        ) + if loans[row].book_id == book_id {
            1nat
        } else {
            0nat
        },
    decreases loans.len(),
{
    let closed = loans.update(row, loans[row].returned());
    if row == loans.len() - 1 {
        assert(closed.drop_last() =~= loans.drop_last());
    } else {
        lemma_active_loans_close(loans.drop_last(), row, book_id);
        assert(closed.drop_last() =~= loans.drop_last().update(
            row,
            loans.drop_last()[row].returned(),
        ));
    }
}

/// A book that no loan refers to has no active loan.
pub proof fn lemma_unlent_book_has_no_active_loan(loans: Seq<LoanView>, book_id: i32)
    requires
        forall|i: int| 0 <= i < loans.len() ==> (#[trigger] loans[i]).book_id != book_id,
    ensures
        active_loans(loans, book_id) == 0,
    decreases loans.len(),
{
    if loans.len() > 0 {
        lemma_unlent_book_has_no_active_loan(loans.drop_last(), book_id);
    }
}

/// One move in the life of a library: a book goes out, or a book comes back.
pub enum Move {
    /// The book `book_id` is to be lent to the user `user_id`.
    Lend { book_id: i32, user_id: Seq<char> },
    /// The loan `loan_id` is to be returned.
    Return { loan_id: Seq<char> },
}

impl LibraryView {
    /// No call on the store removes or rewrites a loan: every loan stays as
    /// it is, but that an open loan may be closed. A closed loan stays closed.
    pub proof fn lemma_loans_only_close(self, query: QueryView)
        requires
            self.wf(),
        ensures
            self.loans.len() <= self.answer(query).0.loans.len(),
            forall|i: int|
                0 <= i < self.loans.len() ==> {
                    let then = (#[trigger] self.loans[i]);
                    let now = self.answer(query).0.loans[i];
                    now == then || (then.is_active() && now == then.returned())
                },
    {
    }

    /// No call on the store adds, removes or renumbers a book: at most the
    /// availability flag of a book changes.
    pub proof fn lemma_books_only_change_flag(self, query: QueryView)
        requires
            self.wf(),
        ensures
            self.books.len() == self.answer(query).0.books.len(),
            forall|i: int|
                0 <= i < self.books.len() ==> {
                    let then = (#[trigger] self.books[i]);
                    let now = self.answer(query).0.books[i];
                    now == then.with_loaned(now.is_loaned)
                },
    {
    }

    /// The store after one move, whether the move was carried out or refused.
    pub open spec fn after_move(self, step: Move) -> LibraryView {
        match step {
            Move::Lend { book_id, user_id } => self.create_loan(book_id, user_id).0,
            Move::Return { loan_id } => self.return_loan(loan_id).0,
        }
    }

    /// The store after a run of moves, made one after the other.
    pub open spec fn after_moves(self, steps: Seq<Move>) -> LibraryView
        decreases steps.len(),
    {
        if steps.len() == 0 {
            self
        } else {
            self.after_moves(steps.drop_last()).after_move(steps.last())
        }
    }

    /// The availability rule holds after every run of loans and returns, in
    /// whatever order they are made and whichever of them are refused.
    pub proof fn lemma_availability_survives(self, steps: Seq<Move>)
        requires
            self.wf(),
            self.consistent(),
        ensures
            self.after_moves(steps).wf(),
            self.after_moves(steps).consistent(),
        decreases steps.len(),
    {
        if steps.len() > 0 {
            self.lemma_availability_survives(steps.drop_last());
            let before = self.after_moves(steps.drop_last());
            match steps.last() {
                Move::Lend { book_id, user_id } => {
                    before.lemma_create_loan(book_id, user_id);
                    before.lemma_create_keeps_availability(book_id, user_id);
                },
                Move::Return { loan_id } => {
                    before.lemma_return_loan(loan_id);
                    before.lemma_return_keeps_availability(loan_id);
                },
            }
        }
    }

    /// The availability rule, said of one book: it is flagged as loaned if
    /// and only if exactly one open loan refers to it.
    pub proof fn lemma_flag_tells_one_open_loan(self, id: i32)
        requires
            self.wf(),
            self.consistent(),
            self.has_book(id),
        ensures
            self.book(id).is_loaned <==> active_loans(self.loans, id) == 1,
    {
    }

    /// Making a loan keeps the availability rule, whether the loan is made
    /// or refused.
    pub proof fn lemma_create_keeps_availability(self, book_id: i32, user_id: Seq<char>)
        requires
            self.wf(),
            self.consistent(),
        ensures
            self.create_loan(book_id, user_id).0.consistent(),
    {
        let after = self.create_loan(book_id, user_id).0;
        if self.create_loan(book_id, user_id).1 is Ok {
            let row = self.fresh_loan(book_id, user_id);
            assert forall|i: int| 0 <= i < after.books.len() implies active_loans(
                after.loans,
                (#[trigger] after.books[i]).book_id,
            ) == if after.books[i].is_loaned {
                1nat
            } else {
                0nat
            } by {
                lemma_active_loans_push(self.loans, row, after.books[i].book_id);
            }
        }
    }

    /// Returning a loan keeps the availability rule, whether the loan is
    /// closed or the return refused.
    pub proof fn lemma_return_keeps_availability(self, loan_id: Seq<char>)
        requires
            self.wf(),
            self.consistent(),
        ensures
            self.return_loan(loan_id).0.consistent(),
    {
        let after = self.return_loan(loan_id).0;
        if self.return_loan(loan_id).1 is Ok {
            let row = self.loan_index(loan_id);
            lemma_active_loans_close(self.loans, row, self.loan(loan_id).book_id);
            assert forall|i: int| 0 <= i < after.books.len() implies active_loans(
                after.loans,
                (#[trigger] after.books[i]).book_id,
            ) == if after.books[i].is_loaned {
                1nat
            } else {
                0nat
            } by {
                lemma_active_loans_close(self.loans, row, after.books[i].book_id);
            }
        }
    }

    /// A loan that was made is found again under its id, just as it came
    /// back: open, and due a loan period after the day it was made.
    pub proof fn lemma_created_loan_is_found(self, book_id: i32, user_id: Seq<char>)
        requires
            self.wf(),
            self.create_loan(book_id, user_id).1 is Ok,
        ensures
            ({
                let (after, made) = self.create_loan(book_id, user_id);
                &&& after.wf()
                &&& after.get_loan(made->Ok_0.id) == Some(made->Ok_0)
                &&& !made->Ok_0.is_returned
                &&& made->Ok_0.return_deadline.days == made->Ok_0.loan_date.days
                    + LOAN_PERIOD_DAYS
            }),
    {
        self.lemma_create_loan(book_id, user_id);
        self.create_loan(book_id, user_id).0.lemma_loan_row(self.loans.len() as int);
    }

    /// A book that has just been lent cannot be lent again: the second loan
    /// is refused as `BookLoanedError`, to whichever user, and changes nothing.
    pub proof fn lemma_second_loan_is_refused(
        self,
        book_id: i32,
        user_id: Seq<char>,
        next_user_id: Seq<char>,
    )
        requires
            self.wf(),
            self.create_loan(book_id, user_id).1 is Ok,
            self.has_user(next_user_id),
        ensures
            ({
                let after = self.create_loan(book_id, user_id).0;
                after.create_loan(book_id, next_user_id) == (
                    after,
                    Err::<LoanView, AppError>(AppError::BookLoanedError),
                )
            }),
    {
        self.lemma_flag_keeps_books(book_id, true);
    }

    /// A loan cannot be returned twice: the second return is refused as
    /// `LoanReturnedError` and changes nothing, so that the flag of the book
    /// is not flipped a second time.
    pub proof fn lemma_second_return_is_refused(self, loan_id: Seq<char>)
        requires
            self.wf(),
            self.return_loan(loan_id).1 is Ok,
        ensures
            ({
                let after = self.return_loan(loan_id).0;
                after.return_loan(loan_id) == (
                    after,
                    Err::<(), AppError>(AppError::LoanReturnedError),
                )
            }),
    {
        self.lemma_close_keeps_loans(loan_id);
    }

    /// Once a loan has been returned its status is no longer given: the
    /// check is refused as `LoanReturnedError`.
    pub proof fn lemma_no_status_after_return(self, loan_id: Seq<char>)
        requires
            self.wf(),
            self.return_loan(loan_id).1 is Ok,
        ensures
            self.return_loan(loan_id).0.check_status(loan_id) == Err::<LoanStatus, AppError>(
                AppError::LoanReturnedError,
            ),
    {
        self.lemma_close_keeps_loans(loan_id);
    }
}

/// The status of a loan counts from its deadline: a loan made on `start` is
/// overdue from the day after the loan period, by as many days as have
/// passed since the deadline; up to and on the deadline it has as many days
/// left as separate today from the deadline, none on the deadline itself.
pub proof fn lemma_status_counts_from_deadline(start: Date, today: Date)
    requires
        start.can_start_loan(),
    ensures
        today.days - start.days > LOAN_PERIOD_DAYS ==> status_on(start.deadline(), today) == (
            LoanStatus::Overdue { days: (today.days - start.days - LOAN_PERIOD_DAYS) as u32 }
        ),
        today.days - start.days <= LOAN_PERIOD_DAYS ==> status_on(start.deadline(), today) == (
            LoanStatus::Due { days: (LOAN_PERIOD_DAYS - (today.days - start.days)) as u32 }
        ),
{
}

} // verus!
