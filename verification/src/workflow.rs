//! Every operation of the lending core as a sequence of calls on the store.
//!
//! An operation starts as a `Task`. `Task::begin` and `Stage::resume` decide,
//! from what the store answered so far, either the next call or the result.
//! They never touch a store: whoever holds one makes the call and hands the
//! reply back. All error kinds are assigned here.
//!
//! A task that writes to a row reads it first with a lock: a new loan and a
//! lone flip lock the book, a return locks the loan. Run inside one
//! transaction, two such tasks on the same row cannot overtake each other.

use crate::calendar::Date;
use crate::custom_errors::app_error::AppError;
use crate::models::authentication::auth::{password_matches, AuthUser};
use crate::models::book::{Book, BookView};
use crate::models::loan::{status_on, Loan, LoanStatus, LoanView};
use crate::models::user::{NewUser, NewUserView, User, UserView};
use crate::persistence::{BookColumn, Query, QueryView, Reply, ReplyView};
use crate::text::{join, trim, trimmed};
use crate::validation::user_validation::{
    email_accepted, password_accepted, validate_email, validate_password,
};
use vstd::prelude::*;

verus! {

/// How many books a listing of the catalogue shows.
pub const BOOK_LISTING_LIMIT: usize = 5;

/// An operation of the lending core, with its arguments.
#[derive(Debug, PartialEq, Eq)]
pub enum Task {
    /// The first books of the catalogue.
    ListBooks,
    /// The book with this id.
    GetBook(i32),
    /// Whether the book with this id exists.
    BookExists(i32),
    /// Whether the book with this id is out on loan.
    IsBookLoaned(i32),
    /// Flip the availability flag of the book with this id.
    ToggleLoanStatus(i32),
    /// The books whose `column` holds `text`.
    SearchBooks { column: BookColumn, text: String },
    /// Every loan.
    ListLoans,
    /// The loan with this id, if there is one.
    GetLoan(String),
    /// Whether the loan with this id is closed.
    AlreadyReturned(String),
    /// Close the loan with this id and free its book.
    ReturnLoan(String),
    /// Where the open loan with this id stands with respect to its deadline.
    CheckStatus(String),
    /// The loans of the user with this id.
    LoansOfUser(String),
    /// Lend the book to the user.
    CreateLoan { book_id: i32, user_id: String },
    /// Every user.
    ListUsers,
    /// The user with this id, if there is one.
    GetUser(String),
    /// Whether the user with this id exists.
    UserExists(String),
    /// Mark the user with this id as deleted.
    DeleteUser(String),
    /// Create this user.
    RegisterUser(NewUser),
    /// Find the user with this e-mail address and check the password.
    Authenticate { email: String, password: String },
}

/// What a `Task` holds, as mathematical values.
pub enum TaskView {
    ListBooks,
    GetBook(i32),
    BookExists(i32),
    IsBookLoaned(i32),
    ToggleLoanStatus(i32),
    SearchBooks { column: BookColumn, text: Seq<char> },
    ListLoans,
    GetLoan(Seq<char>),
    AlreadyReturned(Seq<char>),
    ReturnLoan(Seq<char>),
    CheckStatus(Seq<char>),
    LoansOfUser(Seq<char>),
    CreateLoan { book_id: i32, user_id: Seq<char> },
    ListUsers,
    GetUser(Seq<char>),
    UserExists(Seq<char>),
    DeleteUser(Seq<char>),
    RegisterUser(NewUserView),
    Authenticate { email: Seq<char>, password: Seq<char> },
}

impl View for Task {
    type V = TaskView;

    open spec fn view(&self) -> TaskView {
        match self {
            Task::ListBooks => TaskView::ListBooks,
            Task::GetBook(id) => TaskView::GetBook(*id),
            Task::BookExists(id) => TaskView::BookExists(*id),
            Task::IsBookLoaned(id) => TaskView::IsBookLoaned(*id),
            Task::ToggleLoanStatus(id) => TaskView::ToggleLoanStatus(*id),
            Task::SearchBooks { column, text } => TaskView::SearchBooks {
                column: *column,
                text: text@,
            },
            Task::ListLoans => TaskView::ListLoans,
            Task::GetLoan(id) => TaskView::GetLoan(id@),
            Task::AlreadyReturned(id) => TaskView::AlreadyReturned(id@),
            Task::ReturnLoan(id) => TaskView::ReturnLoan(id@),
            Task::CheckStatus(id) => TaskView::CheckStatus(id@),
            Task::LoansOfUser(id) => TaskView::LoansOfUser(id@),
            Task::CreateLoan { book_id, user_id } => TaskView::CreateLoan {
                book_id: *book_id,
                user_id: user_id@,
            },
            Task::ListUsers => TaskView::ListUsers,
            Task::GetUser(id) => TaskView::GetUser(id@),
            Task::UserExists(id) => TaskView::UserExists(id@),
            Task::DeleteUser(id) => TaskView::DeleteUser(id@),
            Task::RegisterUser(user) => TaskView::RegisterUser(user@),
            Task::Authenticate { email, password } => TaskView::Authenticate {
                email: email@,
                password: password@,
            },
        }
    }
}

/// What follows once the availability flag of a book has been flipped, or
/// could not be.
#[derive(Debug, PartialEq, Eq)]
pub enum Sequel {
    /// Nothing: the flip was the whole task.
    Report,
    /// Nothing: the flip ends the return of a loan.
    CloseReturn,
    /// The loan row is created.
    Insert { book_id: i32, user_id: String },
}

/// What a `Sequel` holds, as mathematical values.
pub enum SequelView {
    Report,
    CloseReturn,
    Insert { book_id: i32, user_id: Seq<char> },
}

impl View for Sequel {
    type V = SequelView;

    open spec fn view(&self) -> SequelView {
        match self {
            Sequel::Report => SequelView::Report,
            Sequel::CloseReturn => SequelView::CloseReturn,
            Sequel::Insert { book_id, user_id } => SequelView::Insert {
                book_id: *book_id,
                user_id: user_id@,
            },
        }
    }
}

/// Where a task stands while a call on the store is under way: which reply
/// it waits for, and what it has to remember.
#[derive(Debug, PartialEq, Eq)]
pub enum Stage {
    /// The listing of the catalogue.
    Books,
    /// The book that was asked for.
    Book,
    /// The book whose existence is in question.
    BookPresence,
    /// The book whose availability is in question.
    BookLoaned,
    /// The books that match a search.
    Search,
    /// The book whose flag is to be flipped, before the flip.
    ToggleRead { book_id: i32, then: Sequel },
    /// The number of rows that the flip changed.
    ToggleWrite { then: Sequel },
    /// The listing of the loans.
    Loans,
    /// The loan that was asked for.
    Loan,
    /// The loan whose state is in question.
    Returned,
    /// Return: the loan, to see whether it is open.
    ReturnCheck { loan_id: String },
    /// Return: the number of rows that closing the loan changed.
    ReturnMark { loan_id: String },
    /// Return: the loan once more, for its book.
    ReturnReread,
    /// Status: the loan, to see whether it is open.
    StatusCheck { loan_id: String },
    /// Status: the loan once more, for its deadline.
    StatusRead,
    /// Status: today's date.
    StatusClock { deadline: Date },
    /// Loans of a user: the user.
    LoansOwner { user_id: String },
    /// Loans of a user: the loans.
    LoansOwned,
    /// New loan: the user.
    CreateUser { book_id: i32, user_id: String },
    /// New loan: the book, to see whether it exists.
    CreateBook { book_id: i32, user_id: String, user_found: bool },
    /// New loan: the book once more, to see whether it is available.
    CreateLoaned { book_id: i32, user_id: String },
    /// New loan: the row that was created.
    CreateInsert,
    /// The listing of the users.
    Users,
    /// The user that was asked for.
    User,
    /// The user whose existence is in question.
    UserPresence,
    /// The number of rows that marking the user changed.
    Deletion,
    /// The user that was created.
    Registration,
    /// Sign-in: the user with the e-mail address.
    Credentials { password: String },
}

/// What a `Stage` holds, as mathematical values.
pub enum StageView {
    Books,
    Book,
    BookPresence,
    BookLoaned,
    Search,
    ToggleRead { book_id: i32, then: SequelView },
    ToggleWrite { then: SequelView },
    Loans,
    Loan,
    Returned,
    ReturnCheck { loan_id: Seq<char> },
    ReturnMark { loan_id: Seq<char> },
    ReturnReread,
    StatusCheck { loan_id: Seq<char> },
    StatusRead,
    StatusClock { deadline: Date },
    LoansOwner { user_id: Seq<char> },
    LoansOwned,
    CreateUser { book_id: i32, user_id: Seq<char> },
    CreateBook { book_id: i32, user_id: Seq<char>, user_found: bool },
    CreateLoaned { book_id: i32, user_id: Seq<char> },
    CreateInsert,
    Users,
    User,
    UserPresence,
    Deletion,
    Registration,
    Credentials { password: Seq<char> },
}

impl View for Stage {
    type V = StageView;

    open spec fn view(&self) -> StageView {
        match self {
            Stage::Books => StageView::Books,
            Stage::Book => StageView::Book,
            Stage::BookPresence => StageView::BookPresence,
            Stage::BookLoaned => StageView::BookLoaned,
            Stage::Search => StageView::Search,
            Stage::ToggleRead { book_id, then } => StageView::ToggleRead {
                book_id: *book_id,
                then: then@,
            },
            Stage::ToggleWrite { then } => StageView::ToggleWrite { then: then@ },
            Stage::Loans => StageView::Loans,
            Stage::Loan => StageView::Loan,
            Stage::Returned => StageView::Returned,
            Stage::ReturnCheck { loan_id } => StageView::ReturnCheck { loan_id: loan_id@ },
            Stage::ReturnMark { loan_id } => StageView::ReturnMark { loan_id: loan_id@ },
            Stage::ReturnReread => StageView::ReturnReread,
            Stage::StatusCheck { loan_id } => StageView::StatusCheck { loan_id: loan_id@ },
            Stage::StatusRead => StageView::StatusRead,
            Stage::StatusClock { deadline } => StageView::StatusClock { deadline: *deadline },
            Stage::LoansOwner { user_id } => StageView::LoansOwner { user_id: user_id@ },
            Stage::LoansOwned => StageView::LoansOwned,
            Stage::CreateUser { book_id, user_id } => StageView::CreateUser {
                book_id: *book_id,
                user_id: user_id@,
            },
            Stage::CreateBook { book_id, user_id, user_found } => StageView::CreateBook {
                book_id: *book_id,
                user_id: user_id@,
                user_found: *user_found,
            },
            Stage::CreateLoaned { book_id, user_id } => StageView::CreateLoaned {
                book_id: *book_id,
                user_id: user_id@,
            },
            Stage::CreateInsert => StageView::CreateInsert,
            Stage::Users => StageView::Users,
            Stage::User => StageView::User,
            Stage::UserPresence => StageView::UserPresence,
            Stage::Deletion => StageView::Deletion,
            Stage::Registration => StageView::Registration,
            Stage::Credentials { password } => StageView::Credentials { password: password@ },
        }
    }
}

/// What a task that succeeded hands back.
#[derive(Debug, PartialEq, Eq)]
pub enum Outcome {
    /// The books that were listed or found.
    Books(Vec<Book>),
    /// The book that was asked for.
    Book(Book),
    /// The loans that were listed.
    Loans(Vec<Loan>),
    /// The loan that was made.
    Loan(Loan),
    /// The loan that was asked for, if there is one.
    MaybeLoan(Option<Loan>),
    /// The users that were listed.
    Users(Vec<User>),
    /// The user that was created or signed in.
    User(User),
    /// The user that was asked for, if there is one.
    MaybeUser(Option<User>),
    /// The answer to a yes-or-no question, or whether a flip took place.
    Flag(bool),
    /// How many rows were changed.
    Count(usize),
    /// Where an open loan stands with respect to its deadline.
    Status(LoanStatus),
    /// Nothing to hand back: the task is done.
    Done,
}

/// What an `Outcome` holds, as mathematical values.
pub enum OutcomeView {
    Books(Seq<BookView>),
    Book(BookView),
    Loans(Seq<LoanView>),
    Loan(LoanView),
    MaybeLoan(Option<LoanView>),
    Users(Seq<UserView>),
    User(UserView),
    MaybeUser(Option<UserView>),
    Flag(bool),
    Count(usize),
    Status(LoanStatus),
    Done,
}

impl View for Outcome {
    type V = OutcomeView;

    open spec fn view(&self) -> OutcomeView {
        match self {
            Outcome::Books(rows) => OutcomeView::Books(rows.deep_view()),
            Outcome::Book(row) => OutcomeView::Book(row@),
            Outcome::Loans(rows) => OutcomeView::Loans(rows.deep_view()),
            Outcome::Loan(row) => OutcomeView::Loan(row@),
            Outcome::MaybeLoan(row) => OutcomeView::MaybeLoan(row.deep_view()),
            Outcome::Users(rows) => OutcomeView::Users(rows.deep_view()),
            Outcome::User(row) => OutcomeView::User(row@),
            Outcome::MaybeUser(row) => OutcomeView::MaybeUser(row.deep_view()),
            Outcome::Flag(flag) => OutcomeView::Flag(*flag),
            Outcome::Count(count) => OutcomeView::Count(*count),
            Outcome::Status(status) => OutcomeView::Status(*status),
            Outcome::Done => OutcomeView::Done,
        }
    }
}

impl DeepView for Outcome {
    type V = OutcomeView;

    open spec fn deep_view(&self) -> OutcomeView {
        self@
    }
}

/// A result, with what it holds on success taken as mathematical values.
pub open spec fn seen<T: DeepView>(result: Result<T, AppError>) -> Result<T::V, AppError> {
    match result {
        Ok(value) => Ok(value.deep_view()),
        Err(error) => Err(error),
    }
}

/// Either the next call on the store, or the end of the task.
#[derive(Debug, PartialEq, Eq)]
pub enum Progress {
    /// Make this call, and resume the stage with the reply.
    Ask(Stage, Query),
    /// The task is over, with this result.
    Done(Result<Outcome, AppError>),
}

/// What a `Progress` holds, as mathematical values.
pub enum ProgressView {
    Ask(StageView, QueryView),
    Done(Result<OutcomeView, AppError>),
}

impl View for Progress {
    type V = ProgressView;

    open spec fn view(&self) -> ProgressView {
        match self {
            Progress::Ask(stage, query) => ProgressView::Ask(stage@, query@),
            Progress::Done(result) => ProgressView::Done(seen(*result)),
        }
    }
}

impl ReplyView {
    /// The book that a reply to `BookById` stands for: the last row; none is
    /// `NotFound`, and any other reply a failure of the store.
    pub open spec fn book(self) -> Result<BookView, AppError> {
        match self {
            ReplyView::Books(rows) => if rows.len() > 0 {
                Ok(rows.last())
            } else {
                Err(AppError::NotFound)
            },
            _ => Err(AppError::InternalError),
        }
    }

    /// The loan that a reply to `LoanById` stands for, if any: the last row;
    /// any other reply is a failure of the store.
    pub open spec fn loan(self) -> Result<Option<LoanView>, AppError> {
        match self {
            ReplyView::Loans(rows) => if rows.len() > 0 {
                Ok(Some(rows.last()))
            } else {
                Ok(None)
            },
            _ => Err(AppError::InternalError),
        }
    }

    /// The user that a reply to `UserById` stands for, if any: the last row;
    /// any other reply counts as `NotFound`.
    pub open spec fn user(self) -> Result<Option<UserView>, AppError> {
        match self {
            ReplyView::Users(rows) => if rows.len() > 0 {
                Ok(Some(rows.last()))
            } else {
                Ok(None)
            },
            _ => Err(AppError::NotFound),
        }
    }

    /// Whether the reply shows a user: a failed lookup shows none.
    pub open spec fn shows_user(self) -> bool {
        self matches ReplyView::Users(rows) && rows.len() > 0
    }

    /// Whether the loan of the reply is closed; no loan and a failed lookup
    /// are both `NotFound`.
    pub open spec fn returned(self) -> Result<bool, AppError> {
        match self.loan() {
            Ok(Some(loan)) => Ok(loan.is_returned),
            _ => Err(AppError::NotFound),
        }
    }

    /// What a reply to `SetBookLoaned` says of the flip: it took place if a
    /// row changed; no row changed and a failed write are both failures of
    /// the store.
    pub open spec fn flipped(self) -> Result<bool, AppError> {
        match self {
            ReplyView::Affected(count) => if count == 0 {
                Err(AppError::InternalError)
            } else {
                Ok(true)
            },
            _ => Err(AppError::InternalError),
        }
    }
}

impl SequelView {
    /// How many calls on the store may still follow.
    pub open spec fn rank(self) -> nat {
        match self {
            SequelView::Insert { .. } => 1,
            _ => 0,
        }
    }

    /// What follows a flip that came out as `flip`.
    pub open spec fn after(self, flip: Result<bool, AppError>) -> ProgressView {
        match self {
            SequelView::Report => ProgressView::Done(
                match flip {
                    Ok(done) => Ok(OutcomeView::Flag(done)),
                    Err(error) => Err(error),
                },
            ),
            SequelView::CloseReturn => ProgressView::Done(
                match flip {
                    Ok(done) => if done {
                        Ok(OutcomeView::Done)
                    } else {
                        Err(AppError::BookLoanStatusError)
                    },
                    Err(_) => Err(AppError::BadRequest),
                },
            ),
            SequelView::Insert { book_id, user_id } => match flip {
                Ok(done) => if done {
                    ProgressView::Ask(
                        StageView::CreateInsert,
                        QueryView::InsertLoan { book_id, user_id },
                    )
                } else {
                    ProgressView::Done(Err(AppError::BookLoanStatusError))
                },
                Err(_) => ProgressView::Done(Err(AppError::BadRequest)),
            },
        }
    }
}

impl StageView {
    /// How many calls on the store the task may still make, this one included.
    pub open spec fn rank(self) -> nat {
        match self {
            StageView::ToggleRead { then, .. } => 2 + then.rank(),
            StageView::ToggleWrite { then } => 1 + then.rank(),
            StageView::ReturnCheck { .. } => 5,
            StageView::ReturnMark { .. } => 4,
            StageView::ReturnReread => 3,
            StageView::StatusCheck { .. } => 3,
            StageView::StatusRead => 2,
            StageView::LoansOwner { .. } => 2,
            StageView::CreateUser { .. } => 6,
            StageView::CreateBook { .. } => 5,
            StageView::CreateLoaned { .. } => 4,
            _ => 1,
        }
    }

    /// What the task does once the store has answered `reply`.
    pub open spec fn resume(self, reply: ReplyView) -> ProgressView {
        match self {
            StageView::Books | StageView::Search => ProgressView::Done(
                match reply {
                    ReplyView::Books(rows) => Ok(OutcomeView::Books(rows)),
                    _ => Err(AppError::InternalError),
                },
            ),
            StageView::Book => ProgressView::Done(
                match reply.book() {
                    Ok(book) => Ok(OutcomeView::Book(book)),
                    Err(error) => Err(error),
                },
            ),
            StageView::BookPresence => ProgressView::Done(
                Ok(OutcomeView::Flag(reply.book() is Ok)),
            ),
            StageView::BookLoaned => ProgressView::Done(
                Ok(
                    OutcomeView::Flag(
                        match reply.book() {
                            Ok(book) => book.is_loaned,
                            Err(_) => false,
                        },
                    ),
                ),
            ),
            StageView::ToggleRead { book_id, then } => match reply.book() {
                Ok(book) => ProgressView::Ask(
                    StageView::ToggleWrite { then },
                    QueryView::SetBookLoaned { book_id, loaned: !book.is_loaned },
                ),
                Err(_) => then.after(Err(AppError::NotFound)),
            },
            StageView::ToggleWrite { then } => then.after(reply.flipped()),
            StageView::Loans => ProgressView::Done(
                match reply {
                    ReplyView::Loans(rows) => Ok(OutcomeView::Loans(rows)),
                    _ => Err(AppError::InternalError),
                },
            ),
            StageView::Loan => ProgressView::Done(
                match reply.loan() {
                    Ok(loan) => Ok(OutcomeView::MaybeLoan(loan)),
                    Err(error) => Err(error),
                },
            ),
            StageView::Returned => ProgressView::Done(
                match reply.returned() {
                    Ok(closed) => Ok(OutcomeView::Flag(closed)),
                    Err(error) => Err(error),
                },
            ),
            StageView::ReturnCheck { loan_id } => match reply.returned() {
                Ok(closed) => if closed {
                    ProgressView::Done(Err(AppError::LoanReturnedError))
                } else {
                    ProgressView::Ask(
                        StageView::ReturnMark { loan_id },
                        QueryView::MarkLoanReturned(loan_id),
                    )
                },
                Err(_) => ProgressView::Done(Err(AppError::NotFound)),
            },
            StageView::ReturnMark { loan_id } => match reply {
                ReplyView::Affected(count) => if count == 0 {
                    ProgressView::Done(Err(AppError::NotFound))
                } else {
                    ProgressView::Ask(StageView::ReturnReread, QueryView::LoanById(loan_id))
                },
                _ => ProgressView::Done(Err(AppError::InternalError)),
            },
            StageView::ReturnReread => match reply.loan() {
                Ok(Some(loan)) => ProgressView::Ask(
                    StageView::ToggleRead { book_id: loan.book_id, then: SequelView::CloseReturn },
                    QueryView::BookById(loan.book_id),
                ),
                _ => ProgressView::Done(Err(AppError::NotFound)),
            },
            StageView::StatusCheck { loan_id } => match reply.returned() {
                Ok(closed) => if closed {
                    ProgressView::Done(Err(AppError::LoanReturnedError))
                } else {
                    ProgressView::Ask(StageView::StatusRead, QueryView::LoanById(loan_id))
                },
                Err(_) => ProgressView::Done(Err(AppError::NotFound)),
            },
            StageView::StatusRead => match reply.loan() {
                Ok(Some(loan)) => ProgressView::Ask(
                    StageView::StatusClock { deadline: loan.return_deadline },
                    QueryView::Today,
                ),
                _ => ProgressView::Done(Err(AppError::NotFound)),
            },
            StageView::StatusClock { deadline } => ProgressView::Done(
                match reply {
                    ReplyView::Today(today) => Ok(OutcomeView::Status(status_on(deadline, today))),
                    _ => Err(AppError::InternalError),
                },
            ),
            StageView::LoansOwner { user_id } => if reply.shows_user() {
                ProgressView::Ask(StageView::LoansOwned, QueryView::LoansOfUser(user_id))
            } else {
                ProgressView::Done(Err(AppError::NotFound))
            },
            StageView::LoansOwned => ProgressView::Done(
                match reply {
                    ReplyView::Loans(rows) => Ok(OutcomeView::Loans(rows)),
                    _ => Err(AppError::NotFound),
                },
            ),
            StageView::CreateUser { book_id, user_id } => ProgressView::Ask(
                StageView::CreateBook { book_id, user_id, user_found: reply.shows_user() },
                QueryView::LockBook(book_id),
            ),
            StageView::CreateBook { book_id, user_id, user_found } => if !user_found
                || reply.book() is Err {
                ProgressView::Done(Err(AppError::NotFound))
            } else {
                ProgressView::Ask(
                    StageView::CreateLoaned { book_id, user_id },
                    QueryView::BookById(book_id),
                )
            },
            StageView::CreateLoaned { book_id, user_id } => if reply.book() matches Ok(book)
                && book.is_loaned {
                ProgressView::Done(Err(AppError::BookLoanedError))
            } else {
                ProgressView::Ask(
                    StageView::ToggleRead {
                        book_id,
                        then: SequelView::Insert { book_id, user_id },
                    },
                    QueryView::BookById(book_id),
                )
            },
            StageView::CreateInsert => ProgressView::Done(
                match reply {
                    ReplyView::Loans(rows) => if rows.len() > 0 {
                        Ok(OutcomeView::Loan(rows.last()))
                    } else {
                        Err(AppError::InternalError)
                    },
                    _ => Err(AppError::InternalError),
                },
            ),
            StageView::Users => ProgressView::Done(
                match reply {
                    ReplyView::Users(rows) => Ok(OutcomeView::Users(rows)),
                    _ => Err(AppError::InternalError),
                },
            ),
            StageView::User => ProgressView::Done(
                match reply.user() {
                    Ok(user) => Ok(OutcomeView::MaybeUser(user)),
                    Err(error) => Err(error),
                },
            ),
            StageView::UserPresence => ProgressView::Done(
                Ok(OutcomeView::Flag(reply.shows_user())),
            ),
            StageView::Deletion => ProgressView::Done(
                match reply {
                    ReplyView::Affected(count) => if count == 0 {
                        Err(AppError::NotFound)
                    } else {
                        Ok(OutcomeView::Count(count))
                    },
                    _ => Err(AppError::InternalError),
                },
            ),
            StageView::Registration => ProgressView::Done(
                match reply {
                    ReplyView::Users(rows) => if rows.len() > 0 {
                        Ok(OutcomeView::User(rows.last()))
                    } else {
                        Err(AppError::UserCreationError)
                    },
                    _ => Err(AppError::UserCreationError),
                },
            ),
            StageView::Credentials { password } => ProgressView::Done(
                match reply {
                    ReplyView::Users(rows) => if rows.len() == 0 {
                        Err(AppError::NotFound)
                    } else if password_matches(password, rows.last().pass) {
                        Ok(OutcomeView::User(rows.last()))
                    } else {
                        Err(AppError::PasswordHashError)
                    },
                    _ => Err(AppError::InternalError),
                },
            ),
        }
    }
}

/// Every step brings a task nearer to its end.
pub proof fn lemma_resume_descends(stage: StageView, reply: ReplyView)
    ensures
        stage.resume(reply).rank() < stage.rank(),
{
}

impl ProgressView {
    /// How many calls on the store the task may still make.
    pub open spec fn rank(self) -> nat {
        match self {
            ProgressView::Ask(stage, _) => stage.rank(),
            ProgressView::Done(_) => 0,
        }
    }
}

impl TaskView {
    /// The pattern that finds `text` anywhere in a column.
    pub open spec fn pattern(text: Seq<char>) -> Seq<char> {
        trimmed(seq!['%'] + text + seq!['%'])
    }

    /// The first step of the task.
    pub open spec fn begin(self) -> ProgressView {
        match self {
            TaskView::ListBooks => ProgressView::Ask(
                StageView::Books,
                QueryView::ListBooks { limit: BOOK_LISTING_LIMIT },
            ),
            TaskView::GetBook(id) => ProgressView::Ask(StageView::Book, QueryView::BookById(id)),
            TaskView::BookExists(id) => ProgressView::Ask(
                StageView::BookPresence,
                QueryView::BookById(id),
            ),
            TaskView::IsBookLoaned(id) => ProgressView::Ask(
                StageView::BookLoaned,
                QueryView::BookById(id),
            ),
            TaskView::ToggleLoanStatus(id) => ProgressView::Ask(
                StageView::ToggleRead { book_id: id, then: SequelView::Report },
                QueryView::LockBook(id),
            ),
            TaskView::SearchBooks { column, text } => if text.len() == 0 {
                ProgressView::Done(Err(AppError::BadRequest))
            } else {
                ProgressView::Ask(
                    StageView::Search,
                    QueryView::BooksLike { column, pattern: TaskView::pattern(text) },
                )
            },
            TaskView::ListLoans => ProgressView::Ask(StageView::Loans, QueryView::ListLoans),
            TaskView::GetLoan(id) => ProgressView::Ask(StageView::Loan, QueryView::LoanById(id)),
            TaskView::AlreadyReturned(id) => ProgressView::Ask(
                StageView::Returned,
                QueryView::LoanById(id),
            ),
            TaskView::ReturnLoan(id) => ProgressView::Ask(
                StageView::ReturnCheck { loan_id: id },
                QueryView::LockLoan(id),
            ),
            TaskView::CheckStatus(id) => ProgressView::Ask(
                StageView::StatusCheck { loan_id: id },
                QueryView::LoanById(id),
            ),
            TaskView::LoansOfUser(id) => ProgressView::Ask(
                StageView::LoansOwner { user_id: id },
                QueryView::UserById(id),
            ),
            TaskView::CreateLoan { book_id, user_id } => ProgressView::Ask(
                StageView::CreateUser { book_id, user_id },
                QueryView::UserById(user_id),
            ),
            TaskView::ListUsers => ProgressView::Ask(StageView::Users, QueryView::ListUsers),
            TaskView::GetUser(id) => ProgressView::Ask(StageView::User, QueryView::UserById(id)),
            TaskView::UserExists(id) => ProgressView::Ask(
                StageView::UserPresence,
                QueryView::UserById(id),
            ),
            TaskView::DeleteUser(id) => ProgressView::Ask(
                StageView::Deletion,
                QueryView::MarkUserDeleted(id),
            ),
            TaskView::RegisterUser(user) => ProgressView::Ask(
                StageView::Registration,
                QueryView::InsertUser(user),
            ),
            TaskView::Authenticate { email, password } => if !email_accepted(trimmed(email))
                || !password_accepted(trimmed(password)) {
                ProgressView::Done(Err(AppError::InvalidCredentials))
            } else {
                ProgressView::Ask(
                    StageView::Credentials { password },
                    QueryView::UserByEmail(email),
                )
            },
        }
    }
}

/// The book of a reply to `BookById`.
fn book_of(reply: Reply) -> (book: Result<Book, AppError>)
    ensures
        seen(book) == reply@.book(),
{
    match reply {
        Reply::Books(mut rows) => match rows.pop() {
            Some(book) => Ok(book),
            None => Err(AppError::NotFound),
        },
        _ => Err(AppError::InternalError),
    }
}

/// The loan of a reply to `LoanById`, if any.
fn loan_of(reply: Reply) -> (loan: Result<Option<Loan>, AppError>)
    ensures
        seen(loan) == reply@.loan(),
{
    match reply {
        Reply::Loans(mut rows) => Ok(rows.pop()),
        _ => Err(AppError::InternalError),
    }
}

/// The user of a reply to `UserById`, if any.
fn user_of(reply: Reply) -> (user: Result<Option<User>, AppError>)
    ensures
        seen(user) == reply@.user(),
{
    match reply {
        Reply::Users(mut rows) => Ok(rows.pop()),
        _ => Err(AppError::NotFound),
    }
}

/// Whether the reply shows a user.
fn shows_user(reply: Reply) -> (found: bool)
    ensures
        found == reply@.shows_user(),
{
    match reply {
        Reply::Users(rows) => rows.len() > 0,
        _ => false,
    }
}

/// Whether the loan of the reply is closed.
fn returned_of(reply: Reply) -> (closed: Result<bool, AppError>)
    ensures
        closed == reply@.returned(),
{
    match loan_of(reply) {
        Ok(Some(loan)) => Ok(loan.is_returned),
        _ => Err(AppError::NotFound),
    }
}

/// What a reply to `SetBookLoaned` says of the flip.
fn flipped_of(reply: Reply) -> (flip: Result<bool, AppError>)
    ensures
        flip == reply@.flipped(),
{
    match reply {
        Reply::Affected(count) => {
            if count == 0 {
                Err(AppError::InternalError)
            } else {
                Ok(true)
            }
        },
        _ => Err(AppError::InternalError),
    }
}

impl Sequel {
    /// Decides what follows a flip that came out as `flip`: after a lone
    /// flip its result is handed on as it is; a return or a new loan goes on
    /// only after a flip that took place, ends with `BookLoanStatusError`
    /// after one that did not, and with `BadRequest` after one that failed.
    pub fn after(self, flip: Result<bool, AppError>) -> (progress: Progress)
        ensures
            progress@ == self@.after(flip),
    {
        match self {
            Sequel::Report => match flip {
                Ok(done) => Progress::Done(Ok(Outcome::Flag(done))),
                Err(error) => Progress::Done(Err(error)),
            },
            Sequel::CloseReturn => match flip {
                Ok(done) => {
                    if done {
                        Progress::Done(Ok(Outcome::Done))
                    } else {
                        Progress::Done(Err(AppError::BookLoanStatusError))
                    }
                },
                Err(_) => Progress::Done(Err(AppError::BadRequest)),
            },
            Sequel::Insert { book_id, user_id } => match flip {
                Ok(done) => {
                    if done {
                        Progress::Ask(Stage::CreateInsert, Query::InsertLoan { book_id, user_id })
                    } else {
                        Progress::Done(Err(AppError::BookLoanStatusError))
                    }
                },
                Err(_) => Progress::Done(Err(AppError::BadRequest)),
            },
        }
    }
}

impl Stage {
    /// The steps that flip the availability flag of a book.
    fn resume_toggle(self, reply: Reply) -> (progress: Progress)
        requires
            self is ToggleRead || self is ToggleWrite,
        ensures
            progress@ == self@.resume(reply@),
    {
        match self {
            Stage::ToggleRead { book_id, then } => match book_of(reply) {
                Ok(book) => Progress::Ask(
                    Stage::ToggleWrite { then },
                    Query::SetBookLoaned { book_id, loaned: !book.is_loaned },
                ),
                Err(_) => then.after(Err(AppError::NotFound)),
            },
            Stage::ToggleWrite { then } => then.after(flipped_of(reply)),
            _ => Progress::Done(Err(AppError::InternalError)),
        }
    }

    /// The steps of a return.
    fn resume_return(self, reply: Reply) -> (progress: Progress)
        requires
            self is ReturnCheck || self is ReturnMark || self is ReturnReread,
        ensures
            progress@ == self@.resume(reply@),
    {
        match self {
            Stage::ReturnCheck { loan_id } => match returned_of(reply) {
                Ok(closed) => {
                    if closed {
                        Progress::Done(Err(AppError::LoanReturnedError))
                    } else {
                        let again = loan_id.clone();
                        Progress::Ask(
                            Stage::ReturnMark { loan_id },
                            Query::MarkLoanReturned(again),
                        )
                    }
                },
                Err(_) => Progress::Done(Err(AppError::NotFound)),
            },
            Stage::ReturnMark { loan_id } => match reply {
                Reply::Affected(count) => {
                    if count == 0 {
                        Progress::Done(Err(AppError::NotFound))
                    } else {
                        Progress::Ask(Stage::ReturnReread, Query::LoanById(loan_id))
                    }
                },
                _ => Progress::Done(Err(AppError::InternalError)),
            },
            Stage::ReturnReread => match loan_of(reply) {
                Ok(Some(loan)) => Progress::Ask(
                    Stage::ToggleRead { book_id: loan.book_id, then: Sequel::CloseReturn },
                    Query::BookById(loan.book_id),
                ),
                _ => Progress::Done(Err(AppError::NotFound)),
            },
            _ => Progress::Done(Err(AppError::InternalError)),
        }
    }

    /// The steps of a status check.
    fn resume_status(self, reply: Reply) -> (progress: Progress)
        requires
            self is StatusCheck || self is StatusRead || self is StatusClock,
        ensures
            progress@ == self@.resume(reply@),
    {
        match self {
            Stage::StatusCheck { loan_id } => match returned_of(reply) {
                Ok(closed) => {
                    if closed {
                        Progress::Done(Err(AppError::LoanReturnedError))
                    } else {
                        Progress::Ask(Stage::StatusRead, Query::LoanById(loan_id))
                    }
                },
                Err(_) => Progress::Done(Err(AppError::NotFound)),
            },
            Stage::StatusRead => match loan_of(reply) {
                Ok(Some(loan)) => Progress::Ask(
                    Stage::StatusClock { deadline: loan.return_deadline },
                    Query::Today,
                ),
                _ => Progress::Done(Err(AppError::NotFound)),
            },
            Stage::StatusClock { deadline } => match reply {
                Reply::Today(today) => Progress::Done(
                    Ok(Outcome::Status(LoanStatus::on(deadline, today))),
                ),
                _ => Progress::Done(Err(AppError::InternalError)),
            },
            _ => Progress::Done(Err(AppError::InternalError)),
        }
    }

    /// The steps that lead up to a new loan.
    fn resume_create(self, reply: Reply) -> (progress: Progress)
        requires
            self is CreateUser || self is CreateBook || self is CreateLoaned || self is CreateInsert,
        ensures
            progress@ == self@.resume(reply@),
    {
        match self {
            Stage::CreateUser { book_id, user_id } => Progress::Ask(
                Stage::CreateBook { book_id, user_id, user_found: shows_user(reply) },
                Query::LockBook(book_id),
            ),
            Stage::CreateBook { book_id, user_id, user_found } => {
                let book_found = book_of(reply).is_ok();
                if !user_found || !book_found {
                    Progress::Done(Err(AppError::NotFound))
                } else {
                    Progress::Ask(Stage::CreateLoaned { book_id, user_id }, Query::BookById(book_id))
                }
            },
            Stage::CreateLoaned { book_id, user_id } => {
                let loaned = match book_of(reply) {
                    Ok(book) => book.is_loaned,
                    Err(_) => false,
                };
                if loaned {
                    Progress::Done(Err(AppError::BookLoanedError))
                } else {
                    Progress::Ask(
                        Stage::ToggleRead { book_id, then: Sequel::Insert { book_id, user_id } },
                        Query::BookById(book_id),
                    )
                }
            },
            Stage::CreateInsert => match reply {
                Reply::Loans(mut rows) => match rows.pop() {
                    Some(loan) => Progress::Done(Ok(Outcome::Loan(loan))),
                    None => Progress::Done(Err(AppError::InternalError)),
                },
                _ => Progress::Done(Err(AppError::InternalError)),
            },
            _ => Progress::Done(Err(AppError::InternalError)),
        }
    }

    /// The single step of a task on users, and the steps of a sign-in.
    fn resume_account(self, reply: Reply) -> (progress: Progress)
        requires
            self is Users || self is User || self is UserPresence || self is Deletion
                || self is Registration || self is Credentials,
        ensures
            progress@ == self@.resume(reply@),
    {
        match self {
            Stage::Users => match reply {
                Reply::Users(rows) => Progress::Done(Ok(Outcome::Users(rows))),
                _ => Progress::Done(Err(AppError::InternalError)),
            },
            Stage::User => match user_of(reply) {
                Ok(user) => Progress::Done(Ok(Outcome::MaybeUser(user))),
                Err(error) => Progress::Done(Err(error)),
            },
            Stage::UserPresence => Progress::Done(Ok(Outcome::Flag(shows_user(reply)))),
            Stage::Deletion => match reply {
                Reply::Affected(count) => {
                    if count == 0 {
                        Progress::Done(Err(AppError::NotFound))
                    } else {
                        Progress::Done(Ok(Outcome::Count(count)))
                    }
                },
                _ => Progress::Done(Err(AppError::InternalError)),
            },
            Stage::Registration => match reply {
                Reply::Users(mut rows) => match rows.pop() {
                    Some(user) => Progress::Done(Ok(Outcome::User(user))),
                    None => Progress::Done(Err(AppError::UserCreationError)),
                },
                _ => Progress::Done(Err(AppError::UserCreationError)),
            },
            Stage::Credentials { password } => match reply {
                Reply::Users(mut rows) => match rows.pop() {
                    Some(user) => match AuthUser::verify_password(password, &user) {
                        Ok(()) => Progress::Done(Ok(Outcome::User(user))),
                        Err(error) => Progress::Done(Err(error)),
                    },
                    None => Progress::Done(Err(AppError::NotFound)),
                },
                _ => Progress::Done(Err(AppError::InternalError)),
            },
            _ => Progress::Done(Err(AppError::InternalError)),
        }
    }

    /// The single step of a task on books or loans.
    fn resume_lookup(self, reply: Reply) -> (progress: Progress)
        requires
            self is Books || self is Book || self is BookPresence || self is BookLoaned
                || self is Search || self is Loans || self is Loan || self is Returned
                || self is LoansOwner || self is LoansOwned,
        ensures
            progress@ == self@.resume(reply@),
    {
        match self {
            Stage::Books | Stage::Search => match reply {
                Reply::Books(rows) => Progress::Done(Ok(Outcome::Books(rows))),
                _ => Progress::Done(Err(AppError::InternalError)),
            },
            Stage::Book => match book_of(reply) {
                Ok(book) => Progress::Done(Ok(Outcome::Book(book))),
                Err(error) => Progress::Done(Err(error)),
            },
            Stage::BookPresence => Progress::Done(Ok(Outcome::Flag(book_of(reply).is_ok()))),
            Stage::BookLoaned => {
                let loaned = match book_of(reply) {
                    Ok(book) => book.is_loaned,
                    Err(_) => false,
                };
                Progress::Done(Ok(Outcome::Flag(loaned)))
            },
            Stage::Loans => match reply {
                Reply::Loans(rows) => Progress::Done(Ok(Outcome::Loans(rows))),
                _ => Progress::Done(Err(AppError::InternalError)),
            },
            Stage::Loan => match loan_of(reply) {
                Ok(loan) => Progress::Done(Ok(Outcome::MaybeLoan(loan))),
                Err(error) => Progress::Done(Err(error)),
            },
            Stage::Returned => match returned_of(reply) {
                Ok(closed) => Progress::Done(Ok(Outcome::Flag(closed))),
                Err(error) => Progress::Done(Err(error)),
            },
            Stage::LoansOwner { user_id } => {
                if shows_user(reply) {
                    Progress::Ask(Stage::LoansOwned, Query::LoansOfUser(user_id))
                } else {
                    Progress::Done(Err(AppError::NotFound))
                }
            },
            Stage::LoansOwned => match reply {
                Reply::Loans(rows) => Progress::Done(Ok(Outcome::Loans(rows))),
                _ => Progress::Done(Err(AppError::NotFound)),
            },
            _ => Progress::Done(Err(AppError::InternalError)),
        }
    }

    /// Decides what the task does once the store has answered `reply`:
    /// the next call, or the result.
    pub fn resume(self, reply: Reply) -> (progress: Progress)
        ensures
            progress@ == self@.resume(reply@),
            progress@.rank() < self@.rank(),
    {
        match self {
            Stage::ToggleRead { .. } | Stage::ToggleWrite { .. } => self.resume_toggle(reply),
            Stage::ReturnCheck { .. } | Stage::ReturnMark { .. } | Stage::ReturnReread => {
                self.resume_return(reply)
            },
            Stage::StatusCheck { .. } | Stage::StatusRead | Stage::StatusClock { .. } => {
                self.resume_status(reply)
            },
            Stage::CreateUser { .. }
            | Stage::CreateBook { .. }
            | Stage::CreateLoaned { .. }
            | Stage::CreateInsert => self.resume_create(reply),
            Stage::Users
            | Stage::User
            | Stage::UserPresence
            | Stage::Deletion
            | Stage::Registration
            | Stage::Credentials { .. } => self.resume_account(reply),
            _ => self.resume_lookup(reply),
        }
    }
}

impl Task {
    /// Decides the first step of the task: the first call on the store, or
    /// the result where no call is needed.
    pub fn begin(self) -> (progress: Progress)
        ensures
            progress@ == self@.begin(),
    {
        match self {
            Task::ListBooks => Progress::Ask(
                Stage::Books,
                Query::ListBooks { limit: BOOK_LISTING_LIMIT },
            ),
            Task::GetBook(id) => Progress::Ask(Stage::Book, Query::BookById(id)),
            Task::BookExists(id) => Progress::Ask(Stage::BookPresence, Query::BookById(id)),
            Task::IsBookLoaned(id) => Progress::Ask(Stage::BookLoaned, Query::BookById(id)),
            Task::ToggleLoanStatus(id) => Progress::Ask(
                Stage::ToggleRead { book_id: id, then: Sequel::Report },
                Query::LockBook(id),
            ),
            Task::SearchBooks { column, text } => {
                if text.as_str().is_empty() {
                    Progress::Done(Err(AppError::BadRequest))
                } else {
                    let open = join("%", text.as_str());
                    let whole = join(open.as_str(), "%");
                    proof {
                        reveal_strlit("%");
                        assert(whole@ =~= seq!['%'] + text@ + seq!['%']);
                    }
                    let pattern = trim(whole.as_str()).to_owned();
                    Progress::Ask(Stage::Search, Query::BooksLike { column, pattern })
                }
            },
            Task::ListLoans => Progress::Ask(Stage::Loans, Query::ListLoans),
            Task::GetLoan(id) => Progress::Ask(Stage::Loan, Query::LoanById(id)),
            Task::AlreadyReturned(id) => Progress::Ask(Stage::Returned, Query::LoanById(id)),
            Task::ReturnLoan(id) => {
                let again = id.clone();
                Progress::Ask(Stage::ReturnCheck { loan_id: id }, Query::LockLoan(again))
            },
            Task::CheckStatus(id) => {
                let again = id.clone();
                Progress::Ask(Stage::StatusCheck { loan_id: id }, Query::LoanById(again))
            },
            Task::LoansOfUser(id) => {
                let again = id.clone();
                Progress::Ask(Stage::LoansOwner { user_id: id }, Query::UserById(again))
            },
            Task::CreateLoan { book_id, user_id } => {
                let again = user_id.clone();
                Progress::Ask(Stage::CreateUser { book_id, user_id }, Query::UserById(again))
            },
            Task::ListUsers => Progress::Ask(Stage::Users, Query::ListUsers),
            Task::GetUser(id) => Progress::Ask(Stage::User, Query::UserById(id)),
            Task::UserExists(id) => Progress::Ask(Stage::UserPresence, Query::UserById(id)),
            Task::DeleteUser(id) => Progress::Ask(Stage::Deletion, Query::MarkUserDeleted(id)),
            Task::RegisterUser(user) => Progress::Ask(Stage::Registration, Query::InsertUser(user)),
            Task::Authenticate { email, password } => {
                let is_email_valid = validate_email(&email);
                let is_pass_valid = validate_password(&password);
                if !is_email_valid || !is_pass_valid {
                    Progress::Done(Err(AppError::InvalidCredentials))
                } else {
                    Progress::Ask(Stage::Credentials { password }, Query::UserByEmail(email))
                }
            },
        }
    }
}

} // verus!
