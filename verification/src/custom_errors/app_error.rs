//! The single error taxonomy of the lending core.

use vstd::prelude::*;
use vstd::std_specs::convert::FromSpecImpl;

verus! {

/// Every way an operation of the lending core can fail.
#[derive(Clone, Copy, Debug, PartialEq, Eq, Structural)]
pub enum AppError {
    /// A user, loan or book that the request refers to is absent.
    NotFound,
    /// The store refused to create the user.
    UserCreationError,
    /// The e-mail address or the password is malformed.
    InvalidCredentials,
    /// The password could not be hashed, or does not match the stored hash.
    PasswordHashError,
    /// The store failed in a way the caller is not to blame for.
    InternalError,
    /// The request is malformed, or a store call it caused was refused.
    BadRequest,
    /// The loan is closed already.
    LoanReturnedError,
    /// The book has an active loan.
    BookLoanedError,
    /// The availability flag of the book was not updated.
    BookLoanStatusError,
}

/// How the store can fail, by kind.
#[derive(Clone, Copy, Debug, PartialEq, Eq, Structural)]
pub enum StoreFault {
    /// A string handed to the store held a NUL byte.
    InvalidCString,
    /// The engine refused the statement (a constraint, a lost connection).
    DatabaseError,
    /// One row was asked for and none came back.
    NotFound,
    /// The statement could not be built.
    QueryBuilderError,
    /// A row could not be read into its type.
    DeserializationError,
    /// A value could not be written in the store's form.
    SerializationError,
    /// The transaction was rolled back on purpose.
    RollbackTransaction,
    /// A transaction was opened inside another one.
    AlreadyInTransaction,
    /// Any other failure.
    Other,
}

impl AppError {
    /// The HTTP status that stands for this error.
    pub open spec fn status(self) -> u16 {
        match self {
            AppError::NotFound => 404,
            AppError::InvalidCredentials => 400,
            AppError::PasswordHashError => 401,
            AppError::InternalError => 500,
            AppError::BadRequest => 400,
            AppError::UserCreationError => 500,
            AppError::LoanReturnedError => 400,
            AppError::BookLoanedError => 400,
            AppError::BookLoanStatusError => 500,
        }
    }

    /// The sentence shown to the client for this error.
    pub open spec fn text(self) -> Seq<char> {
        match self {
            AppError::NotFound => "User/Loan/Book not found in database"@,
            AppError::UserCreationError => "Error creating user in db"@,
            AppError::InvalidCredentials => "Invalid user email or password"@,
            AppError::PasswordHashError => "Error hashing password"@,
            AppError::InternalError => "Internal server error, sth wrong with db"@,
            AppError::BadRequest => "Bad request"@,
            AppError::LoanReturnedError => "Loan already returned"@,
            AppError::BookLoanedError => "Book is already loaned"@,
            AppError::BookLoanStatusError => "Error updating book loaned status"@,
        }
    }

    /// The error kind that a store failure of the given kind turns into.
    pub open spec fn of_store_fault(fault: StoreFault) -> AppError {
        match fault {
            StoreFault::InvalidCString => AppError::BadRequest,
            StoreFault::DatabaseError => AppError::InternalError,
            StoreFault::NotFound => AppError::NotFound,
            StoreFault::QueryBuilderError => AppError::BadRequest,
            StoreFault::DeserializationError => AppError::BadRequest,
            StoreFault::SerializationError => AppError::BadRequest,
            StoreFault::RollbackTransaction => AppError::InternalError,
            StoreFault::AlreadyInTransaction => AppError::InternalError,
            StoreFault::Other => AppError::InternalError,
        }
    }

    /// The HTTP status that a response to the failed request carries.
    pub fn status_code(&self) -> (code: u16)
        ensures
            code == self.status(),
    {
        match self {
            AppError::NotFound => 404,
            AppError::InvalidCredentials => 400,
            AppError::PasswordHashError => 401,
            AppError::InternalError => 500,
            AppError::BadRequest => 400,
            AppError::UserCreationError => 500,
            AppError::LoanReturnedError => 400,
            AppError::BookLoanedError => 400,
            AppError::BookLoanStatusError => 500,
        }
    }

    /// The sentence that a response to the failed request carries.
    pub fn message(&self) -> (text: String)
        ensures
            text@ == self.text(),
    {
        match self {
            AppError::NotFound => "User/Loan/Book not found in database".to_owned(),
            AppError::UserCreationError => "Error creating user in db".to_owned(),
            AppError::InvalidCredentials => "Invalid user email or password".to_owned(),
            AppError::PasswordHashError => "Error hashing password".to_owned(),
            AppError::InternalError => "Internal server error, sth wrong with db".to_owned(),
            AppError::BadRequest => "Bad request".to_owned(),
            AppError::LoanReturnedError => "Loan already returned".to_owned(),
            AppError::BookLoanedError => "Book is already loaned".to_owned(),
            AppError::BookLoanStatusError => "Error updating book loaned status".to_owned(),
        }
    }
}

impl From<StoreFault> for AppError {
    fn from(err: StoreFault) -> (error: AppError) {
        match err {
            StoreFault::InvalidCString => AppError::BadRequest,
            StoreFault::DatabaseError => AppError::InternalError,
            StoreFault::NotFound => AppError::NotFound,
            StoreFault::QueryBuilderError => AppError::BadRequest,
            StoreFault::DeserializationError => AppError::BadRequest,
            StoreFault::SerializationError => AppError::BadRequest,
            StoreFault::RollbackTransaction => AppError::InternalError,
            StoreFault::AlreadyInTransaction => AppError::InternalError,
            StoreFault::Other => AppError::InternalError,
        }
    }
}

impl FromSpecImpl<StoreFault> for AppError {
    open spec fn obeys_from_spec() -> bool {
        true
    }

    open spec fn from_spec(err: StoreFault) -> AppError {
        AppError::of_store_fault(err)
    }
}

impl From<bcrypt::BcryptError> for AppError {
    fn from(err: bcrypt::BcryptError) -> (error: AppError) {
        AppError::PasswordHashError
    }
}

impl FromSpecImpl<bcrypt::BcryptError> for AppError {
    open spec fn obeys_from_spec() -> bool {
        true
    }

    open spec fn from_spec(err: bcrypt::BcryptError) -> AppError {
        AppError::PasswordHashError
    }
}

} // verus!
