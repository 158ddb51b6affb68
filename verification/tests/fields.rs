use library_loans::calendar::{Date, Timestamp, LOAN_PERIOD_DAYS};
use library_loans::custom_errors::app_error::{AppError, StoreFault};
use library_loans::errors::AuthError;
use library_loans::models::loan::LoanStatus;
use library_loans::text::{join, decimal_string};
use library_loans::validation;
use library_loans::validation::book_validation::{
    is_book_author_empty, is_book_publisher_empty, is_book_title_empty,
};

#[test]
fn empty_fields_are_told_apart() {
    assert!(is_book_title_empty(&String::new()));
    assert!(!is_book_title_empty(&String::from("Harry")));
    assert!(is_book_author_empty(&String::new()));
    assert!(!is_book_author_empty(&String::from("rowling")));
    assert!(is_book_publisher_empty(&String::new()));
    assert!(!is_book_publisher_empty(&String::from(" ")));
    assert!(validation::is_book_author_empty(&String::new()));
    assert!(!validation::is_book_author_empty(&String::from("rowling")));
}

#[test]
fn every_error_has_its_status() {
    assert_eq!(AppError::NotFound.status_code(), 404);
    assert_eq!(AppError::InvalidCredentials.status_code(), 400);
    assert_eq!(AppError::PasswordHashError.status_code(), 401);
    assert_eq!(AppError::InternalError.status_code(), 500);
    assert_eq!(AppError::BadRequest.status_code(), 400);
    assert_eq!(AppError::UserCreationError.status_code(), 500);
    assert_eq!(AppError::LoanReturnedError.status_code(), 400);
    assert_eq!(AppError::BookLoanedError.status_code(), 400);
    assert_eq!(AppError::BookLoanStatusError.status_code(), 500);
}

#[test]
fn every_error_has_its_sentence() {
    assert_eq!(AppError::NotFound.message(), "User/Loan/Book not found in database");
    assert_eq!(AppError::UserCreationError.message(), "Error creating user in db");
    assert_eq!(AppError::InvalidCredentials.message(), "Invalid user email or password");
    assert_eq!(AppError::PasswordHashError.message(), "Error hashing password");
    assert_eq!(AppError::InternalError.message(), "Internal server error, sth wrong with db");
    assert_eq!(AppError::BadRequest.message(), "Bad request");
    assert_eq!(AppError::LoanReturnedError.message(), "Loan already returned");
    assert_eq!(AppError::BookLoanedError.message(), "Book is already loaned");
    assert_eq!(AppError::BookLoanStatusError.message(), "Error updating book loaned status");
}

#[test]
fn store_faults_turn_into_errors() {
    assert_eq!(AppError::from(StoreFault::InvalidCString), AppError::BadRequest);
    assert_eq!(AppError::from(StoreFault::DatabaseError), AppError::InternalError);
    assert_eq!(AppError::from(StoreFault::NotFound), AppError::NotFound);
    assert_eq!(AppError::from(StoreFault::QueryBuilderError), AppError::BadRequest);
    assert_eq!(AppError::from(StoreFault::DeserializationError), AppError::BadRequest);
    assert_eq!(AppError::from(StoreFault::SerializationError), AppError::BadRequest);
    assert_eq!(AppError::from(StoreFault::RollbackTransaction), AppError::InternalError);
    assert_eq!(AppError::from(StoreFault::AlreadyInTransaction), AppError::InternalError);
    assert_eq!(AppError::from(StoreFault::Other), AppError::InternalError);
}

#[test]
fn hash_faults_turn_into_errors() {
    let fault = bcrypt::verify("secret", "not a hash").unwrap_err();
    assert_eq!(AppError::from(fault), AppError::PasswordHashError);
}

#[test]
fn auth_error_sentences() {
    assert_eq!(AuthError.message(), "Unauthorized attempt");
    assert_eq!(AuthError.description(), "description() is deprecated; use Display");
}

#[test]
fn numerals() {
    assert_eq!(decimal_string(0), "0");
    assert_eq!(decimal_string(7), "7");
    assert_eq!(decimal_string(10), "10");
    assert_eq!(decimal_string(1234567890), "1234567890");
    assert_eq!(decimal_string(u64::MAX), "18446744073709551615");
    assert_eq!(join("Days until deadline: ", "0"), "Days until deadline: 0");
}

#[test]
fn dates_count_days() {
    let day = Date::new(738_000);
    assert_eq!(day.days, 738_000);
    assert!(Date::new(738_001).is_after(day));
    assert!(!day.is_after(day));
    assert!(!Date::new(737_999).is_after(day));
    assert_eq!(Date::new(738_020).days_since(day), 20);
    assert_eq!(day.days_since(Date::new(738_020)), -20);
    assert_eq!(Date::new(i32::MAX).days_since(Date::new(i32::MIN)), 4_294_967_295);
    assert_eq!(day.plus_days(14), Some(Date::new(738_014)));
    assert_eq!(day.plus_days(-14), Some(Date::new(737_986)));
    assert_eq!(Date::new(i32::MAX).plus_days(1), None);
    assert_eq!(Date::new(i32::MIN).plus_days(-1), None);
    assert_eq!(Timestamp::new(5).micros, 5);
}

#[test]
fn deadline_is_a_loan_period_after_the_start() {
    assert_eq!(LOAN_PERIOD_DAYS, 14);
    assert_eq!(Date::new(738_000).loan_deadline(), Some(Date::new(738_014)));
    assert_eq!(Date::new(i32::MAX - 14).loan_deadline(), Some(Date::new(i32::MAX)));
    assert_eq!(Date::new(i32::MAX - 13).loan_deadline(), None);
}

#[test]
fn status_counts_from_the_deadline() {
    let start = Date::new(738_000);
    let deadline = start.loan_deadline().unwrap();
    assert_eq!(LoanStatus::on(deadline, Date::new(738_020)), LoanStatus::Overdue { days: 6 });
    assert_eq!(LoanStatus::on(deadline, Date::new(738_014)), LoanStatus::Due { days: 0 });
    assert_eq!(LoanStatus::on(deadline, Date::new(738_015)), LoanStatus::Overdue { days: 1 });
    assert_eq!(LoanStatus::on(deadline, start), LoanStatus::Due { days: 14 });
    assert_eq!(LoanStatus::on(deadline, Date::new(737_990)), LoanStatus::Due { days: 24 });
    assert_eq!(
        LoanStatus::on(Date::new(i32::MIN), Date::new(i32::MAX)),
        LoanStatus::Overdue { days: u32::MAX }
    );
}

#[test]
fn status_sentences() {
    assert_eq!(
        LoanStatus::Overdue { days: 6 }.message(),
        "You are late returning a book. Days overtime: 6"
    );
    assert_eq!(LoanStatus::Due { days: 0 }.message(), "Days until deadline: 0");
    assert_eq!(LoanStatus::Due { days: 14 }.message(), "Days until deadline: 14");
    assert_eq!(
        LoanStatus::Overdue { days: u32::MAX }.message(),
        "You are late returning a book. Days overtime: 4294967295"
    );
}
