use library_loans::calendar::{Date, Timestamp};
use library_loans::custom_errors::app_error::{AppError, StoreFault};
use library_loans::models::book::{Book, SearchableBook};
use library_loans::models::loan::{Loan, LoanStatus};
use library_loans::models::user::{NewUser, User};
use library_loans::persistence::{BookColumn, Query, Reply};
use library_loans::workflow::{Outcome, Progress, Sequel, Stage, Task, BOOK_LISTING_LIMIT};

fn volume(id: i32, loaned: bool) -> Book {
    Book {
        book_id: id,
        title: String::from("Harry Potter and the Half-Blood Prince"),
        authors: String::from("J.K. Rowling"),
        isbn: String::from("0439785960"),
        language_code: String::from("eng"),
        num_pages: 652,
        publication_date: Date::new(732_000),
        publisher: String::from("Scholastic Inc."),
        is_loaned: loaned,
    }
}

fn loan(id: &str, book_id: i32, returned: bool) -> Loan {
    Loan {
        id: String::from(id),
        book_id,
        user_id: String::from("dd728f49-5372-4e69-b60a-95da7571e510"),
        loan_date: Date::new(738_000),
        return_deadline: Date::new(738_014),
        is_returned: returned,
        created_at: Timestamp::new(1),
        updated_at: Timestamp::new(2),
    }
}

fn user(id: &str) -> User {
    User {
        id: String::from(id),
        first_name: String::from("dummy"),
        last_name: String::from("dummy_lastname"),
        email: String::from("dummy@email.com"),
        pass: String::from("not a hash"),
        is_admin: false,
        created_at: Timestamp::new(1),
        updated_at: Timestamp::new(1),
        is_deleted: false,
    }
}

fn failed() -> Reply {
    Reply::Failed(StoreFault::DatabaseError)
}

fn ended(error: AppError) -> Progress {
    Progress::Done(Err(error))
}

const LOAN: &str = "75c2621d-6fad-4cd7-a564-53b2aefdff01";
const USER: &str = "a0b1782b-6998-46a9-9e9d-cc6e3f418090";

#[test]
fn every_task_starts_with_its_first_call() {
    assert_eq!(
        Task::ListBooks.begin(),
        Progress::Ask(Stage::Books, Query::ListBooks { limit: 5 })
    );
    assert_eq!(BOOK_LISTING_LIMIT, 5);
    assert_eq!(Task::GetBook(8).begin(), Progress::Ask(Stage::Book, Query::BookById(8)));
    assert_eq!(
        Task::BookExists(8).begin(),
        Progress::Ask(Stage::BookPresence, Query::BookById(8))
    );
    assert_eq!(
        Task::IsBookLoaned(8).begin(),
        Progress::Ask(Stage::BookLoaned, Query::BookById(8))
    );
    assert_eq!(
        Task::ToggleLoanStatus(8).begin(),
        Progress::Ask(Stage::ToggleRead { book_id: 8, then: Sequel::Report }, Query::LockBook(8))
    );
    assert_eq!(Task::ListLoans.begin(), Progress::Ask(Stage::Loans, Query::ListLoans));
    assert_eq!(
        Task::GetLoan(String::from(LOAN)).begin(),
        Progress::Ask(Stage::Loan, Query::LoanById(String::from(LOAN)))
    );
    assert_eq!(
        Task::AlreadyReturned(String::from(LOAN)).begin(),
        Progress::Ask(Stage::Returned, Query::LoanById(String::from(LOAN)))
    );
    assert_eq!(
        Task::ReturnLoan(String::from(LOAN)).begin(),
        Progress::Ask(
            Stage::ReturnCheck { loan_id: String::from(LOAN) },
            Query::LockLoan(String::from(LOAN))
        )
    );
    assert_eq!(
        Task::CheckStatus(String::from(LOAN)).begin(),
        Progress::Ask(
            Stage::StatusCheck { loan_id: String::from(LOAN) },
            Query::LoanById(String::from(LOAN))
        )
    );
    assert_eq!(
        Task::LoansOfUser(String::from(USER)).begin(),
        Progress::Ask(
            Stage::LoansOwner { user_id: String::from(USER) },
            Query::UserById(String::from(USER))
        )
    );
    assert_eq!(
        Task::CreateLoan { book_id: 69, user_id: String::from(USER) }.begin(),
        Progress::Ask(
            Stage::CreateUser { book_id: 69, user_id: String::from(USER) },
            Query::UserById(String::from(USER))
        )
    );
    assert_eq!(Task::ListUsers.begin(), Progress::Ask(Stage::Users, Query::ListUsers));
    assert_eq!(
        Task::GetUser(String::from(USER)).begin(),
        Progress::Ask(Stage::User, Query::UserById(String::from(USER)))
    );
    assert_eq!(
        Task::UserExists(String::from(USER)).begin(),
        Progress::Ask(Stage::UserPresence, Query::UserById(String::from(USER)))
    );
    assert_eq!(
        Task::DeleteUser(String::from(USER)).begin(),
        Progress::Ask(Stage::Deletion, Query::MarkUserDeleted(String::from(USER)))
    );
}

#[test]
fn a_search_needs_a_text() {
    let nothing = SearchableBook {
        title: String::new(),
        authors: String::new(),
        publisher: String::new(),
    };
    assert_eq!(SearchableBook::search_book_by_title(nothing), ended(AppError::BadRequest));
    let by_author = SearchableBook {
        title: String::from("harry"),
        authors: String::new(),
        publisher: String::new(),
    };
    assert_eq!(SearchableBook::search_book_by_author(by_author), ended(AppError::BadRequest));
    let by_publisher = SearchableBook {
        title: String::from("harry"),
        authors: String::from("rowling"),
        publisher: String::new(),
    };
    assert_eq!(
        SearchableBook::search_book_by_publisher(by_publisher),
        ended(AppError::BadRequest)
    );
    assert_eq!(
        Task::SearchBooks { column: BookColumn::Title, text: String::new() }.begin(),
        ended(AppError::BadRequest)
    );
}

#[test]
fn a_search_looks_for_the_text_anywhere() {
    let wanted = SearchableBook {
        title: String::from("Harry"),
        authors: String::from("rowling"),
        publisher: String::from("books"),
    };
    assert_eq!(
        SearchableBook::search_book_by_title(wanted),
        Progress::Ask(
            Stage::Search,
            Query::BooksLike { column: BookColumn::Title, pattern: String::from("%Harry%") }
        )
    );
    let wanted = SearchableBook {
        title: String::from("Harry"),
        authors: String::from("rowling"),
        publisher: String::from("books"),
    };
    assert_eq!(
        SearchableBook::search_book_by_author(wanted),
        Progress::Ask(
            Stage::Search,
            Query::BooksLike { column: BookColumn::Authors, pattern: String::from("%rowling%") }
        )
    );
    let wanted = SearchableBook {
        title: String::from("Harry"),
        authors: String::from("rowling"),
        publisher: String::from(" books "),
    };
    assert_eq!(
        SearchableBook::search_book_by_publisher(wanted),
        Progress::Ask(
            Stage::Search,
            Query::BooksLike {
                column: BookColumn::Publisher,
                pattern: String::from("% books %"),
            }
        )
    );
    assert_eq!(
        Stage::Search.resume(Reply::Books(vec![volume(1, false), volume(2, true)])),
        Progress::Done(Ok(Outcome::Books(vec![volume(1, false), volume(2, true)])))
    );
    assert_eq!(Stage::Search.resume(failed()), ended(AppError::InternalError));
}

#[test]
fn listings_hand_the_rows_on() {
    assert_eq!(
        Stage::Books.resume(Reply::Books(vec![volume(1, false)])),
        Progress::Done(Ok(Outcome::Books(vec![volume(1, false)])))
    );
    assert_eq!(Stage::Books.resume(failed()), ended(AppError::InternalError));
    assert_eq!(
        Stage::Loans.resume(Reply::Loans(vec![loan(LOAN, 8, true)])),
        Progress::Done(Ok(Outcome::Loans(vec![loan(LOAN, 8, true)])))
    );
    assert_eq!(Stage::Loans.resume(failed()), ended(AppError::InternalError));
    assert_eq!(Stage::Loans.resume(Reply::Affected(1)), ended(AppError::InternalError));
    assert_eq!(
        Stage::Users.resume(Reply::Users(vec![user(USER)])),
        Progress::Done(Ok(Outcome::Users(vec![user(USER)])))
    );
    assert_eq!(Stage::Users.resume(failed()), ended(AppError::InternalError));
}

#[test]
fn lookups_take_the_last_row() {
    assert_eq!(
        Stage::Book.resume(Reply::Books(vec![volume(1, false), volume(2, true)])),
        Progress::Done(Ok(Outcome::Book(volume(2, true))))
    );
    assert_eq!(Stage::Book.resume(Reply::Books(vec![])), ended(AppError::NotFound));
    assert_eq!(Stage::Book.resume(failed()), ended(AppError::InternalError));
    assert_eq!(
        Stage::Loan.resume(Reply::Loans(vec![loan(LOAN, 8, false)])),
        Progress::Done(Ok(Outcome::MaybeLoan(Some(loan(LOAN, 8, false)))))
    );
    assert_eq!(
        Stage::Loan.resume(Reply::Loans(vec![])),
        Progress::Done(Ok(Outcome::MaybeLoan(None)))
    );
    assert_eq!(Stage::Loan.resume(failed()), ended(AppError::InternalError));
    assert_eq!(
        Stage::User.resume(Reply::Users(vec![user(USER)])),
        Progress::Done(Ok(Outcome::MaybeUser(Some(user(USER)))))
    );
    assert_eq!(
        Stage::User.resume(Reply::Users(vec![])),
        Progress::Done(Ok(Outcome::MaybeUser(None)))
    );
    assert_eq!(Stage::User.resume(failed()), ended(AppError::NotFound));
}

#[test]
fn checks_never_fail() {
    let yes = Progress::Done(Ok(Outcome::Flag(true)));
    let no = Progress::Done(Ok(Outcome::Flag(false)));
    assert_eq!(Stage::BookPresence.resume(Reply::Books(vec![volume(1, false)])), yes);
    assert_eq!(Stage::BookPresence.resume(Reply::Books(vec![])), no);
    assert_eq!(Stage::BookPresence.resume(failed()), no);
    assert_eq!(Stage::BookLoaned.resume(Reply::Books(vec![volume(1, true)])), yes);
    assert_eq!(Stage::BookLoaned.resume(Reply::Books(vec![volume(1, false)])), no);
    assert_eq!(Stage::BookLoaned.resume(Reply::Books(vec![])), no);
    assert_eq!(Stage::BookLoaned.resume(failed()), no);
    assert_eq!(Stage::UserPresence.resume(Reply::Users(vec![user(USER)])), yes);
    assert_eq!(Stage::UserPresence.resume(Reply::Users(vec![])), no);
    assert_eq!(Stage::UserPresence.resume(failed()), no);
}

#[test]
fn a_closed_loan_is_told_from_an_open_one() {
    assert_eq!(
        Stage::Returned.resume(Reply::Loans(vec![loan(LOAN, 8, true)])),
        Progress::Done(Ok(Outcome::Flag(true)))
    );
    assert_eq!(
        Stage::Returned.resume(Reply::Loans(vec![loan(LOAN, 8, false)])),
        Progress::Done(Ok(Outcome::Flag(false)))
    );
    assert_eq!(Stage::Returned.resume(Reply::Loans(vec![])), ended(AppError::NotFound));
    assert_eq!(Stage::Returned.resume(failed()), ended(AppError::NotFound));
}

#[test]
fn a_flip_reads_and_then_writes_the_other_value() {
    let read = Stage::ToggleRead { book_id: 8, then: Sequel::Report };
    assert_eq!(
        read.resume(Reply::Books(vec![volume(8, false)])),
        Progress::Ask(
            Stage::ToggleWrite { then: Sequel::Report },
            Query::SetBookLoaned { book_id: 8, loaned: true }
        )
    );
    let read = Stage::ToggleRead { book_id: 8, then: Sequel::Report };
    assert_eq!(
        read.resume(Reply::Books(vec![volume(8, true)])),
        Progress::Ask(
            Stage::ToggleWrite { then: Sequel::Report },
            Query::SetBookLoaned { book_id: 8, loaned: false }
        )
    );
    let read = Stage::ToggleRead { book_id: 8, then: Sequel::Report };
    assert_eq!(read.resume(Reply::Books(vec![])), ended(AppError::NotFound));
    let read = Stage::ToggleRead { book_id: 8, then: Sequel::Report };
    assert_eq!(read.resume(failed()), ended(AppError::NotFound));
    let write = Stage::ToggleWrite { then: Sequel::Report };
    assert_eq!(write.resume(Reply::Affected(1)), Progress::Done(Ok(Outcome::Flag(true))));
    let write = Stage::ToggleWrite { then: Sequel::Report };
    assert_eq!(write.resume(Reply::Affected(0)), ended(AppError::InternalError));
    let write = Stage::ToggleWrite { then: Sequel::Report };
    assert_eq!(write.resume(failed()), ended(AppError::InternalError));
}

#[test]
fn a_return_step_by_step() {
    let check = Stage::ReturnCheck { loan_id: String::from(LOAN) };
    assert_eq!(
        check.resume(Reply::Loans(vec![loan(LOAN, 8, false)])),
        Progress::Ask(
            Stage::ReturnMark { loan_id: String::from(LOAN) },
            Query::MarkLoanReturned(String::from(LOAN))
        )
    );
    let mark = Stage::ReturnMark { loan_id: String::from(LOAN) };
    assert_eq!(
        mark.resume(Reply::Affected(1)),
        Progress::Ask(Stage::ReturnReread, Query::LoanById(String::from(LOAN)))
    );
    assert_eq!(
        Stage::ReturnReread.resume(Reply::Loans(vec![loan(LOAN, 8, true)])),
        Progress::Ask(
            Stage::ToggleRead { book_id: 8, then: Sequel::CloseReturn },
            Query::BookById(8)
        )
    );
    let read = Stage::ToggleRead { book_id: 8, then: Sequel::CloseReturn };
    assert_eq!(
        read.resume(Reply::Books(vec![volume(8, true)])),
        Progress::Ask(
            Stage::ToggleWrite { then: Sequel::CloseReturn },
            Query::SetBookLoaned { book_id: 8, loaned: false }
        )
    );
    let write = Stage::ToggleWrite { then: Sequel::CloseReturn };
    assert_eq!(write.resume(Reply::Affected(1)), Progress::Done(Ok(Outcome::Done)));
}

#[test]
fn a_return_that_goes_wrong() {
    let check = Stage::ReturnCheck { loan_id: String::from(LOAN) };
    assert_eq!(
        check.resume(Reply::Loans(vec![loan(LOAN, 8, true)])),
        ended(AppError::LoanReturnedError)
    );
    let check = Stage::ReturnCheck { loan_id: String::from(LOAN) };
    assert_eq!(check.resume(Reply::Loans(vec![])), ended(AppError::NotFound));
    let check = Stage::ReturnCheck { loan_id: String::from(LOAN) };
    assert_eq!(check.resume(failed()), ended(AppError::NotFound));
    let mark = Stage::ReturnMark { loan_id: String::from(LOAN) };
    assert_eq!(mark.resume(Reply::Affected(0)), ended(AppError::NotFound));
    let mark = Stage::ReturnMark { loan_id: String::from(LOAN) };
    assert_eq!(mark.resume(failed()), ended(AppError::InternalError));
    assert_eq!(Stage::ReturnReread.resume(Reply::Loans(vec![])), ended(AppError::NotFound));
    assert_eq!(Stage::ReturnReread.resume(failed()), ended(AppError::NotFound));
    let read = Stage::ToggleRead { book_id: 8, then: Sequel::CloseReturn };
    assert_eq!(read.resume(Reply::Books(vec![])), ended(AppError::BadRequest));
    let read = Stage::ToggleRead { book_id: 8, then: Sequel::CloseReturn };
    assert_eq!(read.resume(failed()), ended(AppError::BadRequest));
    let write = Stage::ToggleWrite { then: Sequel::CloseReturn };
    assert_eq!(write.resume(Reply::Affected(0)), ended(AppError::BadRequest));
    let write = Stage::ToggleWrite { then: Sequel::CloseReturn };
    assert_eq!(write.resume(failed()), ended(AppError::BadRequest));
}

#[test]
fn a_status_check_step_by_step() {
    let check = Stage::StatusCheck { loan_id: String::from(LOAN) };
    assert_eq!(
        check.resume(Reply::Loans(vec![loan(LOAN, 8, false)])),
        Progress::Ask(Stage::StatusRead, Query::LoanById(String::from(LOAN)))
    );
    assert_eq!(
        Stage::StatusRead.resume(Reply::Loans(vec![loan(LOAN, 8, false)])),
        Progress::Ask(Stage::StatusClock { deadline: Date::new(738_014) }, Query::Today)
    );
    let clock = Stage::StatusClock { deadline: Date::new(738_014) };
    assert_eq!(
        clock.resume(Reply::Today(Date::new(738_020))),
        Progress::Done(Ok(Outcome::Status(LoanStatus::Overdue { days: 6 })))
    );
    let clock = Stage::StatusClock { deadline: Date::new(738_014) };
    assert_eq!(
        clock.resume(Reply::Today(Date::new(738_014))),
        Progress::Done(Ok(Outcome::Status(LoanStatus::Due { days: 0 })))
    );
}

#[test]
fn a_status_check_that_goes_wrong() {
    let check = Stage::StatusCheck { loan_id: String::from(LOAN) };
    assert_eq!(
        check.resume(Reply::Loans(vec![loan(LOAN, 8, true)])),
        ended(AppError::LoanReturnedError)
    );
    let check = Stage::StatusCheck { loan_id: String::from(LOAN) };
    assert_eq!(check.resume(Reply::Loans(vec![])), ended(AppError::NotFound));
    let check = Stage::StatusCheck { loan_id: String::from(LOAN) };
    assert_eq!(check.resume(failed()), ended(AppError::NotFound));
    assert_eq!(Stage::StatusRead.resume(Reply::Loans(vec![])), ended(AppError::NotFound));
    assert_eq!(Stage::StatusRead.resume(failed()), ended(AppError::NotFound));
    let clock = Stage::StatusClock { deadline: Date::new(738_014) };
    assert_eq!(clock.resume(failed()), ended(AppError::InternalError));
}

#[test]
fn a_new_loan_step_by_step() {
    let first = Stage::CreateUser { book_id: 69, user_id: String::from(USER) };
    assert_eq!(
        first.resume(Reply::Users(vec![user(USER)])),
        Progress::Ask(
            Stage::CreateBook { book_id: 69, user_id: String::from(USER), user_found: true },
            Query::LockBook(69)
        )
    );
    let second = Stage::CreateBook { book_id: 69, user_id: String::from(USER), user_found: true };
    assert_eq!(
        second.resume(Reply::Books(vec![volume(69, false)])),
        Progress::Ask(
            Stage::CreateLoaned { book_id: 69, user_id: String::from(USER) },
            Query::BookById(69)
        )
    );
    let third = Stage::CreateLoaned { book_id: 69, user_id: String::from(USER) };
    assert_eq!(
        third.resume(Reply::Books(vec![volume(69, false)])),
        Progress::Ask(
            Stage::ToggleRead {
                book_id: 69,
                then: Sequel::Insert { book_id: 69, user_id: String::from(USER) },
            },
            Query::BookById(69)
        )
    );
    let read = Stage::ToggleRead {
        book_id: 69,
        then: Sequel::Insert { book_id: 69, user_id: String::from(USER) },
    };
    assert_eq!(
        read.resume(Reply::Books(vec![volume(69, false)])),
        Progress::Ask(
            Stage::ToggleWrite {
                then: Sequel::Insert { book_id: 69, user_id: String::from(USER) },
            },
            Query::SetBookLoaned { book_id: 69, loaned: true }
        )
    );
    let write = Stage::ToggleWrite {
        then: Sequel::Insert { book_id: 69, user_id: String::from(USER) },
    };
    assert_eq!(
        write.resume(Reply::Affected(1)),
        Progress::Ask(
            Stage::CreateInsert,
            Query::InsertLoan { book_id: 69, user_id: String::from(USER) }
        )
    );
    assert_eq!(
        Stage::CreateInsert.resume(Reply::Loans(vec![loan(LOAN, 69, false)])),
        Progress::Done(Ok(Outcome::Loan(loan(LOAN, 69, false))))
    );
}

#[test]
fn a_new_loan_that_goes_wrong() {
    let first = Stage::CreateUser { book_id: 69, user_id: String::from(USER) };
    assert_eq!(
        first.resume(Reply::Users(vec![])),
        Progress::Ask(
            Stage::CreateBook { book_id: 69, user_id: String::from(USER), user_found: false },
            Query::LockBook(69)
        )
    );
    let first = Stage::CreateUser { book_id: 69, user_id: String::from(USER) };
    assert_eq!(
        first.resume(failed()),
        Progress::Ask(
            Stage::CreateBook { book_id: 69, user_id: String::from(USER), user_found: false },
            Query::LockBook(69)
        )
    );
    let second = Stage::CreateBook { book_id: 69, user_id: String::from(USER), user_found: false };
    assert_eq!(second.resume(Reply::Books(vec![volume(69, false)])), ended(AppError::NotFound));
    let second = Stage::CreateBook { book_id: 69, user_id: String::from(USER), user_found: true };
    assert_eq!(second.resume(Reply::Books(vec![])), ended(AppError::NotFound));
    let second = Stage::CreateBook { book_id: 69, user_id: String::from(USER), user_found: true };
    assert_eq!(second.resume(failed()), ended(AppError::NotFound));
    let third = Stage::CreateLoaned { book_id: 69, user_id: String::from(USER) };
    assert_eq!(
        third.resume(Reply::Books(vec![volume(69, true)])),
        ended(AppError::BookLoanedError)
    );
    let third = Stage::CreateLoaned { book_id: 69, user_id: String::from(USER) };
    assert!(matches!(third.resume(failed()), Progress::Ask(Stage::ToggleRead { .. }, _)));
    let read = Stage::ToggleRead {
        book_id: 69,
        then: Sequel::Insert { book_id: 69, user_id: String::from(USER) },
    };
    assert_eq!(read.resume(failed()), ended(AppError::BadRequest));
    let write = Stage::ToggleWrite {
        then: Sequel::Insert { book_id: 69, user_id: String::from(USER) },
    };
    assert_eq!(write.resume(Reply::Affected(0)), ended(AppError::BadRequest));
    let write = Stage::ToggleWrite {
        then: Sequel::Insert { book_id: 69, user_id: String::from(USER) },
    };
    assert_eq!(write.resume(failed()), ended(AppError::BadRequest));
    assert_eq!(Stage::CreateInsert.resume(failed()), ended(AppError::InternalError));
    assert_eq!(Stage::CreateInsert.resume(Reply::Loans(vec![])), ended(AppError::InternalError));
}

#[test]
fn loans_of_a_user_step_by_step() {
    let owner = Stage::LoansOwner { user_id: String::from(USER) };
    assert_eq!(
        owner.resume(Reply::Users(vec![user(USER)])),
        Progress::Ask(Stage::LoansOwned, Query::LoansOfUser(String::from(USER)))
    );
    let owner = Stage::LoansOwner { user_id: String::from(USER) };
    assert_eq!(owner.resume(Reply::Users(vec![])), ended(AppError::NotFound));
    let owner = Stage::LoansOwner { user_id: String::from(USER) };
    assert_eq!(owner.resume(failed()), ended(AppError::NotFound));
    assert_eq!(
        Stage::LoansOwned.resume(Reply::Loans(vec![])),
        Progress::Done(Ok(Outcome::Loans(vec![])))
    );
    assert_eq!(Stage::LoansOwned.resume(failed()), ended(AppError::NotFound));
}

#[test]
fn users_are_deleted_and_created() {
    assert_eq!(Stage::Deletion.resume(Reply::Affected(1)), Progress::Done(Ok(Outcome::Count(1))));
    assert_eq!(Stage::Deletion.resume(Reply::Affected(0)), ended(AppError::NotFound));
    assert_eq!(Stage::Deletion.resume(failed()), ended(AppError::InternalError));
    let new_user = NewUser {
        first_name: String::from("dummy"),
        last_name: String::from("dummy_lastname"),
        email: String::from("dummy@email.com"),
        pass: String::from("hash"),
        is_admin: false,
    };
    let again = NewUser {
        first_name: String::from("dummy"),
        last_name: String::from("dummy_lastname"),
        email: String::from("dummy@email.com"),
        pass: String::from("hash"),
        is_admin: false,
    };
    assert_eq!(
        Task::RegisterUser(new_user).begin(),
        Progress::Ask(Stage::Registration, Query::InsertUser(again))
    );
    assert_eq!(
        Stage::Registration.resume(Reply::Users(vec![user(USER)])),
        Progress::Done(Ok(Outcome::User(user(USER))))
    );
    assert_eq!(Stage::Registration.resume(failed()), ended(AppError::UserCreationError));
    assert_eq!(
        Stage::Registration.resume(Reply::Users(vec![])),
        ended(AppError::UserCreationError)
    );
}

#[test]
fn a_flip_that_did_not_take_place_stops_the_task() {
    assert_eq!(Sequel::Report.after(Ok(true)), Progress::Done(Ok(Outcome::Flag(true))));
    assert_eq!(Sequel::Report.after(Ok(false)), Progress::Done(Ok(Outcome::Flag(false))));
    assert_eq!(Sequel::Report.after(Err(AppError::NotFound)), ended(AppError::NotFound));
    assert_eq!(Sequel::CloseReturn.after(Ok(true)), Progress::Done(Ok(Outcome::Done)));
    assert_eq!(Sequel::CloseReturn.after(Ok(false)), ended(AppError::BookLoanStatusError));
    assert_eq!(Sequel::CloseReturn.after(Err(AppError::NotFound)), ended(AppError::BadRequest));
    let insert = Sequel::Insert { book_id: 69, user_id: String::from(USER) };
    assert_eq!(insert.after(Ok(false)), ended(AppError::BookLoanStatusError));
    let insert = Sequel::Insert { book_id: 69, user_id: String::from(USER) };
    assert_eq!(insert.after(Err(AppError::InternalError)), ended(AppError::BadRequest));
    let insert = Sequel::Insert { book_id: 69, user_id: String::from(USER) };
    assert_eq!(
        insert.after(Ok(true)),
        Progress::Ask(
            Stage::CreateInsert,
            Query::InsertLoan { book_id: 69, user_id: String::from(USER) }
        )
    );
}
