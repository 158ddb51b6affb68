use library_loans::calendar::{Date, Timestamp};
use library_loans::custom_errors::app_error::AppError;
use library_loans::library::Library;
use library_loans::models::authentication::auth::{password_check, AuthUser};
use library_loans::models::authentication::jwt::{
    generate, lifetime_seconds, seconds_or_default, Claims, DEFAULT_LIFETIME_SECONDS,
};
use library_loans::models::user::{NewUser, User};
use library_loans::persistence::{Query, Reply};
use library_loans::workflow::{Progress, Stage, Task};

const PASSWORD: &str = "Ante123456";

/// A user whose password was hashed at a low cost, to keep the tests quick.
fn member(email: &str, password: &str) -> NewUser {
    NewUser {
        first_name: String::from("Ante"),
        last_name: String::from("Antic"),
        email: String::from(email),
        pass: bcrypt::hash(password, 4).unwrap(),
        is_admin: false,
    }
}

fn library_with_member() -> (Library, User) {
    let mut library = Library::new();
    assert!(library.set_clock(Date::new(738_000), Timestamp::new(77)));
    match library.answer(&Query::InsertUser(member("antisa@gmail.com", PASSWORD))) {
        Reply::Users(mut rows) => {
            let user = rows.pop().unwrap();
            (library, user)
        }
        other => panic!("unexpected reply {:?}", other),
    }
}

#[test]
fn a_member_signs_in() {
    let (mut library, user) = library_with_member();
    assert_eq!(user.id, "0");
    assert_eq!(user.created_at, Timestamp::new(77));
    assert!(!user.is_deleted);
    assert_eq!(
        AuthUser::authenticate(&mut library, String::from("antisa@gmail.com"), String::from(PASSWORD)),
        Ok(user)
    );
}

#[test]
fn a_sign_in_with_malformed_credentials() {
    let (mut library, _) = library_with_member();
    assert_eq!(
        AuthUser::authenticate(&mut library, String::from("antisa.com"), String::from(PASSWORD)),
        Err(AppError::InvalidCredentials)
    );
    assert_eq!(
        AuthUser::authenticate(&mut library, String::from("antisa@gmail.com"), String::from("ante123")),
        Err(AppError::InvalidCredentials)
    );
}

#[test]
fn a_sign_in_of_a_stranger() {
    let (mut library, _) = library_with_member();
    assert_eq!(
        AuthUser::authenticate(&mut library, String::from("nobody@gmail.com"), String::from(PASSWORD)),
        Err(AppError::NotFound)
    );
}

#[test]
fn a_sign_in_with_the_wrong_password() {
    let (mut library, _) = library_with_member();
    assert_eq!(
        AuthUser::authenticate(
            &mut library,
            String::from("antisa@gmail.com"),
            String::from("Ante1234567")
        ),
        Err(AppError::PasswordHashError)
    );
}

#[test]
fn a_sign_in_against_a_hash_that_cannot_be_read() {
    let mut library = Library::new();
    let broken = NewUser { pass: String::from("not a hash"), ..member("antisa@gmail.com", "x") };
    assert!(matches!(library.answer(&Query::InsertUser(broken)), Reply::Users(_)));
    assert_eq!(
        AuthUser::authenticate(&mut library, String::from("antisa@gmail.com"), String::from(PASSWORD)),
        Err(AppError::PasswordHashError)
    );
}

#[test]
fn a_sign_in_step_by_step() {
    assert_eq!(
        Task::Authenticate {
            email: String::from("antisa@gmail.com"),
            password: String::from(PASSWORD),
        }
        .begin(),
        Progress::Ask(
            Stage::Credentials { password: String::from(PASSWORD) },
            Query::UserByEmail(String::from("antisa@gmail.com"))
        )
    );
    assert_eq!(
        Task::Authenticate { email: String::from("antisa.com"), password: String::from(PASSWORD) }
            .begin(),
        Progress::Done(Err(AppError::InvalidCredentials))
    );
    let waiting = Stage::Credentials { password: String::from(PASSWORD) };
    assert_eq!(
        waiting.resume(Reply::Failed(
            library_loans::custom_errors::app_error::StoreFault::DatabaseError
        )),
        Progress::Done(Err(AppError::InternalError))
    );
    let waiting = Stage::Credentials { password: String::from(PASSWORD) };
    assert_eq!(waiting.resume(Reply::Users(vec![])), Progress::Done(Err(AppError::NotFound)));
}

#[test]
fn a_password_is_checked_against_the_hash() {
    let (_, user) = library_with_member();
    assert_eq!(AuthUser::verify_password(String::from(PASSWORD), &user), Ok(()));
    assert_eq!(
        AuthUser::verify_password(String::from("ante123456"), &user),
        Err(AppError::PasswordHashError)
    );
    let broken = User { pass: String::from("$2b$04$short"), ..user };
    assert_eq!(
        AuthUser::verify_password(String::from(PASSWORD), &broken),
        Err(AppError::PasswordHashError)
    );
}

#[test]
fn a_verdict_is_turned_into_a_result() {
    assert_eq!(password_check(Ok(true)), Ok(()));
    assert_eq!(password_check(Ok(false)), Err(AppError::PasswordHashError));
    assert_eq!(
        password_check(bcrypt::verify("secret", "not a hash")),
        Err(AppError::PasswordHashError)
    );
}

#[test]
fn a_new_member_gets_a_hash_that_matches() {
    let prepared = NewUser::prepare(
        String::from("dummy"),
        String::from("dummy_lastname"),
        String::from("dummy@email.com"),
        String::from("DummyPass123"),
        true,
    )
    .unwrap();
    assert_eq!(prepared.first_name, "dummy");
    assert_eq!(prepared.last_name, "dummy_lastname");
    assert_eq!(prepared.email, "dummy@email.com");
    assert!(prepared.is_admin);
    assert_ne!(prepared.pass, "DummyPass123");
    assert_eq!(bcrypt::verify("DummyPass123", &prepared.pass).ok(), Some(true));
    assert_eq!(bcrypt::verify("DummyPass124", &prepared.pass).ok(), Some(false));
}

#[test]
fn a_sign_up_with_malformed_credentials() {
    assert_eq!(
        NewUser::prepare(
            String::from("dummy"),
            String::from("dummy_lastname"),
            String::from("dummy.com"),
            String::from("DummyPass123"),
            false
        ),
        Err(AppError::InvalidCredentials)
    );
    assert_eq!(
        NewUser::prepare(
            String::from("dummy"),
            String::from("dummy_lastname"),
            String::from("dummy2@email.com"),
            String::from("pwrd"),
            false
        ),
        Err(AppError::InvalidCredentials)
    );
    let mut library = Library::new();
    assert_eq!(
        NewUser::create_user(
            &mut library,
            String::from("dummy"),
            String::from("dummy_lastname"),
            String::from("dummy2@email.com"),
            String::from("pwrd"),
            false
        ),
        Err(AppError::InvalidCredentials)
    );
    assert_eq!(User::get_all_users(&mut library), Ok(vec![]));
}

#[test]
fn a_hash_or_its_failure_makes_the_row() {
    let made = NewUser::with_hash(
        String::from("dummy"),
        String::from("dummy_lastname"),
        String::from("dummy@email.com"),
        Ok(String::from("$2b$12$hash")),
        false,
    );
    assert_eq!(
        made,
        Ok(NewUser {
            first_name: String::from("dummy"),
            last_name: String::from("dummy_lastname"),
            email: String::from("dummy@email.com"),
            pass: String::from("$2b$12$hash"),
            is_admin: false,
        })
    );
    let failed = NewUser::with_hash(
        String::from("dummy"),
        String::from("dummy_lastname"),
        String::from("dummy@email.com"),
        Err(bcrypt::verify("secret", "not a hash").unwrap_err()),
        false,
    );
    assert_eq!(failed, Err(AppError::PasswordHashError));
}

#[test]
fn a_member_signs_up_once() {
    let (mut library, first) = library_with_member();
    let created = NewUser::create_user(
        &mut library,
        String::from("dummy"),
        String::from("dummy_lastname"),
        String::from("dummy@email.com"),
        String::from("DummyPass123"),
        false,
    )
    .unwrap();
    assert_eq!(created.id, "1");
    assert_eq!(created.email, "dummy@email.com");
    assert!(!created.is_deleted);
    assert_eq!(User::get_all_users(&mut library), Ok(vec![first, created]));
    assert_eq!(
        library.answer(&Query::InsertUser(member("dummy@email.com", "x"))),
        Reply::Failed(library_loans::custom_errors::app_error::StoreFault::DatabaseError)
    );
    assert_eq!(
        library.perform(Task::RegisterUser(member("dummy@email.com", "x"))),
        Err(AppError::UserCreationError)
    );
    assert_eq!(User::get_all_users(&mut library).unwrap().len(), 2);
}

#[test]
fn users_are_looked_up_and_deleted() {
    let (mut library, user) = library_with_member();
    assert_eq!(User::get_user_by_id(&mut library, &String::from("0")), Ok(Some(user.clone())));
    assert_eq!(User::get_user_by_id(&mut library, &String::from("1")), Ok(None));
    assert_eq!(
        User::delete_user(&mut library, String::from("977214ab-7889-4bb5-NEMA-96354579e4a5")),
        Err(AppError::NotFound)
    );
    assert_eq!(User::delete_user(&mut library, String::from("0")), Ok(1));
    assert_eq!(
        User::get_user_by_id(&mut library, &String::from("0")),
        Ok(Some(User { is_deleted: true, ..user }))
    );
    assert_eq!(User::delete_user(&mut library, String::from("0")), Ok(1));
}

#[test]
fn a_token_lives_as_long_as_it_is_set_to() {
    assert_eq!(DEFAULT_LIFETIME_SECONDS, 300);
    assert_eq!(lifetime_seconds(None), 300);
    assert_eq!(lifetime_seconds(Some("600")), 600);
    assert_eq!(lifetime_seconds(Some("-5")), -5);
    assert_eq!(lifetime_seconds(Some("+7")), 7);
    assert_eq!(lifetime_seconds(Some("ten minutes")), 300);
    assert_eq!(lifetime_seconds(Some("")), 300);
    assert_eq!(lifetime_seconds(Some(" 600")), 300);
    assert_eq!(lifetime_seconds(Some("9223372036854775808")), 300);
    assert_eq!(seconds_or_default(Some(12)), 12);
    assert_eq!(seconds_or_default(None), 300);
}

#[test]
fn claims_speak_of_their_user() {
    let (_, user) = library_with_member();
    let claims = generate(&user, 1_659_611_537, 300).unwrap();
    assert_eq!(
        claims,
        Claims {
            sub: String::from("0"),
            first_name: String::from("Ante"),
            last_name: String::from("Antic"),
            email: String::from("antisa@gmail.com"),
            pass: user.pass.clone(),
            is_admin: false,
            created_at: Timestamp::new(77),
            updated_at: Timestamp::new(77),
            exp: 1_659_611_837,
            iat: 1_659_611_537,
        }
    );
    assert!(!claims.is_expired(1_659_611_837));
    assert!(claims.is_expired(1_659_611_838));
    assert_eq!(User::create_user_from_jwt(&claims), user);
    assert_eq!(generate(&user, i64::MAX, 1), None);
    assert_eq!(generate(&user, i64::MIN, -1), None);
    assert_eq!(generate(&user, i64::MAX, 0).unwrap().exp, i64::MAX);
    let deleted = User { is_deleted: true, ..user.clone() };
    assert_eq!(User::create_user_from_jwt(&generate(&deleted, 0, 300).unwrap()), user);
}
