//! Users: the people who borrow.

use crate::calendar::Timestamp;
use crate::custom_errors::app_error::AppError;
use crate::library::Library;
use crate::tables::LibraryView;
use crate::models::authentication::auth::{bcrypt_hash, password_matches};
use crate::models::authentication::jwt::Claims;
use crate::text::trimmed;
use crate::validation::user_validation::{
    email_accepted, password_accepted, validate_email, validate_password,
};
use crate::workflow::{Outcome, Task};
use vstd::prelude::*;

verus! {

/// A user, as the store holds it.
#[derive(Debug, PartialEq, Eq)]
pub struct User {
    pub id: String,
    pub first_name: String,
    pub last_name: String,
    pub email: String,
    /// The hash of the password, never the password.
    pub pass: String,
    pub is_admin: bool,
    pub created_at: Timestamp,
    pub updated_at: Timestamp,
    pub is_deleted: bool,
}

/// What a `User` holds, as mathematical values.
pub struct UserView {
    pub id: Seq<char>,
    pub first_name: Seq<char>,
    pub last_name: Seq<char>,
    pub email: Seq<char>,
    pub pass: Seq<char>,
    pub is_admin: bool,
    pub created_at: Timestamp,
    pub updated_at: Timestamp,
    pub is_deleted: bool,
}

impl View for User {
    type V = UserView;

    open spec fn view(&self) -> UserView {
        UserView {
            id: self.id@,
            first_name: self.first_name@,
            last_name: self.last_name@,
            email: self.email@,
            pass: self.pass@,
            is_admin: self.is_admin,
            created_at: self.created_at,
            updated_at: self.updated_at,
            is_deleted: self.is_deleted,
        }
    }
}

impl DeepView for User {
    type V = UserView;

    open spec fn deep_view(&self) -> UserView {
        self@
    }
}

impl Clone for User {
    fn clone(&self) -> (copy: User)
        ensures
            copy == *self,
    {
        User {
            id: self.id.clone(),
            first_name: self.first_name.clone(),
            last_name: self.last_name.clone(),
            email: self.email.clone(),
            pass: self.pass.clone(),
            is_admin: self.is_admin,
            created_at: self.created_at,
            updated_at: self.updated_at,
            is_deleted: self.is_deleted,
        }
    }
}

/// What the store needs to create a user; `pass` is the hash already.
#[derive(Debug, PartialEq, Eq)]
pub struct NewUser {
    pub first_name: String,
    pub last_name: String,
    pub email: String,
    pub pass: String,
    pub is_admin: bool,
}

/// What a `NewUser` holds, as mathematical values.
pub struct NewUserView {
    pub first_name: Seq<char>,
    pub last_name: Seq<char>,
    pub email: Seq<char>,
    pub pass: Seq<char>,
    pub is_admin: bool,
}

impl View for NewUser {
    type V = NewUserView;

    open spec fn view(&self) -> NewUserView {
        NewUserView {
            first_name: self.first_name@,
            last_name: self.last_name@,
            email: self.email@,
            pass: self.pass@,
            is_admin: self.is_admin,
        }
    }
}

impl User {
    /// The user that the claims of a token speak of.
    pub fn create_user_from_jwt(claims: &Claims) -> (user: User)
        ensures
            user@ == claims.subject(),
    {
        User {
            id: claims.sub.clone(),
            first_name: claims.first_name.clone(),
            last_name: claims.last_name.clone(),
            email: claims.email.clone(),
            pass: claims.pass.clone(),
            is_admin: claims.is_admin,
            created_at: claims.created_at,
            updated_at: claims.updated_at,
            is_deleted: false,
        }
    }

    /// Every user, in the order they were created.
    pub fn get_all_users(store: &mut Library) -> (users: Result<Vec<User>, AppError>)
        ensures
            final(store)@ == old(store)@,
            users is Ok,
            users->Ok_0.deep_view() == old(store)@.users,
    {
        let result = store.perform(Task::ListUsers);
        proof {
            old(store)@.lemma_single_reads();
        }
        match result {
            Ok(Outcome::Users(users)) => Ok(users),
            Ok(_) => Err(AppError::InternalError),
            Err(error) => Err(error),
        }
    }

    /// The user with the id `id`, if there is one.
    pub fn get_user_by_id(store: &mut Library, id: &String) -> (user: Result<Option<User>, AppError>)
        ensures
            final(store)@ == old(store)@,
            user is Ok,
            user->Ok_0.deep_view() == old(store)@.get_user(id@),
    {
        let result = store.perform(Task::GetUser(id.clone()));
        proof {
            old(store)@.lemma_single_reads();
        }
        match result {
            Ok(Outcome::MaybeUser(user)) => Ok(user),
            Ok(_) => Err(AppError::InternalError),
            Err(error) => Err(error),
        }
    }

    /// Marks the user with the id `id` as deleted and says how many rows
    /// that changed; `NotFound` if there is no such user.
    pub fn delete_user(store: &mut Library, id: String) -> (deleted: Result<usize, AppError>)
        ensures
            final(store)@ == old(store)@.delete_user(id@).0,
            deleted == old(store)@.delete_user(id@).1,
            deleted is Ok <==> old(store)@.has_user(id@),
    {
        let ghost user_id = id@;
        let result = store.perform(Task::DeleteUser(id));
        proof {
            old(store)@.lemma_delete_user(user_id);
        }
        match result {
            Ok(Outcome::Count(count)) => Ok(count),
            Ok(_) => Err(AppError::InternalError),
            Err(error) => Err(error),
        }
    }
}

impl NewUser {
    /// What becomes of a sign-up once the password has been hashed, or could
    /// not be: the row to create, with the hash in place of the password.
    pub fn with_hash(
        first_name: String,
        last_name: String,
        email: String,
        hashed: Result<String, bcrypt::BcryptError>,
        is_admin: bool,
    ) -> (user: Result<NewUser, AppError>)
        ensures
            match hashed {
                Ok(hash) => user is Ok && user->Ok_0@ == (NewUserView {
                    first_name: first_name@,
                    last_name: last_name@,
                    email: email@,
                    pass: hash@,
                    is_admin,
                }),
                Err(_) => user == Err::<NewUser, AppError>(AppError::PasswordHashError),
            },
    {
        match hashed {
            Ok(hash) => Ok(NewUser { first_name, last_name, email, pass: hash, is_admin }),
            Err(_) => Err(AppError::PasswordHashError),
        }
    }

    /// Checks the credentials of a sign-up and hashes the password.
    ///
    /// Malformed credentials are `InvalidCredentials`. Otherwise the row to
    /// create comes back, with a hash that matches the password, unless the
    /// hashing itself failed, which is `PasswordHashError`.
    pub fn prepare(
        first_name: String,
        last_name: String,
        email: String,
        password: String,
        is_admin: bool,
    ) -> (user: Result<NewUser, AppError>)
        ensures
            user == Err::<NewUser, AppError>(AppError::InvalidCredentials) <==> !(email_accepted(
                trimmed(email@),
            ) && password_accepted(trimmed(password@))),
            user is Err ==> user->Err_0 == AppError::InvalidCredentials || user->Err_0
                == AppError::PasswordHashError,
            user is Ok ==> {
                &&& user->Ok_0.first_name@ == first_name@
                &&& user->Ok_0.last_name@ == last_name@
                &&& user->Ok_0.email@ == email@
                &&& user->Ok_0.is_admin == is_admin
                &&& password_matches(password@, user->Ok_0.pass@)
            },
    {
        let is_email_valid = validate_email(&email);
        let is_pass_valid = validate_password(&password);
        if !is_email_valid || !is_pass_valid {
            return Err(AppError::InvalidCredentials);
        }
        let hashed = bcrypt_hash(password.as_str());
        NewUser::with_hash(first_name, last_name, email, hashed, is_admin)
    }

    /// Signs a user up: checks the credentials, hashes the password and
    /// creates the row.
    ///
    /// Malformed credentials are `InvalidCredentials`, an e-mail address that
    /// is taken `UserCreationError`, a failure to hash `PasswordHashError`;
    /// in each case the store stays as it is. Otherwise the user comes back
    /// as the store holds it, with a hash that matches the password.
    pub fn create_user(
        store: &mut Library,
        first_name: String,
        last_name: String,
        email: String,
        password: String,
        is_admin: bool,
    ) -> (created: Result<User, AppError>)
        ensures
            created == Err::<User, AppError>(AppError::InvalidCredentials) <==> !(email_accepted(
                trimmed(email@),
            ) && password_accepted(trimmed(password@))),
            created == Err::<User, AppError>(AppError::UserCreationError) ==> old(store)@.has_email(
                email@,
            ),
            created is Err ==> final(store)@ == old(store)@ && (created->Err_0
                == AppError::InvalidCredentials || created->Err_0 == AppError::PasswordHashError
                || created->Err_0 == AppError::UserCreationError),
            created is Ok ==> {
                &&& !old(store)@.has_email(email@)
                &&& password_matches(password@, created->Ok_0.pass@)
                &&& created->Ok_0@ == old(store)@.fresh_user(
                    NewUserView {
                        first_name: first_name@,
                        last_name: last_name@,
                        email: email@,
                        pass: created->Ok_0.pass@,
                        is_admin,
                    },
                )
                &&& final(store)@ == (LibraryView {
                    users: old(store)@.users.push(created->Ok_0@),
                    ..old(store)@
                })
            },
    {
        let new_user = match NewUser::prepare(first_name, last_name, email, password, is_admin) {
            Ok(new_user) => new_user,
            Err(error) => {
                return Err(error);
            },
        };
        let ghost row = new_user@;
        let result = store.perform(Task::RegisterUser(new_user));
        proof {
            old(store)@.lemma_register(row);
        }
        match result {
            Ok(Outcome::User(user)) => Ok(user),
            Ok(_) => Err(AppError::InternalError),
            Err(error) => Err(error),
        }
    }
}

} // verus!
