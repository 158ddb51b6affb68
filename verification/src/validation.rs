//! The checks that guard each operation: on the shape of a field, and on
//! what the store holds.

pub mod book_validation;
pub mod loan_validation;
pub mod user_validation;

use crate::text::{trim, trimmed};
use crate::validation::user_validation::{
    analyze, check_email, count_between, email_accepted, visible_length,
};
use vstd::prelude::*;

verus! {

/// The strict password rule: at least eight characters, a capital letter and
/// a digit among them, and no space.
pub open spec fn strong_password(text: Seq<char>) -> bool {
    &&& visible_length(text) >= 8
    &&& count_between(text, 'A', 'Z') > 0
    &&& count_between(text, '0', '9') > 0
    &&& count_between(text, ' ', ' ') == 0
}

/// Whether `email`, without the white space around it, is an e-mail address.
pub fn validate_email(email: &String) -> (ok: bool)
    ensures
        ok == email_accepted(trimmed(email@)),
{
    check_email(trim(email.as_str()))
}

/// Whether `password`, without the white space around it, meets the strict rule.
pub fn validate_password(password: &String) -> (ok: bool)
    ensures
        ok == strong_password(trimmed(password@)),
{
    let analyzed = analyze(trim(password.as_str()));
    if analyzed.length < 8 || analyzed.uppercase_letters_count == 0 || analyzed.numbers_count == 0
        || analyzed.spaces_count != 0 {
        return false;
    }
    true
}

/// Whether no author was given.
pub fn is_book_author_empty(author: &String) -> (empty: bool)
    ensures
        empty == (author@.len() == 0),
{
    author.as_str().is_empty()
}

} // verus!
