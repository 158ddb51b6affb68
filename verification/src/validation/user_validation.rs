//! Checks on the credentials of a user.

use crate::library::Library;
use crate::text::{trim, trimmed};
use crate::workflow::{Outcome, Task};
use vstd::prelude::*;

verus! {

/// What the password rules read off a password.
#[derive(Clone, Copy, Debug, PartialEq, Eq, Structural)]
pub struct PasswordProfile {
    /// How many characters it has, control characters left out.
    pub length: usize,
    /// How many of them are capital letters `A` to `Z`.
    pub uppercase_letters_count: usize,
    /// How many of them are digits `0` to `9`.
    pub numbers_count: usize,
    /// How many of them are spaces.
    pub spaces_count: usize,
}

/// Whether `c` is a control character: below U+0020, or from U+007F to U+009F.
pub open spec fn is_control(c: char) -> bool {
    c as u32 <= 0x1f || 0x7f <= c as u32 <= 0x9f
}

/// How many characters of `text` are not control characters.
pub open spec fn visible_length(text: Seq<char>) -> nat
    decreases text.len(),
{
    if text.len() == 0 {
        0
    } else if is_control(text.last()) {
        visible_length(text.drop_last())
    } else {
        visible_length(text.drop_last()) + 1
    }
}

/// How many characters of `text` lie from `low` to `high`, both included.
pub open spec fn count_between(text: Seq<char>, low: char, high: char) -> nat
    decreases text.len(),
{
    if text.len() == 0 {
        0
    } else if low <= text.last() <= high {
        count_between(text.drop_last(), low, high) + 1
    } else {
        count_between(text.drop_last(), low, high)
    }
}

/// Whether `profile` holds the counts of `text`.
pub open spec fn profile_of(profile: PasswordProfile, text: Seq<char>) -> bool {
    &&& profile.length == visible_length(text)
    &&& profile.uppercase_letters_count == count_between(text, 'A', 'Z')
    &&& profile.numbers_count == count_between(text, '0', '9')
    &&& profile.spaces_count == count_between(text, ' ', ' ')
}

/// The password rule for signing in and signing up: at least eight
/// characters, a capital letter among them, and no space.
pub open spec fn password_accepted(text: Seq<char>) -> bool {
    &&& visible_length(text) >= 8
    &&& count_between(text, 'A', 'Z') > 0
    &&& count_between(text, ' ', ' ') == 0
}

/// Whether a text is an e-mail address in the sense of the HTML5 rule for
/// e-mail input fields.
pub uninterp spec fn email_accepted(address: Seq<char>) -> bool;

/// `passwords::analyzer::analyze`: it walks the password once, skips control
/// characters, and counts the characters it keeps, in all and by class. Of
/// its counts the profile takes the length and those of capital letters,
/// digits and spaces.
#[verifier::external_body]
pub(crate) fn analyze(password: &str) -> (profile: PasswordProfile)
    ensures
        profile_of(profile, password@),
{
    let analyzed = passwords::analyzer::analyze(password);
    PasswordProfile {
        length: analyzed.length(),
        uppercase_letters_count: analyzed.uppercase_letters_count(),
        numbers_count: analyzed.numbers_count(),
        spaces_count: analyzed.spaces_count(),
    }
}

/// `validator::validate_email`: it holds the text against the HTML5 rule
/// for e-mail input fields, and its verdict depends on the text alone.
#[verifier::external_body]
pub(crate) fn check_email(address: &str) -> (ok: bool)
    ensures
        ok == email_accepted(address@),
{
    validator::validate_email(address)
}

/// Whether the password is too short: fewer than eight characters.
pub fn check_password_length(a: &PasswordProfile) -> (short: bool)
    ensures
        short == (a.length < 8),
{
    a.length < 8
}

/// Whether the password lacks a capital letter.
pub fn check_uppercase(a: &PasswordProfile) -> (lacking: bool)
    ensures
        lacking == (a.uppercase_letters_count == 0),
{
    a.uppercase_letters_count == 0
}

/// Whether the password holds a space.
pub fn check_spaces(a: &PasswordProfile) -> (spaced: bool)
    ensures
        spaced == (a.spaces_count != 0),
{
    a.spaces_count != 0
}

/// Whether a password with this profile passes the rule.
pub fn profile_accepted(a: &PasswordProfile) -> (ok: bool)
    ensures
        ok == (a.length >= 8 && a.uppercase_letters_count > 0 && a.spaces_count == 0),
{
    let length = check_password_length(a);
    let uppercase = check_uppercase(a);
    let spaces = check_spaces(a);
    !(length || uppercase || spaces)
}

/// Whether `email`, without the white space around it, is an e-mail address.
pub fn validate_email(email: &String) -> (ok: bool)
    ensures
        ok == email_accepted(trimmed(email@)),
{
    check_email(trim(email.as_str()))
}

/// Whether `password`, without the white space around it, passes the rule.
pub fn validate_password(password: &String) -> (ok: bool)
    ensures
        ok == password_accepted(trimmed(password@)),
{
    let analyzed = analyze(trim(password.as_str()));
    profile_accepted(&analyzed)
}

/// Whether there is a user with the id `id`.
pub fn user_exists(store: &mut Library, id: &String) -> (exists: bool)
    ensures
        final(store)@ == old(store)@,
        exists == old(store)@.has_user(id@),
{
    let result = store.perform(Task::UserExists(id.clone()));
    proof {
        old(store)@.lemma_single_reads();
    }
    match result {
        Ok(Outcome::Flag(exists)) => exists,
        _ => false,
    }
}

} // verus!
