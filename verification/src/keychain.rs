//! API keys in the operating system's credential store, one entry per
//! provider under this application's service name.

use vstd::prelude::*;
use crate::text::prefixed;

verus! {

/// `keyring::Entry`, one entry of the credential store. Nothing is known of
/// what is inside one.
#[verifier::external_type_specification]
#[verifier::external_body]
pub struct ExEntry(keyring::Entry);

/// `keyring::Error`, the failure of an operation on the credential store.
/// It is only ever put into words.
#[verifier::external_type_specification]
#[verifier::external_body]
pub struct ExKeyringError(keyring::Error);

/// `keyring::Entry::new` names an entry of the default credential store by
/// service and user. Whether the store accepts the two names is its own
/// affair, so nothing is claimed of the result. The call panics only where
/// the lock that guards the store's builder has been poisoned by a panic
/// elsewhere.
pub assume_specification[ keyring::Entry::new ](service: &str, user: &str) -> (r: Result<
    keyring::Entry,
    keyring::Error,
>)
;

/// `keyring::Entry::set_password` saves a password under the entry. The
/// outcome lies with the credential store.
pub assume_specification[ keyring::Entry::set_password ](
    entry: &keyring::Entry,
    password: &str,
) -> (r: Result<(), keyring::Error>)
;

/// `keyring::Entry::get_password` reads the password saved under the entry.
/// What comes back is whatever the credential store holds at that moment.
pub assume_specification[ keyring::Entry::get_password ](entry: &keyring::Entry) -> (r: Result<
    String,
    keyring::Error,
>)
;

/// `keyring::Entry::delete_credential` removes the entry's credential from
/// the store. The outcome lies with the credential store.
pub assume_specification[ keyring::Entry::delete_credential ](entry: &keyring::Entry) -> (r: Result<
    (),
    keyring::Error,
>)
;

/// Renders a `keyring::Error` through its `Display` impl.
#[verifier::external_body]
fn error_text(error: &keyring::Error) -> (text: String) {
    format!("{}", error)
}

/// The service name under which every key of this application is filed.
pub fn service_name() -> (r: &'static str)
    ensures
        r@ == "scrivano"@,
{
    "scrivano"
}

/// The message of a failure to name the entry.
pub open spec fn entry_failure(detail: Seq<char>) -> Seq<char> {
    "Failed to create keychain entry: "@ + detail
}

/// The message of a failure to store a key.
pub open spec fn store_failure(detail: Seq<char>) -> Seq<char> {
    "Failed to store API key in keychain: "@ + detail
}

/// The message of a failure to delete a key.
pub open spec fn delete_failure(detail: Seq<char>) -> Seq<char> {
    "Failed to delete API key from keychain: "@ + detail
}

/// Puts the failure of a step on the credential store into words, and
/// leaves its success as it is.
fn in_words<T>(outcome: Result<T, keyring::Error>) -> (r: Result<T, String>)
    ensures
        outcome matches Ok(value) ==> r == Ok::<T, String>(value),
        outcome is Err ==> r is Err,
{
    match outcome {
        Ok(value) => Ok(value),
        Err(error) => Err(error_text(&error)),
    }
}

/// What a step on the credential store comes to once its failure has been
/// put into words: a success stays as it is, and the words of a failure are
/// introduced by `failure`, which says which step it was.
pub fn explain<T>(outcome: Result<T, String>, failure: &str) -> (r: Result<T, String>)
    ensures
        outcome matches Ok(value) ==> r == Ok::<T, String>(value),
        outcome matches Err(detail) ==> (r matches Err(message) && message@ == failure@
            + detail@),
{
    match outcome {
        Ok(value) => Ok(value),
        Err(detail) => Err(prefixed(failure, detail.as_str())),
    }
}

/// The key that a read of the credential store yields: the key where one
/// was read, none where the read failed, whatever the reason.
pub fn key_if_read(read: Result<String, String>) -> (key: Option<String>)
    ensures
        read matches Ok(found) ==> key == Some(found),
        read is Err ==> key is None,
{
    match read {
        Ok(found) => Some(found),
        Err(_) => None,
    }
}

/// Opens the entry of `provider`, with the failure put into words.
fn get_entry(provider: &str) -> (r: Result<keyring::Entry, String>)
    ensures
        r is Err ==> exists|detail: Seq<char>| r->Err_0@ == entry_failure(detail),
{
    let opened = in_words(keyring::Entry::new(service_name(), provider));
    let r = explain(opened, "Failed to create keychain entry: ");
    proof {
        if opened is Err {
            assert(r->Err_0@ == entry_failure(opened->Err_0@));
        }
    }
    r
}

/// Saves `api_key` as the key of `provider`, replacing the one that was
/// there. A failure says which step failed and why.
pub fn store_api_key(provider: &str, api_key: &str) -> (r: Result<(), String>)
    ensures
        r is Err ==> exists|detail: Seq<char>|
            r->Err_0@ == entry_failure(detail) || r->Err_0@ == store_failure(detail),
{
    let entry = match get_entry(provider) {
        Ok(entry) => entry,
        Err(message) => {
            return Err(message);
        },
    };
    let stored = in_words(entry.set_password(api_key));
    let r = explain(stored, "Failed to store API key in keychain: ");
    proof {
        if stored is Err {
            assert(r->Err_0@ == store_failure(stored->Err_0@));
        }
    }
    r
}

/// The key saved for `provider`, or `None` where there is none or the store
/// cannot be read.
pub fn get_api_key(provider: &str) -> (r: Option<String>) {
    match get_entry(provider) {
        Ok(entry) => key_if_read(in_words(entry.get_password())),
        Err(message) => key_if_read(Err(message)),
    }
}

/// Removes the key of `provider`. A failure says which step failed and why.
pub fn delete_api_key(provider: &str) -> (r: Result<(), String>)
    ensures
        r is Err ==> exists|detail: Seq<char>|
            r->Err_0@ == entry_failure(detail) || r->Err_0@ == delete_failure(detail),
{
    let entry = match get_entry(provider) {
        Ok(entry) => entry,
        Err(message) => {
            return Err(message);
        },
    };
    let deleted = in_words(entry.delete_credential());
    let r = explain(deleted, "Failed to delete API key from keychain: ");
    proof {
        if deleted is Err {
            assert(r->Err_0@ == delete_failure(deleted->Err_0@));
        }
    }
    r
}

/// Whether a key is saved for `provider` and can be read.
pub fn has_api_key(provider: &str) -> (r: bool) {
    get_api_key(provider).is_some()
}

} // verus!
