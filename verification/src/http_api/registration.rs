//! Registering: whether a name is available, and what a failed registration
//! is answered with.

use vstd::prelude::*;

use crate::clock::Timestamp;
use crate::data::registration::TokenVerError;
use crate::data::password::Password;
use crate::data::users::{valid_user_name, CreateUserError, CLIENT_KEY_LEN};
use crate::data::{Data, DataView};
use crate::text::{nfc_form, nfc_text};

verus! {

/// Verifies whether the given token is a valid registration token at the
/// time `now`. A token that cannot be checked is not valid.
pub fn verify_token(data: &Data, token: &str, now: Timestamp) -> (valid: bool)
    ensures
        valid == (data@.token_validity(token@, now) == Ok::<bool, TokenVerError>(true)),
{
    match data.verify_registration_token_at(token, now) {
        Ok(valid) => valid,
        Err(_) => false,
    }
}

/// The error that tells why a name is not available, or the empty text
/// where it is: the name has to be valid, the token has to be valid, and the
/// name has to be free, in this order.
pub open spec fn name_availability(d: DataView, token: Seq<char>, name: Seq<char>, now: Timestamp) ->
    Seq<char> {
    if !valid_user_name(name) {
        "invalid_name"@
    } else if d.token_validity(token, now) != Ok::<bool, TokenVerError>(true) {
        "invalid_token"@
    } else if d.is_user_name_taken(name) {
        "name_taken"@
    } else {
        ""@
    }
}

/// Whether a name is available to the holder of a registration token, with
/// the error that tells why it is not.
pub fn is_name_available(data: &Data, token: &str, name: &str, now: Timestamp) -> (res: (
    bool,
    &'static str,
))
    ensures
        res.1@ == name_availability(data@, token@, name@, now),
        res.0 == (res.1@.len() == 0),
{
    proof {
        reveal_strlit("");
        reveal_strlit("invalid_name");
        reveal_strlit("invalid_token");
        reveal_strlit("name_taken");
    }
    if !data.is_valid_user_name(name) {
        return (false, "invalid_name");
    }
    if !verify_token(data, token, now) {
        return (false, "invalid_token");
    }
    match data.is_user_name_taken(name) {
        Ok(false) => (true, ""),
        _ => (false, "name_taken"),
    }
}

/// The error that a failed registration is answered with.
pub fn registration_error(e: CreateUserError) -> (code: &'static str)
    ensures
        code@ == match e {
            CreateUserError::InvalidName => "invalid_name"@,
            CreateUserError::NameTaken => "name_taken"@,
            CreateUserError::PasswordDerivationError => "internal_error"@,
            CreateUserError::Data(_) => "internal_error"@,
        },
{
    match e {
        CreateUserError::InvalidName => "invalid_name",
        CreateUserError::NameTaken => "name_taken",
        CreateUserError::PasswordDerivationError => "internal_error",
        CreateUserError::Data(_) => "internal_error",
    }
}

/// The error that refuses a registration before a user is made: the token
/// has to be valid, the name has to be valid, and the name has to be free,
/// in this order.
pub open spec fn registration_refusal(
    d: DataView,
    token: Seq<char>,
    name: Seq<char>,
    now: Timestamp,
) -> Seq<char> {
    if d.token_validity(token, now) != Ok::<bool, TokenVerError>(true) {
        "invalid_token"@
    } else if !valid_user_name(name) {
        "invalid_name"@
    } else {
        "name_taken"@
    }
}

/// Whether `after` is the store that a registration leaves: the store with
/// the new user, without the token.
pub open spec fn registered(
    inserted: Result<DataView, CreateUserError>,
    token: Seq<char>,
    after: DataView,
) -> bool {
    match inserted {
        Ok(store) => after == store.without_registration_token(token),
        Err(_) => false,
    }
}

/// Registers a user with a registration token at the time `now`, and uses
/// the token up. The user gets the name in its normalization form C.
/// Without a valid token nothing happens, and nothing happens where the
/// user cannot be created: the error names the reason.
pub fn register(
    data: &mut Data,
    token: &str,
    name: &str,
    password: &str,
    secret_key: &str,
    now: Timestamp,
) -> (res: Result<(), &'static str>)
    ensures
        old(data)@.well_formed() ==> final(data)@.well_formed(),
        res is Err ==> final(data)@ == old(data)@,
        name_availability(old(data)@, token@, nfc_form(name@), now).len() > 0 ==> (
        res matches Err(code) && code@ == registration_refusal(
            old(data)@,
            token@,
            nfc_form(name@),
            now,
        )),
        name_availability(old(data)@, token@, nfc_form(name@), now).len() == 0 ==> (
        res matches Err(code) ==> code@ == "internal_error"@),
        res is Ok ==> exists|verifier: Password, client_key: Seq<u8>|
            verifier.accepts(password@) && client_key.len() == CLIENT_KEY_LEN && registered(
                #[trigger] old(data)@.insert_user_result(
                    nfc_form(name@),
                    Password::stored_text(verifier.derived_key@, verifier.salt@),
                    secret_key@,
                    client_key,
                ),
                token@,
                final(data)@,
            ),
{
    proof {
        reveal_strlit("");
        reveal_strlit("invalid_name");
        reveal_strlit("invalid_token");
        reveal_strlit("name_taken");
        reveal_strlit("internal_error");
    }
    if !verify_token(data, token, now) {
        return Err("invalid_token");
    }
    let name = nfc_text(name);
    match data.create_user(name.as_str(), password, secret_key) {
        Ok(()) => {
            let _ = data.delete_registration_token(token);
            Ok(())
        },
        Err(e) => Err(registration_error(e)),
    }
}

} // verus!
