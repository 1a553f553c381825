//! Registration tokens: one-shot tokens that allow a registration until
//! their deadline.

use vstd::prelude::*;

use crate::clock::{current_time, parse_rfc3339, rfc3339_time, Timestamp};
use crate::data::models::{views, RegistrationToken, RegistrationTokenView};
use crate::data::table::{find_first, first_where, retain};
use crate::data::{take_rows, Data, DataError, DataView};
use crate::text::{copy_str, str_eq};

verus! {

/// Why a registration token could not be checked.
#[derive(Debug, Clone, Copy, PartialEq, Eq, Structural)]
pub enum TokenVerError {
    Data(DataError),
    InvalidDateFormat,
}

/// A token is valid at `now` when a whole second or more is left until its
/// deadline.
pub open spec fn deadline_ahead(valid_until: Timestamp, now: Timestamp) -> bool {
    now.whole_secs_since(valid_until) < 0
}

/// Whether a whole second or more is left from `now` until `valid_until`.
pub fn is_deadline_ahead(valid_until: Timestamp, now: Timestamp) -> (ahead: bool)
    ensures
        ahead == deadline_ahead(valid_until, now),
{
    now.secs_since(valid_until) < 0
}

impl DataView {
    /// The registration token `token`: the first such row.
    pub open spec fn registration_token(self, token: Seq<char>) -> Option<RegistrationTokenView> {
        first_where(self.registration_tokens, |t: RegistrationTokenView| t.token == token)
    }

    /// Whether the registration token `token` is valid at `now`, or the
    /// reason why that cannot be told: a token that the store does not hold
    /// is not valid; one whose deadline is no RFC 3339 date is an error.
    pub open spec fn token_validity(self, token: Seq<char>, now: Timestamp) -> Result<
        bool,
        TokenVerError,
    > {
        match self.registration_token(token) {
            Some(row) => match rfc3339_time(row.valid_until) {
                Some(valid_until) => Ok(deadline_ahead(valid_until, now)),
                None => Err(TokenVerError::InvalidDateFormat),
            },
            None => Ok(false),
        }
    }

    /// The store without the registration token `token`.
    pub open spec fn without_registration_token(self, token: Seq<char>) -> DataView {
        DataView {
            registration_tokens: self.registration_tokens.filter(
                |t: RegistrationTokenView| t.token != token,
            ),
            ..self
        }
    }

    /// The store with the registration token `token`, valid until
    /// `valid_until`, added.
    pub open spec fn with_registration_token(self, token: Seq<char>, valid_until: Seq<char>) ->
        DataView {
        DataView {
            registration_tokens: self.registration_tokens.push(
                RegistrationTokenView { token, valid_until },
            ),
            ..self
        }
    }
}

impl Data {
    /// Returns the registration token if available.
    pub fn registration_token(&self, token: &str) -> (res: Result<
        Option<RegistrationToken>,
        DataError,
    >)
        ensures
            res matches Ok(found) && match (found, self@.registration_token(token@)) {
                (Some(row), Some(view)) => row@ == view,
                (None, None) => true,
                _ => false,
            },
    {
        let ghost pred = |t: RegistrationTokenView| t.token == token@;
        let found = |t: &RegistrationToken| -> (b: bool)
            ensures
                b == pred(t@),
            { str_eq(t.token.as_str(), token) };
        match find_first(&self.registration_tokens, found, Ghost(pred)) {
            Some(i) => Ok(Some(self.registration_tokens[i].copy())),
            None => Ok(None),
        }
    }

    /// Deletes the registration token, if it exists.
    pub fn delete_registration_token(&mut self, token: &str) -> (res: Result<(), DataError>)
        ensures
            old(self)@.well_formed() ==> final(self)@.well_formed(),
            res is Ok,
            final(self)@ == old(self)@.without_registration_token(token@),
    {
        let ghost pred = |t: RegistrationTokenView| t.token != token@;
        let keep = |t: &RegistrationToken| -> (b: bool)
            ensures
                b == pred(t@),
            { !str_eq(t.token.as_str(), token) };
        let rows = take_rows(&mut self.registration_tokens);
        self.registration_tokens = retain(rows, keep, Ghost(pred));
        proof {
            assert(self@ =~~= old(self)@.without_registration_token(token@));
        }
        Ok(())
    }

    /// Returns true if the registration token is valid at the time `now`.
    pub fn verify_registration_token_at(&self, token: &str, now: Timestamp) -> (res: Result<
        bool,
        TokenVerError,
    >)
        ensures
            res == self@.token_validity(token@, now),
    {
        let row = match self.registration_token(token) {
            Ok(Some(row)) => row,
            Ok(None) => {
                return Ok(false);
            },
            Err(e) => {
                return Err(TokenVerError::Data(e));
            },
        };
        match parse_rfc3339(row.valid_until.as_str()) {
            Some(valid_until) => Ok(is_deadline_ahead(valid_until, now)),
            None => Err(TokenVerError::InvalidDateFormat),
        }
    }

    /// Returns true if the registration token is valid now: at some time
    /// during the call.
    pub fn verify_registration_token(&self, token: &str) -> (res: Result<bool, TokenVerError>)
        ensures
            exists|now: Timestamp| res == #[trigger] self@.token_validity(token@, now),
    {
        let now = current_time();
        let res = self.verify_registration_token_at(token, now);
        assert(res == self@.token_validity(token@, now));
        res
    }

    /// Adds a registration token that is valid until `valid_until`, an RFC
    /// 3339 date.
    pub fn create_registration_token(&mut self, token: &str, valid_until: &str) -> (res: Result<
        (),
        DataError,
    >)
        ensures
            old(self)@.well_formed() ==> final(self)@.well_formed(),
            res is Ok,
            final(self)@ == old(self)@.with_registration_token(token@, valid_until@),
    {
        let ghost before = self.registration_tokens@;
        self.registration_tokens.push(
            RegistrationToken { token: copy_str(token), valid_until: copy_str(valid_until) },
        );
        proof {
            assert(views(self.registration_tokens@) =~= views(before).push(
                RegistrationTokenView { token: token@, valid_until: valid_until@ },
            ));
            assert(self@ =~~= old(self)@.with_registration_token(token@, valid_until@));
        }
        Ok(())
    }
}

} // verus!
