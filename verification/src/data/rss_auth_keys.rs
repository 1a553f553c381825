//! Keys that grant read-only access to the sources of one user.

use vstd::prelude::*;

use crate::data::models::{views, RssAuthKeyView};
use crate::data::table::{find_first, first_where, picked, retain, select};
use crate::data::users::UserId;
use crate::data::{models, take_rows, Data, DataError, DataView};
use crate::text::{copy_str, opt_str_text, own_opt_str, str_eq};

verus! {

/// A key, as it was when it was read.
#[derive(Debug)]
pub struct RssAuthKey {
    model: models::RssAuthKey,
}

impl View for RssAuthKey {
    type V = RssAuthKeyView;

    closed spec fn view(&self) -> RssAuthKeyView {
        self.model@
    }
}

impl RssAuthKey {
    pub fn from(model: models::RssAuthKey) -> (key: RssAuthKey)
        ensures
            key@ == model@,
    {
        RssAuthKey { model }
    }

    pub fn user_id(&self) -> (user: UserId)
        ensures
            user == self@.user_id,
    {
        self.model.user_id
    }

    pub fn label(&self) -> (label: Option<&str>)
        ensures
            opt_str_text(label) == self@.label,
    {
        match &self.model.label {
            Some(s) => Some(s.as_str()),
            None => None,
        }
    }

    pub fn auth_key(&self) -> (key: &str)
        ensures
            key@ == self@.auth_key,
    {
        self.model.auth_key.as_str()
    }
}

/// The row of a new key.
pub open spec fn new_rss_auth_key(user: UserId, auth_key: Seq<char>, label: Option<Seq<char>>) ->
    RssAuthKeyView {
    RssAuthKeyView { id: None, user_id: user, label, auth_key, tokens: 0 }
}

impl DataView {
    /// The key `key`: the first such row.
    pub open spec fn rss_auth_key(self, key: Seq<char>) -> Option<RssAuthKeyView> {
        first_where(self.user_rss_auth_keys, |k: RssAuthKeyView| k.auth_key == key)
    }

    /// The keys of `user`, in the order in which they were made.
    pub open spec fn user_rss_auth_keys(self, user: UserId) -> Seq<RssAuthKeyView> {
        picked(
            self.user_rss_auth_keys,
            |k: RssAuthKeyView|
                if k.user_id == user {
                    Some(k)
                } else {
                    None
                },
        )
    }

    /// The store with a key of `user` added.
    pub open spec fn with_rss_auth_key(
        self,
        user: UserId,
        auth_key: Seq<char>,
        label: Option<Seq<char>>,
    ) -> DataView {
        DataView {
            user_rss_auth_keys: self.user_rss_auth_keys.push(
                new_rss_auth_key(user, auth_key, label),
            ),
            ..self
        }
    }

    /// The store without the key `auth_key` of `user`.
    pub open spec fn without_rss_auth_key(self, user: UserId, auth_key: Seq<char>) -> DataView {
        DataView {
            user_rss_auth_keys: self.user_rss_auth_keys.filter(
                |k: RssAuthKeyView| !(k.user_id == user && k.auth_key == auth_key),
            ),
            ..self
        }
    }
}

impl Data {
    pub fn rss_auth_key(&self, key: &str) -> (res: Result<Option<RssAuthKey>, DataError>)
        ensures
            res matches Ok(found) && match (found, self@.rss_auth_key(key@)) {
                (Some(k), Some(row)) => k@ == row,
                (None, None) => true,
                _ => false,
            },
    {
        let ghost pred = |k: RssAuthKeyView| k.auth_key == key@;
        let found = |k: &models::RssAuthKey| -> (b: bool)
            ensures
                b == pred(k@),
            { str_eq(k.auth_key.as_str(), key) };
        match find_first(&self.user_rss_auth_keys, found, Ghost(pred)) {
            Some(i) => Ok(Some(RssAuthKey::from(self.user_rss_auth_keys[i].copy()))),
            None => Ok(None),
        }
    }

    pub fn user_rss_auth_keys(&self, user_id: UserId) -> (res: Result<Vec<RssAuthKey>, DataError>)
        ensures
            res matches Ok(keys) && views(keys@) == self@.user_rss_auth_keys(user_id),
    {
        let ghost chosen = |k: RssAuthKeyView|
            if k.user_id == user_id {
                Some(k)
            } else {
                None
            };
        let pick = |k: &models::RssAuthKey| -> (u: Option<RssAuthKey>)
            ensures
                match (u, chosen(k@)) {
                    (Some(a), Some(b)) => a@ == b,
                    (None, None) => true,
                    _ => false,
                },
            {
                if k.user_id == user_id {
                    Some(RssAuthKey::from(k.copy()))
                } else {
                    None
                }
            };
        Ok(select(&self.user_rss_auth_keys, pick, Ghost(chosen)))
    }

    pub fn user_create_rss_auth_key(
        &mut self,
        user_id: UserId,
        auth_key: &str,
        label: Option<&str>,
    ) -> (res: Result<(), DataError>)
        ensures
            old(self)@.well_formed() ==> final(self)@.well_formed(),
            res is Ok,
            final(self)@ == old(self)@.with_rss_auth_key(user_id, auth_key@, opt_str_text(label)),
    {
        let ghost before = self.user_rss_auth_keys@;
        self.user_rss_auth_keys.push(
            models::RssAuthKey {
                id: None,
                user_id,
                label: own_opt_str(label),
                auth_key: copy_str(auth_key),
                tokens: 0,
            },
        );
        proof {
            assert(views(self.user_rss_auth_keys@) =~= views(before).push(
                new_rss_auth_key(user_id, auth_key@, opt_str_text(label)),
            ));
            assert(self@ =~~= old(self)@.with_rss_auth_key(
                user_id,
                auth_key@,
                opt_str_text(label),
            ));
        }
        Ok(())
    }

    pub fn user_delete_rss_auth_key(&mut self, user_id: UserId, auth_key: &str) -> (res: Result<
        (),
        DataError,
    >)
        ensures
            old(self)@.well_formed() ==> final(self)@.well_formed(),
            res is Ok,
            final(self)@ == old(self)@.without_rss_auth_key(user_id, auth_key@),
    {
        let ghost pred = |k: RssAuthKeyView| !(k.user_id == user_id && k.auth_key == auth_key@);
        let keep = |k: &models::RssAuthKey| -> (b: bool)
            ensures
                b == pred(k@),
            { !(k.user_id == user_id && str_eq(k.auth_key.as_str(), auth_key)) };
        let rows = take_rows(&mut self.user_rss_auth_keys);
        self.user_rss_auth_keys = retain(rows, keep, Ghost(pred));
        proof {
            assert(self@ =~~= old(self)@.without_rss_auth_key(user_id, auth_key@));
        }
        Ok(())
    }
}

} // verus!
