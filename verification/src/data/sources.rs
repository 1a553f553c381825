//! Versions of sources and items, the pointers of users to them, and
//! subscriptions.

use vstd::prelude::*;

use vstd::utf8::encode_utf8;

use crate::bytes::{bytes_before, bytes_lt};
use crate::data::validity::{
    lemma_created_versions_stay_unique, lemma_deleting_stays_unique,
    lemma_item_version_stays_unique, lemma_pointers_stay_unique, lemma_subscriptions_stay_unique,
};
use crate::data::encoding::{
    date_encodable, decode_items, decode_tags, decoded_items, decoded_tags, encode_item_data,
    encode_items, encode_metadata, encoded_items, encoded_metadata, get_source_hash,
    get_source_item_hash, item_hash, items_encodable, source_hash,
};
use crate::data::models::{
    views, AssociatedItem, AssociatedItemView, ResourceDependency, ResourceDependencyView,
    SourceItemVersion, SourceItemVersionView, SourceResource, SourceResourceView,
    SourceSubscription, SourceSubscriptionView, SourceVersion, SourceVersionView, UserSource,
    UserSourceItem, UserSourceItemView, UserSourceView,
};
use crate::gzip::{gzip_compress, gzip_content, gzip_decompress};
use crate::hash::DIGEST_LEN;
use crate::msgpack::DecodeError;
use crate::data::table::{
    any_where, change_each, each_changed, find_first, first_where, lemma_first_index, picked,
    retain, select,
};
use crate::data::users::UserId;
use crate::data::{take_rows, Data, DataError, DataView};
use crate::session::protocol::{Event, EventView, UpdateType};
use crate::session::users::{
    dispatch_to, DispatchUserEvent, DispatchView, SessionId, UserMgrDispatchEvent,
};
use crate::text::{copy_bytes, copy_str, opt_str_text, opt_text, own_opt_str, str_eq};
use crate::uri::{
    canonical_uri, canonicalize_uri, is_valid_uri, join_scheme_and_path, parse_url,
    scheme_and_path, url_parts,
};

verus! {

/// Why a version was not created.
#[derive(Debug)]
pub enum CreateVersionError {
    InvalidUri,
    /// The content is too long to encode.
    Encode,
    /// The content could not be compressed.
    IoError,
    Data(DataError),
}

/// Why a subscription was not added or removed.
#[derive(Debug)]
pub enum SubscribeError {
    InvalidUri,
    /// The user is subscribed already, or is not subscribed.
    AlreadyInState,
    Data(DataError),
}

/// The metadata of a source.
#[derive(Debug, Clone)]
pub struct SourceMetadata {
    /// The map of tags, encoded.
    pub tags: Vec<u8>,
}

/// One entry of a source's item list.
#[derive(Debug, Clone)]
pub struct SourceMetaItem {
    pub path: String,
    /// A virtual item has no content of its own to fetch.
    pub is_virtual: bool,
    /// The map of tags, encoded.
    pub tags: Vec<u8>,
}

/// What a `SourceMetaItem` holds.
pub struct SourceMetaItemView {
    pub path: Seq<char>,
    pub is_virtual: bool,
    pub tags: Seq<u8>,
}

impl View for SourceMetaItem {
    type V = SourceMetaItemView;

    open spec fn view(&self) -> SourceMetaItemView {
        SourceMetaItemView { path: self.path@, is_virtual: self.is_virtual, tags: self.tags@ }
    }
}

pub type SourceItems = Vec<SourceMetaItem>;

/// The content of a source item.
#[derive(Debug, Clone)]
pub struct SourceItemData {
    /// The map of tags, encoded.
    pub tags: Vec<u8>,
}


impl DataView {
    /// Whether `user` is subscribed to the source at `uri`.
    pub open spec fn is_subscribed(self, user: UserId, uri: Seq<char>) -> bool {
        any_where(
            self.user_source_subscriptions,
            |r: SourceSubscriptionView| r.user_id == user && r.uri == uri,
        )
    }

    /// The store with a subscription of `user` to the source at `uri` added.
    pub open spec fn subscribe(self, user: UserId, uri: Seq<char>) -> DataView {
        DataView {
            user_source_subscriptions: self.user_source_subscriptions.push(
                SourceSubscriptionView { user_id: user, uri },
            ),
            ..self
        }
    }

    /// The store without a subscription of `user` to the source at `uri`.
    pub open spec fn unsubscribe(self, user: UserId, uri: Seq<char>) -> DataView {
        DataView {
            user_source_subscriptions: self.user_source_subscriptions.filter(
                |r: SourceSubscriptionView| !(r.user_id == user && r.uri == uri),
            ),
            ..self
        }
    }

    /// The URIs of the sources that `user` is subscribed to, in the order in
    /// which the user subscribed.
    pub open spec fn subscriptions_of(self, user: UserId) -> Seq<Seq<char>> {
        picked(
            self.user_source_subscriptions,
            |r: SourceSubscriptionView|
                if r.user_id == user {
                    Some(r.uri)
                } else {
                    None
                },
        )
    }

    /// The users that are subscribed to the source at `uri`, in the order in
    /// which they subscribed.
    pub open spec fn subscribers_of_source(self, uri: Seq<char>) -> Seq<UserId> {
        picked(
            self.user_source_subscriptions,
            |r: SourceSubscriptionView|
                if r.uri == uri {
                    Some(r.user_id)
                } else {
                    None
                },
        )
    }

    /// The URI of every subscription, one entry for each subscription.
    pub open spec fn all_subscribed_sources(self) -> Seq<Seq<char>> {
        picked(self.user_source_subscriptions, |r: SourceSubscriptionView| Some(r.uri))
    }

    /// Whether some version of the source at `source_uri` lists the item at
    /// `item_uri`.
    pub open spec fn lists_item(self, source_uri: Seq<char>, item_uri: Seq<char>) -> bool {
        any_where(
            self.source_version_associated_items,
            |a: AssociatedItemView| a.item_uri == item_uri && a.source_uri == source_uri,
        )
    }

    /// The users that are subscribed to a source that lists the item at
    /// `item_uri`, one entry for each such subscription.
    pub open spec fn subscribers_of_item(self, item_uri: Seq<char>) -> Seq<UserId> {
        picked(
            self.user_source_subscriptions,
            |r: SourceSubscriptionView|
                if self.lists_item(r.uri, item_uri) {
                    Some(r.user_id)
                } else {
                    None
                },
        )
    }

    /// Whether `user` points at a version of the item at `item_uri`.
    pub open spec fn has_item_version(self, user: UserId, item_uri: Seq<char>) -> bool {
        any_where(
            self.user_source_items,
            |p: UserSourceItemView|
                p.uri == item_uri && p.version_hash is Some && p.user_id == user,
        )
    }

    /// Whether a user who is subscribed to the source at `source_uri` points
    /// at no version of the item at `item_uri`.
    pub open spec fn item_has_versionless_user(
        self,
        source_uri: Seq<char>,
        item_uri: Seq<char>,
    ) -> bool {
        any_where(
            self.user_source_subscriptions,
            |r: SourceSubscriptionView|
                r.uri == source_uri && !self.has_item_version(r.user_id, item_uri),
        )
    }

    /// What subscribing `user` to the source at `uri` comes to: the new store,
    /// or the reason why nothing changes.
    pub open spec fn subscribe_result(self, user: UserId, uri: Seq<char>) -> Result<
        DataView,
        SubscribeFailure,
    > {
        if url_parts(uri) is None {
            Err(SubscribeFailure::InvalidUri)
        } else if self.is_subscribed(user, uri) {
            Err(SubscribeFailure::AlreadyInState)
        } else {
            Ok(self.subscribe(user, uri))
        }
    }

    /// What unsubscribing `user` from the source at `uri` comes to: the new
    /// store, or the reason why nothing changes.
    pub open spec fn unsubscribe_result(self, user: UserId, uri: Seq<char>) -> Result<
        DataView,
        SubscribeFailure,
    > {
        if url_parts(uri) is None {
            Err(SubscribeFailure::InvalidUri)
        } else if !self.is_subscribed(user, uri) {
            Err(SubscribeFailure::AlreadyInState)
        } else {
            Ok(self.unsubscribe(user, uri))
        }
    }
}

/// Why creating a version changes nothing.
pub enum CreateFailure {
    InvalidUri,
    Encode,
}

/// Why subscribing or unsubscribing changes nothing.
pub enum SubscribeFailure {
    InvalidUri,
    AlreadyInState,
}

/// Whether a call that left the store as `after` and returned `res` did what
/// `expected` says: on success the store is the expected one and the event
/// `event` goes to the sessions of `user`; on failure the store is unchanged
/// and the error is the expected one.
pub open spec fn subscription_outcome(
    res: Result<UserMgrDispatchEvent, SubscribeError>,
    before: DataView,
    after: DataView,
    expected: Result<DataView, SubscribeFailure>,
    user: UserId,
    event: EventView,
) -> bool {
    match expected {
        Ok(store) => res matches Ok(evt) && evt@ == dispatch_to(user, event) && after == store,
        Err(SubscribeFailure::InvalidUri) => res matches Err(SubscribeError::InvalidUri) && after
            == before,
        Err(SubscribeFailure::AlreadyInState) => res matches Err(SubscribeError::AlreadyInState)
            && after == before,
    }
}

impl Data {
    pub fn is_user_subscribed_to_source(&self, user_id: UserId, uri: &str) -> (res: Result<
        bool,
        DataError,
    >)
        ensures
            res == Ok::<bool, DataError>(self@.is_subscribed(user_id, uri@)),
    {
        let ghost pred = |r: SourceSubscriptionView| r.user_id == user_id && r.uri == uri@;
        let found = |r: &SourceSubscription| -> (b: bool)
            ensures
                b == pred(r@),
            { r.user_id == user_id && str_eq(r.uri.as_str(), uri) };
        let place = find_first(&self.user_source_subscriptions, found, Ghost(pred));
        proof {
            lemma_first_index(self@.user_source_subscriptions, pred);
        }
        Ok(place.is_some())
    }

    /// Adds a subscription. On success returns the event that tells the
    /// user's sessions of it.
    pub fn user_subscribe_source(&mut self, user_id: UserId, uri: &str) -> (res: Result<
        UserMgrDispatchEvent,
        SubscribeError,
    >)
        ensures
            old(self)@.well_formed() ==> final(self)@.well_formed(),
            subscription_outcome(
                res,
                old(self)@,
                final(self)@,
                old(self)@.subscribe_result(user_id, uri@),
                user_id,
                EventView::UserDidSubscribeSource { source: uri@ },
            ),
    {
        proof {
            if self@.well_formed() {
                lemma_subscriptions_stay_unique(self@, user_id, uri@);
            }
        }
        if !is_valid_uri(uri) {
            return Err(SubscribeError::InvalidUri);
        }
        let subscribed = match self.is_user_subscribed_to_source(user_id, uri) {
            Ok(s) => s,
            Err(e) => {
                return Err(SubscribeError::Data(e));
            },
        };
        if subscribed {
            return Err(SubscribeError::AlreadyInState);
        }
        let ghost before = self.user_source_subscriptions@;
        self.user_source_subscriptions.push(SourceSubscription { user_id, uri: copy_str(uri) });
        proof {
            assert(views(self.user_source_subscriptions@) =~= views(before).push(
                SourceSubscriptionView { user_id, uri: uri@ },
            ));
            assert(self@ =~~= old(self)@.subscribe(user_id, uri@));
        }
        Ok(
            UserMgrDispatchEvent(
                user_id,
                DispatchUserEvent::new(Event::UserDidSubscribeSource { source: copy_str(uri) }),
            ),
        )
    }

    /// Removes a subscription. On success returns the event that tells the
    /// user's sessions of it.
    pub fn user_unsubscribe_source(&mut self, user_id: UserId, uri: &str) -> (res: Result<
        UserMgrDispatchEvent,
        SubscribeError,
    >)
        ensures
            old(self)@.well_formed() ==> final(self)@.well_formed(),
            subscription_outcome(
                res,
                old(self)@,
                final(self)@,
                old(self)@.unsubscribe_result(user_id, uri@),
                user_id,
                EventView::UserDidUnsubscribeSource { source: uri@ },
            ),
    {
        proof {
            if self@.well_formed() {
                lemma_subscriptions_stay_unique(self@, user_id, uri@);
            }
        }
        if !is_valid_uri(uri) {
            return Err(SubscribeError::InvalidUri);
        }
        let subscribed = match self.is_user_subscribed_to_source(user_id, uri) {
            Ok(s) => s,
            Err(e) => {
                return Err(SubscribeError::Data(e));
            },
        };
        if !subscribed {
            return Err(SubscribeError::AlreadyInState);
        }
        let ghost pred = |r: SourceSubscriptionView| !(r.user_id == user_id && r.uri == uri@);
        let keep = |r: &SourceSubscription| -> (b: bool)
            ensures
                b == pred(r@),
            { !(r.user_id == user_id && str_eq(r.uri.as_str(), uri)) };
        let rows = take_rows(&mut self.user_source_subscriptions);
        self.user_source_subscriptions = retain(rows, keep, Ghost(pred));
        proof {
            assert(self@ =~~= old(self)@.unsubscribe(user_id, uri@));
        }
        Ok(
            UserMgrDispatchEvent(
                user_id,
                DispatchUserEvent::new(Event::UserDidUnsubscribeSource { source: copy_str(uri) }),
            ),
        )
    }
}


/// Whether some version of the source at `source_uri` lists the item at
/// `item_uri`.
fn source_lists_item(assocs: &Vec<AssociatedItem>, source_uri: &str, item_uri: &str) -> (listed:
    bool)
    ensures
        listed == any_where(
            views(assocs@),
            |a: AssociatedItemView| a.item_uri == item_uri@ && a.source_uri == source_uri@,
        ),
{
    let ghost pred = |a: AssociatedItemView| a.item_uri == item_uri@ && a.source_uri == source_uri@;
    let found = |a: &AssociatedItem| -> (b: bool)
        ensures
            b == pred(a@),
        { str_eq(a.item_uri.as_str(), item_uri) && str_eq(a.source_uri.as_str(), source_uri) };
    let place = find_first(assocs, found, Ghost(pred));
    proof {
        lemma_first_index(views(assocs@), pred);
    }
    place.is_some()
}

/// Whether `user` points at a version of the item at `item_uri`.
fn user_has_item_version(pointers: &Vec<UserSourceItem>, user: UserId, item_uri: &str) -> (has:
    bool)
    ensures
        has == any_where(
            views(pointers@),
            |p: UserSourceItemView|
                p.uri == item_uri@ && p.version_hash is Some && p.user_id == user,
        ),
{
    let ghost pred = |p: UserSourceItemView|
        p.uri == item_uri@ && p.version_hash is Some && p.user_id == user;
    let found = |p: &UserSourceItem| -> (b: bool)
        ensures
            b == pred(p@),
        { str_eq(p.uri.as_str(), item_uri) && p.version_hash.is_some() && p.user_id == user };
    let place = find_first(pointers, found, Ghost(pred));
    proof {
        lemma_first_index(views(pointers@), pred);
    }
    place.is_some()
}

impl Data {
    /// The URIs of the sources that the user is subscribed to.
    pub fn user_source_subscriptions(&self, user_id: UserId) -> (res: Result<
        Vec<String>,
        DataError,
    >)
        ensures
            res matches Ok(uris) && views(uris@) == self@.subscriptions_of(user_id),
    {
        let ghost chosen = |r: SourceSubscriptionView|
            if r.user_id == user_id {
                Some(r.uri)
            } else {
                None
            };
        let pick = |r: &SourceSubscription| -> (u: Option<String>)
            ensures
                match (u, chosen(r@)) {
                    (Some(a), Some(b)) => a@ == b,
                    (None, None) => true,
                    _ => false,
                },
            {
                if r.user_id == user_id {
                    Some(copy_str(r.uri.as_str()))
                } else {
                    None
                }
            };
        Ok(select(&self.user_source_subscriptions, pick, Ghost(chosen)))
    }

    /// Gets all users subscribed to a source.
    pub fn source_get_subscribed_users(&self, uri: &str) -> (res: Result<Vec<UserId>, DataError>)
        ensures
            res matches Ok(users) && users@ == self@.subscribers_of_source(uri@),
    {
        let ghost chosen = |r: SourceSubscriptionView|
            if r.uri == uri@ {
                Some(r.user_id)
            } else {
                None
            };
        let pick = |r: &SourceSubscription| -> (u: Option<UserId>)
            ensures
                match (u, chosen(r@)) {
                    (Some(a), Some(b)) => a@ == b,
                    (None, None) => true,
                    _ => false,
                },
            {
                if str_eq(r.uri.as_str(), uri) {
                    Some(r.user_id)
                } else {
                    None
                }
            };
        let users = select(&self.user_source_subscriptions, pick, Ghost(chosen));
        assert(views(users@) =~= users@);
        Ok(users)
    }

    /// Gets all users subscribed to a source items.
    pub fn source_item_get_subscribed_users(&self, uri: &str) -> (res: Result<
        Vec<UserId>,
        DataError,
    >)
        ensures
            res matches Ok(users) && users@ == self@.subscribers_of_item(uri@),
    {
        let ghost view = self@;
        let ghost chosen = |r: SourceSubscriptionView|
            if view.lists_item(r.uri, uri@) {
                Some(r.user_id)
            } else {
                None
            };
        let assocs = &self.source_version_associated_items;
        let pick = |r: &SourceSubscription| -> (u: Option<UserId>)
            ensures
                match (u, chosen(r@)) {
                    (Some(a), Some(b)) => a@ == b,
                    (None, None) => true,
                    _ => false,
                },
            {
                if source_lists_item(assocs, r.uri.as_str(), uri) {
                    Some(r.user_id)
                } else {
                    None
                }
            };
        let users = select(&self.user_source_subscriptions, pick, Ghost(chosen));
        assert(views(users@) =~= users@);
        Ok(users)
    }

    /// Returns all sources that users are subscribed to.
    pub fn all_user_subscribed_sources(&self) -> (res: Result<Vec<String>, DataError>)
        ensures
            res matches Ok(uris) && views(uris@) == self@.all_subscribed_sources(),
    {
        let ghost chosen = |r: SourceSubscriptionView| Some(r.uri);
        let pick = |r: &SourceSubscription| -> (u: Option<String>)
            ensures
                match (u, chosen(r@)) {
                    (Some(a), Some(b)) => a@ == b,
                    (None, None) => true,
                    _ => false,
                },
            { Some(copy_str(r.uri.as_str())) };
        Ok(select(&self.user_source_subscriptions, pick, Ghost(chosen)))
    }

    /// Whether a user who is subscribed to the source points at no version of
    /// the item.
    pub fn source_item_has_versionless_user(&self, source_uri: &str, item_uri: &str) -> (res:
        Result<bool, DataError>)
        ensures
            res == Ok::<bool, DataError>(
                self@.item_has_versionless_user(source_uri@, item_uri@),
            ),
    {
        let ghost view = self@;
        let ghost pred = |r: SourceSubscriptionView|
            r.uri == source_uri@ && !view.has_item_version(r.user_id, item_uri@);
        let pointers = &self.user_source_items;
        let found = |r: &SourceSubscription| -> (b: bool)
            ensures
                b == pred(r@),
            {
                str_eq(r.uri.as_str(), source_uri) && !user_has_item_version(
                    pointers,
                    r.user_id,
                    item_uri,
                )
            };
        let place = find_first(&self.user_source_subscriptions, found, Ghost(pred));
        proof {
            lemma_first_index(self@.user_source_subscriptions, pred);
        }
        Ok(place.is_some())
    }
}


/// A row of `user_sources` for `user` and `uri` that points at no version and holds
/// no data.
pub open spec fn new_source_pointer(user: UserId, uri: Seq<char>) -> UserSourceView {
    UserSourceView {
        id: None,
        user_id: user,
        uri,
        version_date: None,
        version_hash: None,
        user_data: None,
    }
}

impl DataView {
    /// What `user` sees of the source at `uri`: the first row of `user_sources` for
    /// the two.
    pub open spec fn user_source(self, user: UserId, uri: Seq<char>) -> Option<UserSourceView> {
        first_where(self.user_sources, |r: UserSourceView| r.user_id == user && r.uri == uri)
    }

    /// The store with a row of `user_sources` for `user` and `uri`: a new one at the
    /// end where there was none.
    pub open spec fn with_source_pointer(self, user: UserId, uri: Seq<char>) -> DataView {
        if any_where(self.user_sources, |r: UserSourceView| r.user_id == user && r.uri == uri) {
            self
        } else {
            DataView { user_sources: self.user_sources.push(new_source_pointer(user, uri)), ..self }
        }
    }

    /// The store in which `user` points at the version `hash` of the source at
    /// `uri`, fetched at `date`.
    pub open spec fn user_update_source(
        self,
        user: UserId,
        uri: Seq<char>,
        date: Seq<char>,
        hash: Seq<char>,
    ) -> DataView {
        let with_row = self.with_source_pointer(user, uri);
        DataView {
            user_sources: each_changed(
                with_row.user_sources,
                |r: UserSourceView|
                    if r.user_id == user && r.uri == uri {
                        UserSourceView { version_date: Some(date), version_hash: Some(hash), ..r }
                    } else {
                        r
                    },
            ),
            ..with_row
        }
    }

    /// The store in which `user` holds `data` for the source at `uri`.
    pub open spec fn user_update_source_data(self, user: UserId, uri: Seq<char>, data: Seq<u8>) -> DataView {
        let with_row = self.with_source_pointer(user, uri);
        DataView {
            user_sources: each_changed(
                with_row.user_sources,
                |r: UserSourceView|
                    if r.user_id == user && r.uri == uri {
                        UserSourceView { user_data: Some(data), ..r }
                    } else {
                        r
                    },
            ),
            ..with_row
        }
    }

    /// The store in which `user` points at no version of the source at `uri`.
    /// The user's data stay.
    pub open spec fn user_delete_source(self, user: UserId, uri: Seq<char>) -> DataView {
        DataView {
            user_sources: each_changed(
                self.user_sources,
                |r: UserSourceView|
                    if r.user_id == user && r.uri == uri {
                        UserSourceView { version_date: None, version_hash: None, ..r }
                    } else {
                        r
                    },
            ),
            ..self
        }
    }
}

/// What one user sees of one source, as it was when it was read.
#[derive(Debug)]
pub struct UserSourceSnapshot {
    inner: UserSource,
}

impl View for UserSourceSnapshot {
    type V = UserSourceView;

    closed spec fn view(&self) -> UserSourceView {
        self.inner@
    }
}

impl UserSourceSnapshot {
    /// The date and the hash of the version that the user points at, where
    /// the row holds both.
    pub fn version_date_hash(&self) -> (res: Option<(&str, &str)>)
        ensures
            match res {
                Some((date, hash)) => self@.version_date == Some(date@) && self@.version_hash
                    == Some(hash@),
                None => self@.version_date is None || self@.version_hash is None,
            },
    {
        match (&self.inner.version_date, &self.inner.version_hash) {
            (Some(date), Some(hash)) => Some((date.as_str(), hash.as_str())),
            _ => None,
        }
    }

    /// The user's data, which are empty where the row holds none.
    pub fn user_data(&self) -> (data: &[u8])
        ensures
            data@ == match self@.user_data {
                Some(d) => d,
                None => Seq::<u8>::empty(),
            },
    {
        match &self.inner.user_data {
            Some(d) => d.as_slice(),
            None => &[],
        }
    }

    pub fn from(this: UserSource) -> (snapshot: UserSourceSnapshot)
        ensures
            snapshot@ == this@,
    {
        UserSourceSnapshot { inner: this }
    }
}

impl Data {
    /// Makes sure that `user_sources` holds a row for the user and the URI.
    fn ensure_source_pointer(&mut self, user_id: UserId, uri: &str)
        ensures
            final(self)@ == old(self)@.with_source_pointer(user_id, uri@),
    {
        let ghost pred = |r: UserSourceView| r.user_id == user_id && r.uri == uri@;
        let found = |r: &UserSource| -> (b: bool)
            ensures
                b == pred(r@),
            { r.user_id == user_id && str_eq(r.uri.as_str(), uri) };
        let place = find_first(&self.user_sources, found, Ghost(pred));
        proof {
            lemma_first_index(self@.user_sources, pred);
        }
        if place.is_none() {
            let ghost before = self.user_sources@;
            let row = UserSource {
                id: None,
                user_id,
                uri: copy_str(uri),
                version_date: None,
                version_hash: None,
                user_data: None,
            };
            self.user_sources.push(row);
            proof {
                assert(views(self.user_sources@) =~= views(before).push(
                    new_source_pointer(user_id, uri@),
                ));
                assert(self@ =~~= old(self)@.with_source_pointer(user_id, uri@));
            }
        } else {
            assert(self@ =~~= old(self)@.with_source_pointer(user_id, uri@));
        }
    }

    pub fn user_source(&self, user_id: UserId, uri: &str) -> (res: Result<
        Option<UserSourceSnapshot>,
        DataError,
    >)
        ensures
            res matches Ok(found) && match (found, self@.user_source(user_id, uri@)) {
                (Some(snapshot), Some(row)) => snapshot@ == row,
                (None, None) => true,
                _ => false,
            },
    {
        let ghost pred = |r: UserSourceView| r.user_id == user_id && r.uri == uri@;
        let found = |r: &UserSource| -> (b: bool)
            ensures
                b == pred(r@),
            { r.user_id == user_id && str_eq(r.uri.as_str(), uri) };
        match find_first(&self.user_sources, found, Ghost(pred)) {
            Some(i) => Ok(Some(UserSourceSnapshot::from(self.user_sources[i].copy()))),
            None => Ok(None),
        }
    }

    /// Updates the version of a user source. Returns the event that tells the
    /// user's sessions of it.
    pub fn user_update_source(
        &mut self,
        user_id: UserId,
        uri: &str,
        version_date: &str,
        version_hash: &str,
    ) -> (res: Result<UserMgrDispatchEvent, DataError>)
        ensures
            old(self)@.well_formed() ==> final(self)@.well_formed(),
            final(self)@ == old(self)@.user_update_source(user_id, uri@, version_date@, version_hash@),
            res matches Ok(evt) && evt@ == dispatch_to(
                user_id,
                EventView::SubscribedSourceDidUpdate { source: uri@, update_type: UpdateType::Update },
            ),
    {
        proof {
            if self@.well_formed() {
                lemma_pointers_stay_unique(
                    self@,
                    user_id,
                    uri@,
                    version_date@,
                    version_hash@,
                    Seq::empty(),
                );
            }
        }
        self.ensure_source_pointer(user_id, uri);
        let ghost with_row = self@;
        let ghost changed = |r: UserSourceView|
            if r.user_id == user_id && r.uri == uri@ {
                UserSourceView {
                    version_date: Some(version_date@),
                    version_hash: Some(version_hash@),
                    ..r
                }
            } else {
                r
            };
        let change = |r: UserSource| -> (c: UserSource)
            ensures
                c@ == changed(r@),
            {
                if r.user_id == user_id && str_eq(r.uri.as_str(), uri) {
                    UserSource {
                        id: r.id,
                        user_id: r.user_id,
                        uri: r.uri,
                        version_date: Some(copy_str(version_date)),
                        version_hash: Some(copy_str(version_hash)),
                        user_data: r.user_data,
                    }
                } else {
                    r
                }
            };
        let rows = take_rows(&mut self.user_sources);
        self.user_sources = change_each(rows, change, Ghost(changed));
        proof {
            assert(self@ =~~= old(self)@.user_update_source(user_id, uri@, version_date@, version_hash@));
        }
        Ok(
            UserMgrDispatchEvent(
                user_id,
                DispatchUserEvent::new(
                    Event::SubscribedSourceDidUpdate {
                        source: copy_str(uri),
                        update_type: UpdateType::Update,
                    },
                ),
            ),
        )
    }

    /// Updates the user data of a source. Returns the event that tells the
    /// user's other sessions of it: all but `source_conn`, from which the
    /// data came.
    pub fn user_update_source_data(
        &mut self,
        user_id: UserId,
        uri: &str,
        data: Vec<u8>,
        source_conn: Option<SessionId>,
    ) -> (res: Result<UserMgrDispatchEvent, DataError>)
        ensures
            old(self)@.well_formed() ==> final(self)@.well_formed(),
            final(self)@ == old(self)@.user_update_source_data(user_id, uri@, data@),
            res matches Ok(evt) && evt@ == (DispatchView {
                user: user_id,
                event: EventView::SourceUserDataDidUpdate { source: uri@ },
                exclude: source_conn,
            }),
    {
        proof {
            if self@.well_formed() {
                lemma_pointers_stay_unique(self@, user_id, uri@, Seq::empty(), Seq::empty(), data@);
            }
        }
        self.ensure_source_pointer(user_id, uri);
        let ghost changed = |r: UserSourceView|
            if r.user_id == user_id && r.uri == uri@ {
                UserSourceView { user_data: Some(data@), ..r }
            } else {
                r
            };
        let data_ref = &data;
        let change = |r: UserSource| -> (c: UserSource)
            ensures
                c@ == changed(r@),
            {
                if r.user_id == user_id && str_eq(r.uri.as_str(), uri) {
                    UserSource {
                        id: r.id,
                        user_id: r.user_id,
                        uri: r.uri,
                        version_date: r.version_date,
                        version_hash: r.version_hash,
                        user_data: Some(copy_bytes(data_ref.as_slice())),
                    }
                } else {
                    r
                }
            };
        let rows = take_rows(&mut self.user_sources);
        self.user_sources = change_each(rows, change, Ghost(changed));
        proof {
            assert(self@ =~~= old(self)@.user_update_source_data(user_id, uri@, data@));
        }
        Ok(
            UserMgrDispatchEvent(
                user_id,
                DispatchUserEvent::new_excluding(
                    Event::SourceUserDataDidUpdate { source: copy_str(uri) },
                    source_conn,
                ),
            ),
        )
    }

    /// Deletes the source version, but not the user data. Returns the event
    /// that tells the user's sessions of it.
    pub fn user_delete_source(&mut self, user_id: UserId, uri: &str) -> (res: Result<
        UserMgrDispatchEvent,
        DataError,
    >)
        ensures
            old(self)@.well_formed() ==> final(self)@.well_formed(),
            final(self)@ == old(self)@.user_delete_source(user_id, uri@),
            res matches Ok(evt) && evt@ == dispatch_to(
                user_id,
                EventView::SubscribedSourceDidUpdate { source: uri@, update_type: UpdateType::Delete },
            ),
    {
        proof {
            if self@.well_formed() {
                lemma_pointers_stay_unique(
                    self@,
                    user_id,
                    uri@,
                    Seq::empty(),
                    Seq::empty(),
                    Seq::empty(),
                );
            }
        }
        let ghost changed = |r: UserSourceView|
            if r.user_id == user_id && r.uri == uri@ {
                UserSourceView { version_date: None, version_hash: None, ..r }
            } else {
                r
            };
        let change = |r: UserSource| -> (c: UserSource)
            ensures
                c@ == changed(r@),
            {
                if r.user_id == user_id && str_eq(r.uri.as_str(), uri) {
                    UserSource {
                        id: r.id,
                        user_id: r.user_id,
                        uri: r.uri,
                        version_date: None,
                        version_hash: None,
                        user_data: r.user_data,
                    }
                } else {
                    r
                }
            };
        let rows = take_rows(&mut self.user_sources);
        self.user_sources = change_each(rows, change, Ghost(changed));
        proof {
            assert(self@ =~~= old(self)@.user_delete_source(user_id, uri@));
        }
        Ok(
            UserMgrDispatchEvent(
                user_id,
                DispatchUserEvent::new(
                    Event::SubscribedSourceDidUpdate {
                        source: copy_str(uri),
                        update_type: UpdateType::Delete,
                    },
                ),
            ),
        )
    }
}

/// A row of `user_source_items` for `user` and `uri` that points at no version and holds
/// no data.
pub open spec fn new_item_pointer(user: UserId, uri: Seq<char>) -> UserSourceItemView {
    UserSourceItemView {
        id: None,
        user_id: user,
        uri,
        version_date: None,
        version_hash: None,
        user_data: None,
    }
}

impl DataView {
    /// What `user` sees of the source item at `uri`: the first row of `user_source_items` for
    /// the two.
    pub open spec fn user_source_item(self, user: UserId, uri: Seq<char>) -> Option<UserSourceItemView> {
        first_where(self.user_source_items, |r: UserSourceItemView| r.user_id == user && r.uri == uri)
    }

    /// The store with a row of `user_source_items` for `user` and `uri`: a new one at the
    /// end where there was none.
    pub open spec fn with_item_pointer(self, user: UserId, uri: Seq<char>) -> DataView {
        if any_where(self.user_source_items, |r: UserSourceItemView| r.user_id == user && r.uri == uri) {
            self
        } else {
            DataView { user_source_items: self.user_source_items.push(new_item_pointer(user, uri)), ..self }
        }
    }

    /// The store in which `user` points at the version `hash` of the source item at
    /// `uri`, fetched at `date`.
    pub open spec fn user_update_source_item(
        self,
        user: UserId,
        uri: Seq<char>,
        date: Seq<char>,
        hash: Seq<char>,
    ) -> DataView {
        let with_row = self.with_item_pointer(user, uri);
        DataView {
            user_source_items: each_changed(
                with_row.user_source_items,
                |r: UserSourceItemView|
                    if r.user_id == user && r.uri == uri {
                        UserSourceItemView { version_date: Some(date), version_hash: Some(hash), ..r }
                    } else {
                        r
                    },
            ),
            ..with_row
        }
    }

    /// The store in which `user` holds `data` for the source item at `uri`.
    pub open spec fn user_update_source_item_data(
        self,
        user: UserId,
        uri: Seq<char>,
        data: Seq<u8>,
    ) -> DataView {
        let with_row = self.with_item_pointer(user, uri);
        DataView {
            user_source_items: each_changed(
                with_row.user_source_items,
                |r: UserSourceItemView|
                    if r.user_id == user && r.uri == uri {
                        UserSourceItemView { user_data: Some(data), ..r }
                    } else {
                        r
                    },
            ),
            ..with_row
        }
    }

    /// The store in which `user` points at no version of the source item at `uri`.
    /// The user's data stay.
    pub open spec fn user_delete_source_item(self, user: UserId, uri: Seq<char>) -> DataView {
        DataView {
            user_source_items: each_changed(
                self.user_source_items,
                |r: UserSourceItemView|
                    if r.user_id == user && r.uri == uri {
                        UserSourceItemView { version_date: None, version_hash: None, ..r }
                    } else {
                        r
                    },
            ),
            ..self
        }
    }
}

/// What one user sees of one source item, as it was when it was read.
#[derive(Debug)]
pub struct UserSourceItemSnapshot {
    inner: UserSourceItem,
}

impl View for UserSourceItemSnapshot {
    type V = UserSourceItemView;

    closed spec fn view(&self) -> UserSourceItemView {
        self.inner@
    }
}

impl UserSourceItemSnapshot {
    /// The date and the hash of the version that the user points at, where
    /// the row holds both.
    pub fn version_date_hash(&self) -> (res: Option<(&str, &str)>)
        ensures
            match res {
                Some((date, hash)) => self@.version_date == Some(date@) && self@.version_hash
                    == Some(hash@),
                None => self@.version_date is None || self@.version_hash is None,
            },
    {
        match (&self.inner.version_date, &self.inner.version_hash) {
            (Some(date), Some(hash)) => Some((date.as_str(), hash.as_str())),
            _ => None,
        }
    }

    /// The user's data, which are empty where the row holds none.
    pub fn user_data(&self) -> (data: &[u8])
        ensures
            data@ == match self@.user_data {
                Some(d) => d,
                None => Seq::<u8>::empty(),
            },
    {
        match &self.inner.user_data {
            Some(d) => d.as_slice(),
            None => &[],
        }
    }

    pub fn from(this: UserSourceItem) -> (snapshot: UserSourceItemSnapshot)
        ensures
            snapshot@ == this@,
    {
        UserSourceItemSnapshot { inner: this }
    }
}

impl Data {
    /// Makes sure that `user_source_items` holds a row for the user and the URI.
    fn ensure_item_pointer(&mut self, user_id: UserId, uri: &str)
        ensures
            final(self)@ == old(self)@.with_item_pointer(user_id, uri@),
    {
        let ghost pred = |r: UserSourceItemView| r.user_id == user_id && r.uri == uri@;
        let found = |r: &UserSourceItem| -> (b: bool)
            ensures
                b == pred(r@),
            { r.user_id == user_id && str_eq(r.uri.as_str(), uri) };
        let place = find_first(&self.user_source_items, found, Ghost(pred));
        proof {
            lemma_first_index(self@.user_source_items, pred);
        }
        if place.is_none() {
            let ghost before = self.user_source_items@;
            let row = UserSourceItem {
                id: None,
                user_id,
                uri: copy_str(uri),
                version_date: None,
                version_hash: None,
                user_data: None,
            };
            self.user_source_items.push(row);
            proof {
                assert(views(self.user_source_items@) =~= views(before).push(
                    new_item_pointer(user_id, uri@),
                ));
                assert(self@ =~~= old(self)@.with_item_pointer(user_id, uri@));
            }
        } else {
            assert(self@ =~~= old(self)@.with_item_pointer(user_id, uri@));
        }
    }

    pub fn user_source_item(&self, user_id: UserId, uri: &str) -> (res: Result<
        Option<UserSourceItemSnapshot>,
        DataError,
    >)
        ensures
            res matches Ok(found) && match (found, self@.user_source_item(user_id, uri@)) {
                (Some(snapshot), Some(row)) => snapshot@ == row,
                (None, None) => true,
                _ => false,
            },
    {
        let ghost pred = |r: UserSourceItemView| r.user_id == user_id && r.uri == uri@;
        let found = |r: &UserSourceItem| -> (b: bool)
            ensures
                b == pred(r@),
            { r.user_id == user_id && str_eq(r.uri.as_str(), uri) };
        match find_first(&self.user_source_items, found, Ghost(pred)) {
            Some(i) => Ok(Some(UserSourceItemSnapshot::from(self.user_source_items[i].copy()))),
            None => Ok(None),
        }
    }

    /// Updates the version of a user source item. Returns the event that tells the
    /// user's sessions of it.
    pub fn user_update_source_item(
        &mut self,
        user_id: UserId,
        uri: &str,
        version_date: &str,
        version_hash: &str,
    ) -> (res: Result<UserMgrDispatchEvent, DataError>)
        ensures
            old(self)@.well_formed() ==> final(self)@.well_formed(),
            final(self)@ == old(self)@.user_update_source_item(user_id, uri@, version_date@, version_hash@),
            res matches Ok(evt) && evt@ == dispatch_to(
                user_id,
                EventView::SubscribedSourceItemDidUpdate {
                    source_item: uri@,
                    update_type: UpdateType::Update,
                },
            ),
    {
        proof {
            if self@.well_formed() {
                lemma_pointers_stay_unique(
                    self@,
                    user_id,
                    uri@,
                    version_date@,
                    version_hash@,
                    Seq::empty(),
                );
            }
        }
        self.ensure_item_pointer(user_id, uri);
        let ghost with_row = self@;
        let ghost changed = |r: UserSourceItemView|
            if r.user_id == user_id && r.uri == uri@ {
                UserSourceItemView {
                    version_date: Some(version_date@),
                    version_hash: Some(version_hash@),
                    ..r
                }
            } else {
                r
            };
        let change = |r: UserSourceItem| -> (c: UserSourceItem)
            ensures
                c@ == changed(r@),
            {
                if r.user_id == user_id && str_eq(r.uri.as_str(), uri) {
                    UserSourceItem {
                        id: r.id,
                        user_id: r.user_id,
                        uri: r.uri,
                        version_date: Some(copy_str(version_date)),
                        version_hash: Some(copy_str(version_hash)),
                        user_data: r.user_data,
                    }
                } else {
                    r
                }
            };
        let rows = take_rows(&mut self.user_source_items);
        self.user_source_items = change_each(rows, change, Ghost(changed));
        proof {
            assert(self@ =~~= old(self)@.user_update_source_item(
                user_id,
                uri@,
                version_date@,
                version_hash@,
            ));
        }
        Ok(
            UserMgrDispatchEvent(
                user_id,
                DispatchUserEvent::new(
                    Event::SubscribedSourceItemDidUpdate {
                        source_item: copy_str(uri),
                        update_type: UpdateType::Update,
                    },
                ),
            ),
        )
    }

    /// Updates the user data of a source item. Returns the event that tells the
    /// user's other sessions of it: all but `source_conn`, from which the
    /// data came.
    pub fn user_update_source_item_data(
        &mut self,
        user_id: UserId,
        uri: &str,
        data: Vec<u8>,
        source_conn: Option<SessionId>,
    ) -> (res: Result<UserMgrDispatchEvent, DataError>)
        ensures
            old(self)@.well_formed() ==> final(self)@.well_formed(),
            final(self)@ == old(self)@.user_update_source_item_data(user_id, uri@, data@),
            res matches Ok(evt) && evt@ == (DispatchView {
                user: user_id,
                event: EventView::SourceItemUserDataDidUpdate { source_item: uri@ },
                exclude: source_conn,
            }),
    {
        proof {
            if self@.well_formed() {
                lemma_pointers_stay_unique(self@, user_id, uri@, Seq::empty(), Seq::empty(), data@);
            }
        }
        self.ensure_item_pointer(user_id, uri);
        let ghost changed = |r: UserSourceItemView|
            if r.user_id == user_id && r.uri == uri@ {
                UserSourceItemView { user_data: Some(data@), ..r }
            } else {
                r
            };
        let data_ref = &data;
        let change = |r: UserSourceItem| -> (c: UserSourceItem)
            ensures
                c@ == changed(r@),
            {
                if r.user_id == user_id && str_eq(r.uri.as_str(), uri) {
                    UserSourceItem {
                        id: r.id,
                        user_id: r.user_id,
                        uri: r.uri,
                        version_date: r.version_date,
                        version_hash: r.version_hash,
                        user_data: Some(copy_bytes(data_ref.as_slice())),
                    }
                } else {
                    r
                }
            };
        let rows = take_rows(&mut self.user_source_items);
        self.user_source_items = change_each(rows, change, Ghost(changed));
        proof {
            assert(self@ =~~= old(self)@.user_update_source_item_data(user_id, uri@, data@));
        }
        Ok(
            UserMgrDispatchEvent(
                user_id,
                DispatchUserEvent::new_excluding(
                    Event::SourceItemUserDataDidUpdate { source_item: copy_str(uri) },
                    source_conn,
                ),
            ),
        )
    }

    /// Deletes the source item version, but not the user data. Returns the event
    /// that tells the user's sessions of it.
    pub fn user_delete_source_item(&mut self, user_id: UserId, uri: &str) -> (res: Result<
        UserMgrDispatchEvent,
        DataError,
    >)
        ensures
            old(self)@.well_formed() ==> final(self)@.well_formed(),
            final(self)@ == old(self)@.user_delete_source_item(user_id, uri@),
            res matches Ok(evt) && evt@ == dispatch_to(
                user_id,
                EventView::SubscribedSourceItemDidUpdate {
                    source_item: uri@,
                    update_type: UpdateType::Delete,
                },
            ),
    {
        proof {
            if self@.well_formed() {
                lemma_pointers_stay_unique(
                    self@,
                    user_id,
                    uri@,
                    Seq::empty(),
                    Seq::empty(),
                    Seq::empty(),
                );
            }
        }
        let ghost changed = |r: UserSourceItemView|
            if r.user_id == user_id && r.uri == uri@ {
                UserSourceItemView { version_date: None, version_hash: None, ..r }
            } else {
                r
            };
        let change = |r: UserSourceItem| -> (c: UserSourceItem)
            ensures
                c@ == changed(r@),
            {
                if r.user_id == user_id && str_eq(r.uri.as_str(), uri) {
                    UserSourceItem {
                        id: r.id,
                        user_id: r.user_id,
                        uri: r.uri,
                        version_date: None,
                        version_hash: None,
                        user_data: r.user_data,
                    }
                } else {
                    r
                }
            };
        let rows = take_rows(&mut self.user_source_items);
        self.user_source_items = change_each(rows, change, Ghost(changed));
        proof {
            assert(self@ =~~= old(self)@.user_delete_source_item(user_id, uri@));
        }
        Ok(
            UserMgrDispatchEvent(
                user_id,
                DispatchUserEvent::new(
                    Event::SubscribedSourceItemDidUpdate {
                        source_item: copy_str(uri),
                        update_type: UpdateType::Delete,
                    },
                ),
            ),
        )
    }
}


/// The URI of the item at `path` in the domain `domain`: the text of the
/// canonical form of `<domain>://<path>`.
pub open spec fn item_uri_of(domain: Seq<char>, path: Seq<char>) -> Option<Seq<char>> {
    match canonical_uri(scheme_and_path(domain, path)) {
        Some(u) => Some(u.text),
        None => None,
    }
}

/// The URIs of the items of a list in the domain `domain`, or nothing where
/// one of them has none.
pub open spec fn item_uris_of(domain: Seq<char>, items: Seq<SourceMetaItemView>) -> Option<
    Seq<Seq<char>>,
>
    decreases items.len(),
{
    if items.len() == 0 {
        Some(Seq::empty())
    } else {
        match (
            item_uris_of(domain, items.drop_last()),
            item_uri_of(domain, items.last().path),
        ) {
            (Some(uris), Some(uri)) => Some(uris.push(uri)),
            _ => None,
        }
    }
}

/// Where the first items of a list have no URIs, the list has none.
pub proof fn lemma_item_uris_prefix(domain: Seq<char>, items: Seq<SourceMetaItemView>, n: int)
    requires
        0 <= n <= items.len(),
        item_uris_of(domain, items.take(n)) is None,
    ensures
        item_uris_of(domain, items) is None,
    decreases items.len() - n,
{
    if n < items.len() {
        assert(items.take(n + 1).drop_last() =~= items.take(n));
        lemma_item_uris_prefix(domain, items, n + 1);
    } else {
        assert(items.take(n) =~= items);
    }
}

/// The association of a version of a source with one of its items.
pub open spec fn association(source_uri: Seq<char>, hash: Seq<char>, item_uri: Seq<char>) ->
    AssociatedItemView {
    AssociatedItemView { source_uri, source_hash: hash, item_uri }
}

/// The associations with `a` among them: added at the end where it was
/// missing.
pub open spec fn with_association(assocs: Seq<AssociatedItemView>, a: AssociatedItemView) -> Seq<
    AssociatedItemView,
> {
    if any_where(
        assocs,
        |r: AssociatedItemView|
            r.source_uri == a.source_uri && r.source_hash == a.source_hash && r.item_uri
                == a.item_uri,
    ) {
        assocs
    } else {
        assocs.push(a)
    }
}

/// The associations with those of a version of a source with each of
/// `item_uris` among them.
pub open spec fn with_associations(
    assocs: Seq<AssociatedItemView>,
    source_uri: Seq<char>,
    hash: Seq<char>,
    item_uris: Seq<Seq<char>>,
) -> Seq<AssociatedItemView>
    decreases item_uris.len(),
{
    if item_uris.len() == 0 {
        assocs
    } else {
        with_association(
            with_associations(assocs, source_uri, hash, item_uris.drop_last()),
            association(source_uri, hash, item_uris.last()),
        )
    }
}

impl DataView {
    /// The version of a source with the hash `hash`: the first such row.
    pub open spec fn source_by_hash(self, hash: Seq<char>) -> Option<SourceVersionView> {
        first_where(self.source_versions, |v: SourceVersionView| v.hash == hash)
    }

    /// The version of an item with the hash `hash`: the first such row.
    pub open spec fn source_item_by_hash(self, hash: Seq<char>) -> Option<SourceItemVersionView> {
        first_where(self.source_item_versions, |v: SourceItemVersionView| v.hash == hash)
    }

    /// Whether the store holds a version of a source with the hash `hash`.
    pub open spec fn has_source_version(self, hash: Seq<char>) -> bool {
        any_where(self.source_versions, |v: SourceVersionView| v.hash == hash)
    }

    /// Whether the store holds a version of an item with the hash `hash`.
    pub open spec fn has_item_version_hash(self, hash: Seq<char>) -> bool {
        any_where(self.source_item_versions, |v: SourceItemVersionView| v.hash == hash)
    }

    /// Whether the store holds a version of the item at `uri`.
    pub open spec fn has_item_version_at(self, uri: Seq<char>) -> bool {
        any_where(self.source_item_versions, |v: SourceItemVersionView| v.uri == uri)
    }

    /// The store with the version `row` of a source and its associations with
    /// the items at `item_uris`. A version whose hash the store holds is not
    /// added again, nor is an association that it holds.
    pub open spec fn with_source_version(self, row: SourceVersionView, item_uris: Seq<Seq<char>>) ->
        DataView {
        DataView {
            source_versions: if self.has_source_version(row.hash) {
                self.source_versions
            } else {
                self.source_versions.push(row)
            },
            source_version_associated_items: with_associations(
                self.source_version_associated_items,
                row.uri,
                row.hash,
                item_uris,
            ),
            ..self
        }
    }

    /// The store with the version `row` of an item. A version whose hash the
    /// store holds is not added again.
    pub open spec fn with_item_version(self, row: SourceItemVersionView) -> DataView {
        if self.has_item_version_hash(row.hash) {
            self
        } else {
            DataView { source_item_versions: self.source_item_versions.push(row), ..self }
        }
    }

    /// What creating a version of the source at `uri` comes to: the new store
    /// with the hash of the version, or the reason why nothing changes. The
    /// URI has to be a URL, the content has to be encodable, and every item
    /// has to have a URI in the domain of the source, which is the scheme of
    /// the URI.
    pub open spec fn create_source_version_result(
        self,
        uri: Seq<char>,
        tags: Seq<u8>,
        items: Seq<SourceMetaItemView>,
        date_updated: Option<Seq<char>>,
    ) -> Result<(DataView, Seq<char>), CreateFailure> {
        match url_parts(uri) {
            None => Err(CreateFailure::InvalidUri),
            Some(u) => if !(items_encodable(items) && date_encodable(date_updated)) {
                Err(CreateFailure::Encode)
            } else {
                match item_uris_of(u.scheme, items) {
                    None => Err(CreateFailure::InvalidUri),
                    Some(item_uris) => Ok(
                        (
                            self.with_source_version(
                                SourceVersionView {
                                    id: None,
                                    uri,
                                    hash: source_hash(tags, items, date_updated),
                                    metadata: encoded_metadata(tags),
                                    date_updated,
                                    items: encoded_items(items),
                                },
                                item_uris,
                            ),
                            source_hash(tags, items, date_updated),
                        ),
                    ),
                }
            },
        }
    }

    /// What creating a version of the item at `uri` comes to where its data
    /// can be compressed: the new store with the hash of the version, or the
    /// reason why nothing changes.
    pub open spec fn create_item_version_result(
        self,
        uri: Seq<char>,
        tags: Seq<u8>,
        date_updated: Option<Seq<char>>,
    ) -> Result<(DataView, Seq<char>), CreateFailure> {
        if url_parts(uri) is None {
            Err(CreateFailure::InvalidUri)
        } else if !date_encodable(date_updated) {
            Err(CreateFailure::Encode)
        } else {
            Ok(
                (
                    self.with_item_version(
                        SourceItemVersionView {
                            id: None,
                            uri,
                            hash: item_hash(tags, date_updated),
                            date_updated,
                            data: Some(encoded_metadata(tags)),
                        },
                    ),
                    item_hash(tags, date_updated),
                ),
            )
        }
    }

    /// Whether a user points at the version `hash` of a source.
    pub open spec fn source_hash_referenced(self, hash: Seq<char>) -> bool {
        any_where(self.user_sources, |p: UserSourceView| p.version_hash == Some(hash))
    }

    /// Whether a user points at the version `hash` of an item.
    pub open spec fn item_hash_referenced(self, hash: Seq<char>) -> bool {
        any_where(self.user_source_items, |p: UserSourceItemView| p.version_hash == Some(hash))
    }

    /// Whether a version of an item needs the resource `hash`.
    pub open spec fn resource_needed(self, hash: Seq<char>) -> bool {
        any_where(
            self.source_item_resource_dependencies,
            |d: ResourceDependencyView| d.resource_hash == hash,
        )
    }

    /// The store without the versions of sources that no user points at.
    pub open spec fn without_unreferenced_sources(self) -> DataView {
        DataView {
            source_versions: self.source_versions.filter(
                |v: SourceVersionView| self.source_hash_referenced(v.hash),
            ),
            ..self
        }
    }

    /// The store without the versions of items that no user points at.
    pub open spec fn without_unreferenced_items(self) -> DataView {
        DataView {
            source_item_versions: self.source_item_versions.filter(
                |v: SourceItemVersionView| self.item_hash_referenced(v.hash),
            ),
            ..self
        }
    }

    /// The store without the associations that are orphaned on either side:
    /// those whose version of the source is gone, and those whose item has no
    /// version.
    pub open spec fn without_orphaned_associations(self) -> DataView {
        DataView {
            source_version_associated_items: self.source_version_associated_items.filter(
                |a: AssociatedItemView|
                    self.has_source_version(a.source_hash) && self.has_item_version_at(a.item_uri),
            ),
            ..self
        }
    }

    /// The store without the dependencies of versions of items that are gone.
    pub open spec fn without_orphaned_dependencies(self) -> DataView {
        DataView {
            source_item_resource_dependencies: self.source_item_resource_dependencies.filter(
                |d: ResourceDependencyView| self.has_item_version_hash(d.source_item_hash),
            ),
            ..self
        }
    }

    /// The store without the resources that no version of an item needs.
    pub open spec fn without_unneeded_resources(self) -> DataView {
        DataView {
            source_resources: self.source_resources.filter(
                |r: SourceResourceView| self.resource_needed(r.hash),
            ),
            ..self
        }
    }

    /// The store after garbage collection: without unreferenced versions of
    /// sources, then without unreferenced versions of items, then without
    /// orphaned associations, then without orphaned dependencies, then
    /// without unneeded resources.
    pub open spec fn garbage_collected(self) -> DataView {
        self.without_unreferenced_sources().without_unreferenced_items()
            .without_orphaned_associations().without_orphaned_dependencies()
            .without_unneeded_resources()
    }
}

/// A version of a source, as it was when it was read.
#[derive(Debug)]
pub struct SourceVersionSnapshot {
    inner: SourceVersion,
}

impl View for SourceVersionSnapshot {
    type V = SourceVersionView;

    closed spec fn view(&self) -> SourceVersionView {
        self.inner@
    }
}

impl SourceVersionSnapshot {
    pub fn date_updated(&self) -> (date: Option<&str>)
        ensures
            opt_str_text(date) == self@.date_updated,
    {
        match &self.inner.date_updated {
            Some(s) => Some(s.as_str()),
            None => None,
        }
    }

    /// The encoded map of tags of the source.
    pub fn tags(&self) -> (res: Result<Vec<u8>, DecodeError>)
        ensures
            match res {
                Ok(tags) => decoded_tags(self@.metadata) == Some(tags@),
                Err(_) => decoded_tags(self@.metadata) is None,
            },
    {
        match decode_tags(self.inner.metadata.as_slice()) {
            Some(tags) => Ok(tags),
            None => Err(DecodeError),
        }
    }

    /// The item list of the source.
    pub fn items(&self) -> (res: Result<Vec<SourceMetaItem>, DecodeError>)
        ensures
            match res {
                Ok(items) => decoded_items(self@.items) == Some(views(items@)),
                Err(_) => decoded_items(self@.items) is None,
            },
    {
        match decode_items(self.inner.items.as_slice()) {
            Some(items) => Ok(items),
            None => Err(DecodeError),
        }
    }

    pub fn from(this: SourceVersion) -> (snapshot: SourceVersionSnapshot)
        ensures
            snapshot@ == this@,
    {
        SourceVersionSnapshot { inner: this }
    }
}

/// A version of an item, as it was when it was read.
#[derive(Debug)]
pub struct SourceItemVersionSnapshot {
    inner: SourceItemVersion,
}

impl View for SourceItemVersionSnapshot {
    type V = SourceItemVersionView;

    closed spec fn view(&self) -> SourceItemVersionView {
        self.inner@
    }
}

/// The encoded map of tags in the stored data of a version of an item, which
/// are compressed. An error where the data do not decompress or do not
/// decode.
pub open spec fn stored_item_tags(data: Option<Seq<u8>>) -> Result<Seq<u8>, DataError> {
    match data {
        Some(encoded) => match decoded_tags(encoded) {
            Some(tags) => Ok(tags),
            None => Err(DataError::Decode),
        },
        None => Err(DataError::Io),
    }
}

impl SourceItemVersionSnapshot {
    pub fn date_updated(&self) -> (date: Option<&str>)
        ensures
            opt_str_text(date) == self@.date_updated,
    {
        match &self.inner.date_updated {
            Some(s) => Some(s.as_str()),
            None => None,
        }
    }

    /// The data of the item.
    pub fn get_data(&self) -> (res: Result<SourceItemData, DataError>)
        ensures
            match (res, stored_item_tags(self@.data)) {
                (Ok(data), Ok(tags)) => data.tags@ == tags,
                (Err(e), Err(f)) => e == f,
                _ => false,
            },
    {
        let encoded = match gzip_decompress(self.inner.data.as_slice()) {
            Some(e) => e,
            None => {
                return Err(DataError::Io);
            },
        };
        match decode_tags(encoded.as_slice()) {
            Some(tags) => Ok(SourceItemData { tags }),
            None => Err(DataError::Decode),
        }
    }

    pub fn from(this: SourceItemVersion) -> (snapshot: SourceItemVersionSnapshot)
        ensures
            snapshot@ == this@,
    {
        SourceItemVersionSnapshot { inner: this }
    }
}

/// Whether a version of a source with the hash `hash` is among `versions`.
fn holds_source_version(versions: &Vec<SourceVersion>, hash: &str) -> (held: bool)
    ensures
        held == any_where(views(versions@), |v: SourceVersionView| v.hash == hash@),
{
    let ghost pred = |v: SourceVersionView| v.hash == hash@;
    let found = |v: &SourceVersion| -> (b: bool)
        ensures
            b == pred(v@),
        { str_eq(v.hash.as_str(), hash) };
    let place = find_first(versions, found, Ghost(pred));
    proof {
        lemma_first_index(views(versions@), pred);
    }
    place.is_some()
}

/// Whether a version of an item with the hash `hash` is among `versions`.
fn holds_item_version(versions: &Vec<SourceItemVersion>, hash: &str) -> (held: bool)
    ensures
        held == any_where(views(versions@), |v: SourceItemVersionView| v.hash == hash@),
{
    let ghost pred = |v: SourceItemVersionView| v.hash == hash@;
    let found = |v: &SourceItemVersion| -> (b: bool)
        ensures
            b == pred(v@),
        { str_eq(v.hash.as_str(), hash) };
    let place = find_first(versions, found, Ghost(pred));
    proof {
        lemma_first_index(views(versions@), pred);
    }
    place.is_some()
}

/// Whether a version of the item at `uri` is among `versions`.
fn holds_item_version_at(versions: &Vec<SourceItemVersion>, uri: &str) -> (held: bool)
    ensures
        held == any_where(views(versions@), |v: SourceItemVersionView| v.uri == uri@),
{
    let ghost pred = |v: SourceItemVersionView| v.uri == uri@;
    let found = |v: &SourceItemVersion| -> (b: bool)
        ensures
            b == pred(v@),
        { str_eq(v.uri.as_str(), uri) };
    let place = find_first(versions, found, Ghost(pred));
    proof {
        lemma_first_index(views(versions@), pred);
    }
    place.is_some()
}

/// Whether one of `pointers` points at the version `hash`.
fn points_at_source(pointers: &Vec<UserSource>, hash: &str) -> (referenced: bool)
    ensures
        referenced == any_where(
            views(pointers@),
            |p: UserSourceView| p.version_hash == Some(hash@),
        ),
{
    let ghost pred = |p: UserSourceView| p.version_hash == Some(hash@);
    let found = |p: &UserSource| -> (b: bool)
        ensures
            b == pred(p@),
        {
            match &p.version_hash {
                Some(h) => str_eq(h.as_str(), hash),
                None => false,
            }
        };
    let place = find_first(pointers, found, Ghost(pred));
    proof {
        lemma_first_index(views(pointers@), pred);
    }
    place.is_some()
}

/// Whether one of `pointers` points at the version `hash`.
fn points_at_item(pointers: &Vec<UserSourceItem>, hash: &str) -> (referenced: bool)
    ensures
        referenced == any_where(
            views(pointers@),
            |p: UserSourceItemView| p.version_hash == Some(hash@),
        ),
{
    let ghost pred = |p: UserSourceItemView| p.version_hash == Some(hash@);
    let found = |p: &UserSourceItem| -> (b: bool)
        ensures
            b == pred(p@),
        {
            match &p.version_hash {
                Some(h) => str_eq(h.as_str(), hash),
                None => false,
            }
        };
    let place = find_first(pointers, found, Ghost(pred));
    proof {
        lemma_first_index(views(pointers@), pred);
    }
    place.is_some()
}

/// Whether one of `deps` is a dependency on the resource `hash`.
fn depends_on_resource(deps: &Vec<ResourceDependency>, hash: &str) -> (needed: bool)
    ensures
        needed == any_where(views(deps@), |d: ResourceDependencyView| d.resource_hash == hash@),
{
    let ghost pred = |d: ResourceDependencyView| d.resource_hash == hash@;
    let found = |d: &ResourceDependency| -> (b: bool)
        ensures
            b == pred(d@),
        { str_eq(d.resource_hash.as_str(), hash) };
    let place = find_first(deps, found, Ghost(pred));
    proof {
        lemma_first_index(views(deps@), pred);
    }
    place.is_some()
}

/// Adds an association unless it is there.
fn insert_association(assocs: &mut Vec<AssociatedItem>, source_uri: &str, hash: &str, item_uri: &str)
    ensures
        views(final(assocs)@) == with_association(
            views(old(assocs)@),
            association(source_uri@, hash@, item_uri@),
        ),
{
    let ghost a = association(source_uri@, hash@, item_uri@);
    let ghost pred = |r: AssociatedItemView|
        r.source_uri == a.source_uri && r.source_hash == a.source_hash && r.item_uri == a.item_uri;
    let found = |r: &AssociatedItem| -> (b: bool)
        ensures
            b == pred(r@),
        {
            str_eq(r.source_uri.as_str(), source_uri) && str_eq(r.source_hash.as_str(), hash)
                && str_eq(r.item_uri.as_str(), item_uri)
        };
    let place = find_first(assocs, found, Ghost(pred));
    proof {
        lemma_first_index(views(assocs@), pred);
    }
    if place.is_none() {
        let ghost before = assocs@;
        assocs.push(
            AssociatedItem {
                source_uri: copy_str(source_uri),
                source_hash: copy_str(hash),
                item_uri: copy_str(item_uri),
            },
        );
        assert(views(assocs@) =~= views(before).push(a));
    }
}

impl Data {
    pub fn source_by_hash(&self, hash: &str) -> (res: Result<
        Option<SourceVersionSnapshot>,
        DataError,
    >)
        ensures
            res matches Ok(found) && match (found, self@.source_by_hash(hash@)) {
                (Some(snapshot), Some(row)) => snapshot@ == row,
                (None, None) => true,
                _ => false,
            },
    {
        let ghost pred = |v: SourceVersionView| v.hash == hash@;
        let found = |v: &SourceVersion| -> (b: bool)
            ensures
                b == pred(v@),
            { str_eq(v.hash.as_str(), hash) };
        match find_first(&self.source_versions, found, Ghost(pred)) {
            Some(i) => Ok(Some(SourceVersionSnapshot::from(self.source_versions[i].copy()))),
            None => Ok(None),
        }
    }

    pub fn source_item_by_hash(&self, hash: &str) -> (res: Result<
        Option<SourceItemVersionSnapshot>,
        DataError,
    >)
        ensures
            res matches Ok(found) && match (found, self@.source_item_by_hash(hash@)) {
                (Some(snapshot), Some(row)) => snapshot@ == row,
                (None, None) => true,
                _ => false,
            },
    {
        let ghost pred = |v: SourceItemVersionView| v.hash == hash@;
        let found = |v: &SourceItemVersion| -> (b: bool)
            ensures
                b == pred(v@),
            { str_eq(v.hash.as_str(), hash) };
        match find_first(&self.source_item_versions, found, Ghost(pred)) {
            Some(i) => Ok(
                Some(SourceItemVersionSnapshot::from(self.source_item_versions[i].copy())),
            ),
            None => Ok(None),
        }
    }

    /// Creates a new source version and returns the hash.
    ///
    /// Will do nothing if the hash already exists. Fails, and changes nothing,
    /// where the URI is no URL, where the content cannot be encoded, or where
    /// an item has no URI in the domain of the source.
    pub fn create_source_version(
        &mut self,
        uri: &str,
        metadata: &SourceMetadata,
        items: &SourceItems,
        date_updated: Option<&str>,
    ) -> (res: Result<String, CreateVersionError>)
        ensures
            old(self)@.well_formed() ==> final(self)@.well_formed(),
            match old(self)@.create_source_version_result(
                uri@,
                metadata.tags@,
                views(items@),
                opt_str_text(date_updated),
            ) {
                Ok((store, hash)) => res matches Ok(h) && h@ == hash && h@.len() == 2 * DIGEST_LEN
                    && final(self)@ == store,
                Err(CreateFailure::InvalidUri) => res matches Err(CreateVersionError::InvalidUri)
                    && final(self)@ == old(self)@,
                Err(CreateFailure::Encode) => res matches Err(CreateVersionError::Encode)
                    && final(self)@ == old(self)@,
            },
    {
        proof {
            if self@.well_formed() {
                lemma_created_versions_stay_unique(
                    self@,
                    uri@,
                    metadata.tags@,
                    views(items@),
                    opt_str_text(date_updated),
                );
            }
        }
        let parsed_url = match parse_url(uri) {
            Ok(url) => url,
            Err(_) => {
                return Err(CreateVersionError::InvalidUri);
            },
        };
        let hash = match get_source_hash(metadata, items, date_updated) {
            Ok(h) => h,
            Err(_) => {
                return Err(CreateVersionError::Encode);
            },
        };
        let metadata_enc = encode_metadata(metadata);
        let items_enc = match encode_items(items) {
            Ok(e) => e,
            Err(_) => {
                return Err(CreateVersionError::Encode);
            },
        };
        let ghost all = views(items@);
        let ghost domain = parsed_url.scheme@;
        let mut item_uris: Vec<String> = Vec::new();
        let mut i: usize = 0;
        while i < items.len()
            invariant
                i <= items@.len(),
                all == views(items@),
                domain == parsed_url.scheme@,
                url_parts(uri@) == Some(parsed_url@),
                items_encodable(views(items@)),
                date_encodable(opt_str_text(date_updated)),
                self@ == old(self)@,
                item_uris_of(domain, all.take(i as int)) == Some(views(item_uris@)),
            decreases items@.len() - i,
        {
            let joined = join_scheme_and_path(parsed_url.scheme.as_str(), items[i].path.as_str());
            proof {
                assert(all.take(i + 1).drop_last() =~= all.take(i as int));
                assert(all.take(i + 1).last() == all[i as int]);
            }
            match canonicalize_uri(joined.as_str()) {
                Ok(item_uri) => {
                    let ghost before = item_uris@;
                    item_uris.push(item_uri.text);
                    assert(views(item_uris@) =~= views(before).push(item_uri.text@));
                },
                Err(_) => {
                    proof {
                        assert(item_uris_of(domain, all.take(i + 1)) is None);
                        lemma_item_uris_prefix(domain, all, i + 1);
                    }
                    return Err(CreateVersionError::InvalidUri);
                },
            }
            i += 1;
        }
        assert(all.take(i as int) =~= all);
        let ghost row = SourceVersionView {
            id: None,
            uri: uri@,
            hash: hash@,
            metadata: encoded_metadata(metadata.tags@),
            date_updated: opt_str_text(date_updated),
            items: encoded_items(views(items@)),
        };
        if !holds_source_version(&self.source_versions, hash.as_str()) {
            let ghost before = self.source_versions@;
            self.source_versions.push(
                SourceVersion {
                    id: None,
                    uri: copy_str(uri),
                    hash: copy_str(hash.as_str()),
                    metadata: metadata_enc,
                    date_updated: own_opt_str(date_updated),
                    items: items_enc,
                },
            );
            assert(views(self.source_versions@) =~= views(before).push(row));
        }
        let ghost uris = views(item_uris@);
        let ghost assocs0 = old(self)@.source_version_associated_items;
        let mut k: usize = 0;
        while k < item_uris.len()
            invariant
                k <= item_uris@.len(),
                uris == views(item_uris@),
                views(self.source_version_associated_items@) == with_associations(
                    assocs0,
                    uri@,
                    hash@,
                    uris.take(k as int),
                ),
                views(self.source_versions@) == old(self)@.with_source_version(
                    row,
                    uris,
                ).source_versions,
                self.users == old(self).users,
                self.source_domains == old(self).source_domains,
                self.source_item_versions == old(self).source_item_versions,
                self.source_resources == old(self).source_resources,
                self.source_item_resource_dependencies == old(
                    self,
                ).source_item_resource_dependencies,
                self.user_sources == old(self).user_sources,
                self.user_source_items == old(self).user_source_items,
                self.user_source_subscriptions == old(self).user_source_subscriptions,
                self.user_source_domain_subscriptions == old(
                    self,
                ).user_source_domain_subscriptions,
                self.user_rss_auth_keys == old(self).user_rss_auth_keys,
                self.registration_tokens == old(self).registration_tokens,
            decreases item_uris@.len() - k,
        {
            proof {
                assert(uris.take(k + 1).drop_last() =~= uris.take(k as int));
                assert(uris.take(k + 1).last() == uris[k as int]);
            }
            insert_association(
                &mut self.source_version_associated_items,
                uri,
                hash.as_str(),
                item_uris[k].as_str(),
            );
            k += 1;
        }
        proof {
            assert(uris.take(k as int) =~= uris);
            assert(self@ =~~= old(self)@.with_source_version(row, uris));
        }
        Ok(hash)
    }

    /// Adds the version of an item whose data were compressed to `data`,
    /// unless the store holds a version with the hash.
    pub fn insert_source_item_version(
        &mut self,
        uri: &str,
        hash: &str,
        date_updated: Option<&str>,
        data: Vec<u8>,
    )
        ensures
            old(self)@.well_formed() ==> final(self)@.well_formed(),
            final(self)@ == old(self)@.with_item_version(
                SourceItemVersionView {
                    id: None,
                    uri: uri@,
                    hash: hash@,
                    date_updated: opt_str_text(date_updated),
                    data: gzip_content(data@),
                },
            ),
    {
        proof {
            if self@.well_formed() {
                lemma_item_version_stays_unique(
                    self@,
                    SourceItemVersionView {
                        id: None,
                        uri: uri@,
                        hash: hash@,
                        date_updated: opt_str_text(date_updated),
                        data: gzip_content(data@),
                    },
                );
            }
        }
        let ghost row = SourceItemVersionView {
            id: None,
            uri: uri@,
            hash: hash@,
            date_updated: opt_str_text(date_updated),
            data: gzip_content(data@),
        };
        if !holds_item_version(&self.source_item_versions, hash) {
            let ghost before = self.source_item_versions@;
            self.source_item_versions.push(
                SourceItemVersion {
                    id: None,
                    uri: copy_str(uri),
                    hash: copy_str(hash),
                    date_updated: own_opt_str(date_updated),
                    data,
                },
            );
            assert(views(self.source_item_versions@) =~= views(before).push(row));
            assert(self@ =~~= old(self)@.with_item_version(row));
        } else {
            assert(self@ =~~= old(self)@.with_item_version(row));
        }
    }

    /// Creates a new source item version and returns the hash.
    ///
    /// Will do nothing if the hash already exists. Fails, and changes nothing,
    /// where the URI is no URL, where the date cannot be encoded, or where
    /// the data of a version that is new to the store could not be
    /// compressed. The stored data decompress to the encoded contents.
    pub fn create_source_item_version(
        &mut self,
        uri: &str,
        contents: SourceItemData,
        date_updated: Option<&str>,
    ) -> (res: Result<String, CreateVersionError>)
        ensures
            old(self)@.well_formed() ==> final(self)@.well_formed(),
            match old(self)@.create_item_version_result(
                uri@,
                contents.tags@,
                opt_str_text(date_updated),
            ) {
                Ok((store, hash)) => (res matches Ok(h) && h@ == hash && h@.len() == 2 * DIGEST_LEN
                    && final(self)@ == store) || ((res matches Err(CreateVersionError::IoError))
                    && !old(self)@.has_item_version_hash(hash) && final(self)@ == old(self)@),
                Err(CreateFailure::InvalidUri) => res matches Err(CreateVersionError::InvalidUri)
                    && final(self)@ == old(self)@,
                Err(CreateFailure::Encode) => res matches Err(CreateVersionError::Encode)
                    && final(self)@ == old(self)@,
            },
    {
        proof {
            if self@.well_formed() {
                lemma_created_versions_stay_unique(
                    self@,
                    uri@,
                    contents.tags@,
                    Seq::empty(),
                    opt_str_text(date_updated),
                );
            }
        }
        if !is_valid_uri(uri) {
            return Err(CreateVersionError::InvalidUri);
        }
        let hash = match get_source_item_hash(&contents, date_updated) {
            Ok(h) => h,
            Err(_) => {
                return Err(CreateVersionError::Encode);
            },
        };
        if holds_item_version(&self.source_item_versions, hash.as_str()) {
            return Ok(hash);
        }
        let encoded = encode_item_data(&contents);
        let contents_enc = match gzip_compress(encoded.as_slice()) {
            Some(z) => z,
            None => {
                return Err(CreateVersionError::IoError);
            },
        };
        self.insert_source_item_version(uri, hash.as_str(), date_updated, contents_enc);
        Ok(hash)
    }

    /// Performs garbage-collection.
    ///
    /// - Deletes source versions that are not referenced in any user sources
    /// - Deletes source item versions that are not referenced in any user source items
    /// - Deletes associations whose source version is gone or whose item has
    ///   no version
    /// - Deletes resource dependencies of item versions that are gone
    /// - Deletes resources that no dependency names
    pub fn garbage_collect_sources(&mut self) -> (res: Result<(), DataError>)
        ensures
            old(self)@.well_formed() ==> final(self)@.well_formed(),
            res is Ok,
            final(self)@ == old(self)@.garbage_collected(),
    {
        proof {
            if self@.well_formed() {
                lemma_deleting_stays_unique(self@, 0);
            }
        }
        let ghost d0 = self@;
        {
            let pointers = &self.user_sources;
            let ghost pred = |v: SourceVersionView| d0.source_hash_referenced(v.hash);
            let keep = |v: &SourceVersion| -> (b: bool)
                ensures
                    b == pred(v@),
                { points_at_source(pointers, v.hash.as_str()) };
            let rows = take_rows(&mut self.source_versions);
            self.source_versions = retain(rows, keep, Ghost(pred));
        }
        let ghost d1 = self@;
        assert(d1 =~~= d0.without_unreferenced_sources());
        {
            let pointers = &self.user_source_items;
            let ghost pred = |v: SourceItemVersionView| d1.item_hash_referenced(v.hash);
            let keep = |v: &SourceItemVersion| -> (b: bool)
                ensures
                    b == pred(v@),
                { points_at_item(pointers, v.hash.as_str()) };
            let rows = take_rows(&mut self.source_item_versions);
            self.source_item_versions = retain(rows, keep, Ghost(pred));
        }
        let ghost d2 = self@;
        assert(d2 =~~= d1.without_unreferenced_items());
        {
            let sources = &self.source_versions;
            let items = &self.source_item_versions;
            let ghost pred = |a: AssociatedItemView|
                d2.has_source_version(a.source_hash) && d2.has_item_version_at(a.item_uri);
            let keep = |a: &AssociatedItem| -> (b: bool)
                ensures
                    b == pred(a@),
                {
                    holds_source_version(sources, a.source_hash.as_str())
                        && holds_item_version_at(items, a.item_uri.as_str())
                };
            let rows = take_rows(&mut self.source_version_associated_items);
            self.source_version_associated_items = retain(rows, keep, Ghost(pred));
        }
        let ghost d3 = self@;
        assert(d3 =~~= d2.without_orphaned_associations());
        {
            let items = &self.source_item_versions;
            let ghost pred = |d: ResourceDependencyView|
                d3.has_item_version_hash(d.source_item_hash);
            let keep = |d: &ResourceDependency| -> (b: bool)
                ensures
                    b == pred(d@),
                { holds_item_version(items, d.source_item_hash.as_str()) };
            let rows = take_rows(&mut self.source_item_resource_dependencies);
            self.source_item_resource_dependencies = retain(rows, keep, Ghost(pred));
        }
        let ghost d4 = self@;
        assert(d4 =~~= d3.without_orphaned_dependencies());
        {
            let deps = &self.source_item_resource_dependencies;
            let ghost pred = |r: SourceResourceView| d4.resource_needed(r.hash);
            let keep = |r: &SourceResource| -> (b: bool)
                ensures
                    b == pred(r@),
                { depends_on_resource(deps, r.hash.as_str()) };
            let rows = take_rows(&mut self.source_resources);
            self.source_resources = retain(rows, keep, Ghost(pred));
        }
        assert(self@ =~~= d4.without_unneeded_resources());
        Ok(())
    }
}

/// Whether the date `a` comes strictly before the date `b`: no date comes
/// before every date, and two dates compare as their UTF-8 bytes do.
pub open spec fn date_before(a: Option<Seq<char>>, b: Option<Seq<char>>) -> bool {
    match (a, b) {
        (None, Some(_)) => true,
        (Some(x), Some(y)) => bytes_before(encode_utf8(x), encode_utf8(y)),
        _ => false,
    }
}

/// The pointer to the source at `uri` with the latest date of a version: of
/// several with the latest date, the first.
pub open spec fn latest_pointer(rows: Seq<UserSourceView>, uri: Seq<char>) -> Option<
    UserSourceView,
>
    decreases rows.len(),
{
    if rows.len() == 0 {
        None
    } else {
        let earlier = latest_pointer(rows.drop_last(), uri);
        let row = rows.last();
        if row.uri != uri {
            earlier
        } else {
            match earlier {
                Some(best) => if date_before(best.version_date, row.version_date) {
                    Some(row)
                } else {
                    Some(best)
                },
                None => Some(row),
            }
        }
    }
}

impl DataView {
    /// The hash of the version of the source at `uri` that was fetched last
    /// for any user, if the pointer with the latest date holds one.
    pub open spec fn latest_user_source_version(self, uri: Seq<char>) -> Option<Seq<char>> {
        match latest_pointer(self.user_sources, uri) {
            Some(row) => row.version_hash,
            None => None,
        }
    }
}

/// Whether the date `a` comes strictly before the date `b`.
fn date_lt(a: &Option<String>, b: &Option<String>) -> (before: bool)
    ensures
        before == date_before(opt_text(*a), opt_text(*b)),
{
    match (a, b) {
        (None, Some(_)) => true,
        (Some(x), Some(y)) => bytes_lt(x.as_str().as_bytes(), y.as_str().as_bytes()),
        _ => false,
    }
}

impl Data {
    /// Returns the source version hash which corresponds to the newest fetch date according to an
    /// associated user source (belonging to any user).
    pub fn latest_user_source_version(&self, uri: &str) -> (res: Result<Option<String>, DataError>)
        ensures
            res matches Ok(hash) && opt_text(hash) == self@.latest_user_source_version(uri@),
    {
        let ghost all = self@.user_sources;
        let mut best: Option<usize> = None;
        let mut i: usize = 0;
        while i < self.user_sources.len()
            invariant
                i <= self.user_sources@.len(),
                all == views(self.user_sources@),
                match best {
                    Some(k) => k < i && latest_pointer(all.take(i as int), uri@) == Some(
                        all[k as int],
                    ),
                    None => latest_pointer(all.take(i as int), uri@) is None,
                },
            decreases self.user_sources@.len() - i,
        {
            proof {
                assert(all.take(i + 1).drop_last() =~= all.take(i as int));
                assert(all.take(i + 1).last() == all[i as int]);
            }
            let row = &self.user_sources[i];
            if str_eq(row.uri.as_str(), uri) {
                match best {
                    Some(k) => {
                        if date_lt(&self.user_sources[k].version_date, &row.version_date) {
                            best = Some(i);
                        }
                    },
                    None => {
                        best = Some(i);
                    },
                }
            }
            i += 1;
        }
        assert(all.take(i as int) =~= all);
        match best {
            Some(k) => Ok(crate::text::copy_opt_str(&self.user_sources[k].version_hash)),
            None => Ok(None),
        }
    }
}

} // verus!
