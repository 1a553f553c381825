//! The rows of the store. Each row type has a view that holds its text as
//! sequences of characters and its blobs as sequences of bytes.

use vstd::prelude::*;

use crate::gzip::gzip_content;
use crate::text::{copy_bytes, copy_opt_bytes, copy_opt_str, copy_str, opt_text};

verus! {

/// The bytes of an optional blob.
pub open spec fn opt_bytes(b: Option<Vec<u8>>) -> Option<Seq<u8>> {
    match b {
        Some(b) => Some(b@),
        None => None,
    }
}

/// The views of the rows of a table, in the table's order.
pub open spec fn views<T: View>(rows: Seq<T>) -> Seq<T::V> {
    Seq::new(rows.len(), |i: int| rows[i]@)
}

/// A registered user.
#[derive(Debug)]
pub struct User {
    pub id: Option<i32>,
    /// Unique, normalized name.
    pub name: String,
    /// The password verifier: derived key and salt in base64, joined by `$`.
    pub password: String,
    /// The encrypted envelope of the user's secret key.
    pub secret_key: String,
    pub tokens: i32,
    pub client_key: Vec<u8>,
}

/// What a `User` holds.
pub struct UserView {
    pub id: Option<i32>,
    pub name: Seq<char>,
    pub password: Seq<char>,
    pub secret_key: Seq<char>,
    pub tokens: i32,
    pub client_key: Seq<u8>,
}

impl View for User {
    type V = UserView;

    open spec fn view(&self) -> UserView {
        UserView {
            id: self.id,
            name: self.name@,
            password: self.password@,
            secret_key: self.secret_key@,
            tokens: self.tokens,
            client_key: self.client_key@,
        }
    }
}

impl User {
    /// A copy of this row.
    pub fn copy(&self) -> (row: User)
        ensures
            row@ == self@,
    {
        User {
            id: self.id,
            name: copy_str(self.name.as_str()),
            password: copy_str(self.password.as_str()),
            secret_key: copy_str(self.secret_key.as_str()),
            tokens: self.tokens,
            client_key: copy_bytes(self.client_key.as_slice()),
        }
    }
}

/// What one user sees of one source: the version the user points at and the user's own data.
#[derive(Debug)]
pub struct UserSource {
    pub id: Option<i32>,
    pub user_id: i32,
    pub uri: String,
    pub version_date: Option<String>,
    pub version_hash: Option<String>,
    pub user_data: Option<Vec<u8>>,
}

/// What a `UserSource` holds.
pub struct UserSourceView {
    pub id: Option<i32>,
    pub user_id: i32,
    pub uri: Seq<char>,
    pub version_date: Option<Seq<char>>,
    pub version_hash: Option<Seq<char>>,
    pub user_data: Option<Seq<u8>>,
}

impl View for UserSource {
    type V = UserSourceView;

    open spec fn view(&self) -> UserSourceView {
        UserSourceView {
            id: self.id,
            user_id: self.user_id,
            uri: self.uri@,
            version_date: opt_text(self.version_date),
            version_hash: opt_text(self.version_hash),
            user_data: opt_bytes(self.user_data),
        }
    }
}

impl UserSource {
    /// A copy of this row.
    pub fn copy(&self) -> (row: UserSource)
        ensures
            row@ == self@,
    {
        UserSource {
            id: self.id,
            user_id: self.user_id,
            uri: copy_str(self.uri.as_str()),
            version_date: copy_opt_str(&self.version_date),
            version_hash: copy_opt_str(&self.version_hash),
            user_data: copy_opt_bytes(&self.user_data),
        }
    }
}

/// What one user sees of one source item.
#[derive(Debug)]
pub struct UserSourceItem {
    pub id: Option<i32>,
    pub user_id: i32,
    pub uri: String,
    pub version_date: Option<String>,
    pub version_hash: Option<String>,
    pub user_data: Option<Vec<u8>>,
}

/// What a `UserSourceItem` holds.
pub struct UserSourceItemView {
    pub id: Option<i32>,
    pub user_id: i32,
    pub uri: Seq<char>,
    pub version_date: Option<Seq<char>>,
    pub version_hash: Option<Seq<char>>,
    pub user_data: Option<Seq<u8>>,
}

impl View for UserSourceItem {
    type V = UserSourceItemView;

    open spec fn view(&self) -> UserSourceItemView {
        UserSourceItemView {
            id: self.id,
            user_id: self.user_id,
            uri: self.uri@,
            version_date: opt_text(self.version_date),
            version_hash: opt_text(self.version_hash),
            user_data: opt_bytes(self.user_data),
        }
    }
}

impl UserSourceItem {
    /// A copy of this row.
    pub fn copy(&self) -> (row: UserSourceItem)
        ensures
            row@ == self@,
    {
        UserSourceItem {
            id: self.id,
            user_id: self.user_id,
            uri: copy_str(self.uri.as_str()),
            version_date: copy_opt_str(&self.version_date),
            version_hash: copy_opt_str(&self.version_hash),
            user_data: copy_opt_bytes(&self.user_data),
        }
    }
}

/// A version of a source, found by its hash.
#[derive(Debug)]
pub struct SourceVersion {
    pub id: Option<i32>,
    pub uri: String,
    pub hash: String,
    /// The encoded metadata.
    pub metadata: Vec<u8>,
    pub date_updated: Option<String>,
    /// The encoded item list.
    pub items: Vec<u8>,
}

/// What a `SourceVersion` holds.
pub struct SourceVersionView {
    pub id: Option<i32>,
    pub uri: Seq<char>,
    pub hash: Seq<char>,
    pub metadata: Seq<u8>,
    pub date_updated: Option<Seq<char>>,
    pub items: Seq<u8>,
}

impl View for SourceVersion {
    type V = SourceVersionView;

    open spec fn view(&self) -> SourceVersionView {
        SourceVersionView {
            id: self.id,
            uri: self.uri@,
            hash: self.hash@,
            metadata: self.metadata@,
            date_updated: opt_text(self.date_updated),
            items: self.items@,
        }
    }
}

impl SourceVersion {
    /// A copy of this row.
    pub fn copy(&self) -> (row: SourceVersion)
        ensures
            row@ == self@,
    {
        SourceVersion {
            id: self.id,
            uri: copy_str(self.uri.as_str()),
            hash: copy_str(self.hash.as_str()),
            metadata: copy_bytes(self.metadata.as_slice()),
            date_updated: copy_opt_str(&self.date_updated),
            items: copy_bytes(self.items.as_slice()),
        }
    }
}

/// A version of a source item, found by its hash.
#[derive(Debug)]
pub struct SourceItemVersion {
    pub id: Option<i32>,
    pub uri: String,
    pub hash: String,
    pub date_updated: Option<String>,
    /// The encoded item data, compressed.
    pub data: Vec<u8>,
}

/// What a `SourceItemVersion` holds.
pub struct SourceItemVersionView {
    pub id: Option<i32>,
    pub uri: Seq<char>,
    pub hash: Seq<char>,
    pub date_updated: Option<Seq<char>>,
    /// The encoded item data that the stored bytes decompress to, or nothing
    /// where they do not decompress.
    pub data: Option<Seq<u8>>,
}

impl View for SourceItemVersion {
    type V = SourceItemVersionView;

    open spec fn view(&self) -> SourceItemVersionView {
        SourceItemVersionView {
            id: self.id,
            uri: self.uri@,
            hash: self.hash@,
            date_updated: opt_text(self.date_updated),
            data: gzip_content(self.data@),
        }
    }
}

impl SourceItemVersion {
    /// A copy of this row.
    pub fn copy(&self) -> (row: SourceItemVersion)
        ensures
            row@ == self@,
    {
        SourceItemVersion {
            id: self.id,
            uri: copy_str(self.uri.as_str()),
            hash: copy_str(self.hash.as_str()),
            date_updated: copy_opt_str(&self.date_updated),
            data: copy_bytes(self.data.as_slice()),
        }
    }
}

/// A binary attachment that items refer to.
#[derive(Debug)]
pub struct SourceResource {
    pub id: Option<i32>,
    pub hash: String,
    pub metadata: Vec<u8>,
    pub data: Vec<u8>,
}

/// What a `SourceResource` holds.
pub struct SourceResourceView {
    pub id: Option<i32>,
    pub hash: Seq<char>,
    pub metadata: Seq<u8>,
    pub data: Seq<u8>,
}

impl View for SourceResource {
    type V = SourceResourceView;

    open spec fn view(&self) -> SourceResourceView {
        SourceResourceView {
            id: self.id,
            hash: self.hash@,
            metadata: self.metadata@,
            data: self.data@,
        }
    }
}

impl SourceResource {
    /// A copy of this row.
    pub fn copy(&self) -> (row: SourceResource)
        ensures
            row@ == self@,
    {
        SourceResource {
            id: self.id,
            hash: copy_str(self.hash.as_str()),
            metadata: copy_bytes(self.metadata.as_slice()),
            data: copy_bytes(self.data.as_slice()),
        }
    }
}

/// A namespace of sources with the script that fetches them.
#[derive(Debug)]
pub struct SourceDomain {
    pub id: Option<i32>,
    /// The identifier, which is the scheme of every URI of the domain.
    pub domain: String,
    pub abbrev: String,
    pub name: String,
    pub description: String,
    pub owner_id: i32,
    pub is_public: bool,
    pub script: String,
}

/// What a `SourceDomain` holds.
pub struct SourceDomainView {
    pub id: Option<i32>,
    pub domain: Seq<char>,
    pub abbrev: Seq<char>,
    pub name: Seq<char>,
    pub description: Seq<char>,
    pub owner_id: i32,
    pub is_public: bool,
    pub script: Seq<char>,
}

impl View for SourceDomain {
    type V = SourceDomainView;

    open spec fn view(&self) -> SourceDomainView {
        SourceDomainView {
            id: self.id,
            domain: self.domain@,
            abbrev: self.abbrev@,
            name: self.name@,
            description: self.description@,
            owner_id: self.owner_id,
            is_public: self.is_public,
            script: self.script@,
        }
    }
}

impl SourceDomain {
    /// A copy of this row.
    pub fn copy(&self) -> (row: SourceDomain)
        ensures
            row@ == self@,
    {
        SourceDomain {
            id: self.id,
            domain: copy_str(self.domain.as_str()),
            abbrev: copy_str(self.abbrev.as_str()),
            name: copy_str(self.name.as_str()),
            description: copy_str(self.description.as_str()),
            owner_id: self.owner_id,
            is_public: self.is_public,
            script: copy_str(self.script.as_str()),
        }
    }
}

/// A key that grants read-only access to one user's sources.
#[derive(Debug)]
pub struct RssAuthKey {
    pub id: Option<i32>,
    pub user_id: i32,
    pub label: Option<String>,
    pub auth_key: String,
    pub tokens: i32,
}

/// What a `RssAuthKey` holds.
pub struct RssAuthKeyView {
    pub id: Option<i32>,
    pub user_id: i32,
    pub label: Option<Seq<char>>,
    pub auth_key: Seq<char>,
    pub tokens: i32,
}

impl View for RssAuthKey {
    type V = RssAuthKeyView;

    open spec fn view(&self) -> RssAuthKeyView {
        RssAuthKeyView {
            id: self.id,
            user_id: self.user_id,
            label: opt_text(self.label),
            auth_key: self.auth_key@,
            tokens: self.tokens,
        }
    }
}

impl RssAuthKey {
    /// A copy of this row.
    pub fn copy(&self) -> (row: RssAuthKey)
        ensures
            row@ == self@,
    {
        RssAuthKey {
            id: self.id,
            user_id: self.user_id,
            label: copy_opt_str(&self.label),
            auth_key: copy_str(self.auth_key.as_str()),
            tokens: self.tokens,
        }
    }
}

/// An item that a version of a source lists.
#[derive(Debug)]
pub struct AssociatedItem {
    pub source_uri: String,
    pub source_hash: String,
    pub item_uri: String,
}

/// What a `AssociatedItem` holds.
pub struct AssociatedItemView {
    pub source_uri: Seq<char>,
    pub source_hash: Seq<char>,
    pub item_uri: Seq<char>,
}

impl View for AssociatedItem {
    type V = AssociatedItemView;

    open spec fn view(&self) -> AssociatedItemView {
        AssociatedItemView {
            source_uri: self.source_uri@,
            source_hash: self.source_hash@,
            item_uri: self.item_uri@,
        }
    }
}

impl AssociatedItem {
    /// A copy of this row.
    pub fn copy(&self) -> (row: AssociatedItem)
        ensures
            row@ == self@,
    {
        AssociatedItem {
            source_uri: copy_str(self.source_uri.as_str()),
            source_hash: copy_str(self.source_hash.as_str()),
            item_uri: copy_str(self.item_uri.as_str()),
        }
    }
}

/// A resource that a version of an item needs.
#[derive(Debug)]
pub struct ResourceDependency {
    pub source_item_hash: String,
    pub resource_hash: String,
}

/// What a `ResourceDependency` holds.
pub struct ResourceDependencyView {
    pub source_item_hash: Seq<char>,
    pub resource_hash: Seq<char>,
}

impl View for ResourceDependency {
    type V = ResourceDependencyView;

    open spec fn view(&self) -> ResourceDependencyView {
        ResourceDependencyView {
            source_item_hash: self.source_item_hash@,
            resource_hash: self.resource_hash@,
        }
    }
}

impl ResourceDependency {
    /// A copy of this row.
    pub fn copy(&self) -> (row: ResourceDependency)
        ensures
            row@ == self@,
    {
        ResourceDependency {
            source_item_hash: copy_str(self.source_item_hash.as_str()),
            resource_hash: copy_str(self.resource_hash.as_str()),
        }
    }
}

/// A user's subscription to a source.
#[derive(Debug)]
pub struct SourceSubscription {
    pub user_id: i32,
    pub uri: String,
}

/// What a `SourceSubscription` holds.
pub struct SourceSubscriptionView {
    pub user_id: i32,
    pub uri: Seq<char>,
}

impl View for SourceSubscription {
    type V = SourceSubscriptionView;

    open spec fn view(&self) -> SourceSubscriptionView {
        SourceSubscriptionView {
            user_id: self.user_id,
            uri: self.uri@,
        }
    }
}

impl SourceSubscription {
    /// A copy of this row.
    pub fn copy(&self) -> (row: SourceSubscription)
        ensures
            row@ == self@,
    {
        SourceSubscription {
            user_id: self.user_id,
            uri: copy_str(self.uri.as_str()),
        }
    }
}

/// A user's subscription to a domain.
#[derive(Debug)]
pub struct DomainSubscription {
    pub user_id: i32,
    pub domain: String,
}

/// What a `DomainSubscription` holds.
pub struct DomainSubscriptionView {
    pub user_id: i32,
    pub domain: Seq<char>,
}

impl View for DomainSubscription {
    type V = DomainSubscriptionView;

    open spec fn view(&self) -> DomainSubscriptionView {
        DomainSubscriptionView {
            user_id: self.user_id,
            domain: self.domain@,
        }
    }
}

impl DomainSubscription {
    /// A copy of this row.
    pub fn copy(&self) -> (row: DomainSubscription)
        ensures
            row@ == self@,
    {
        DomainSubscription {
            user_id: self.user_id,
            domain: copy_str(self.domain.as_str()),
        }
    }
}

/// A one-shot token that allows one registration until its deadline.
#[derive(Debug)]
pub struct RegistrationToken {
    pub token: String,
    /// The deadline, as an RFC 3339 date.
    pub valid_until: String,
}

/// What a `RegistrationToken` holds.
pub struct RegistrationTokenView {
    pub token: Seq<char>,
    pub valid_until: Seq<char>,
}

impl View for RegistrationToken {
    type V = RegistrationTokenView;

    open spec fn view(&self) -> RegistrationTokenView {
        RegistrationTokenView {
            token: self.token@,
            valid_until: self.valid_until@,
        }
    }
}

impl RegistrationToken {
    /// A copy of this row.
    pub fn copy(&self) -> (row: RegistrationToken)
        ensures
            row@ == self@,
    {
        RegistrationToken {
            token: copy_str(self.token.as_str()),
            valid_until: copy_str(self.valid_until.as_str()),
        }
    }
}

/// The values of a user that is about to be stored.
pub struct NewUser<'a> {
    pub name: &'a str,
    pub password: &'a str,
    pub secret_key: &'a str,
    pub tokens: &'a i32,
    pub client_key: &'a [u8],
}

/// The values of a domain that is about to be stored.
pub struct NewSourceDomain<'a> {
    pub domain: &'a str,
    pub abbrev: &'a str,
    pub name: &'a str,
    pub description: &'a str,
    pub owner_id: &'a i32,
    pub is_public: &'a bool,
    pub script: &'a str,
}

} // verus!
