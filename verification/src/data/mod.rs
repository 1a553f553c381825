//! The content store: versions of sources and items found by their hash, the
//! pointers of users to versions, subscriptions, domains and users.

use vstd::prelude::*;

pub mod domains;
pub mod encoding;
pub mod laws;
pub mod models;
pub mod password;
pub mod registration;
pub mod rss_auth_keys;
pub mod sources;
pub mod table;
pub mod users;
pub mod validity;

use models::{
    views, AssociatedItem, AssociatedItemView, DomainSubscription, DomainSubscriptionView,
    RegistrationToken, RegistrationTokenView, ResourceDependency, ResourceDependencyView,
    RssAuthKey, RssAuthKeyView, SourceDomain, SourceDomainView, SourceItemVersion,
    SourceItemVersionView, SourceResource, SourceResourceView, SourceSubscription,
    SourceSubscriptionView, SourceVersion, SourceVersionView, User, UserSource, UserSourceItem,
    UserSourceItemView, UserSourceView, UserView,
};

verus! {

/// Data interface: the tables of the store, each with its rows in the order
/// in which they were added.
pub struct Data {
    pub users: Vec<User>,
    pub source_domains: Vec<SourceDomain>,
    pub source_versions: Vec<SourceVersion>,
    pub source_item_versions: Vec<SourceItemVersion>,
    pub source_version_associated_items: Vec<AssociatedItem>,
    pub source_resources: Vec<SourceResource>,
    pub source_item_resource_dependencies: Vec<ResourceDependency>,
    pub user_sources: Vec<UserSource>,
    pub user_source_items: Vec<UserSourceItem>,
    pub user_source_subscriptions: Vec<SourceSubscription>,
    pub user_source_domain_subscriptions: Vec<DomainSubscription>,
    pub user_rss_auth_keys: Vec<RssAuthKey>,
    pub registration_tokens: Vec<RegistrationToken>,
}

/// What the store holds.
#[verifier::ext_equal]
pub struct DataView {
    pub users: Seq<UserView>,
    pub source_domains: Seq<SourceDomainView>,
    pub source_versions: Seq<SourceVersionView>,
    pub source_item_versions: Seq<SourceItemVersionView>,
    pub source_version_associated_items: Seq<AssociatedItemView>,
    pub source_resources: Seq<SourceResourceView>,
    pub source_item_resource_dependencies: Seq<ResourceDependencyView>,
    pub user_sources: Seq<UserSourceView>,
    pub user_source_items: Seq<UserSourceItemView>,
    pub user_source_subscriptions: Seq<SourceSubscriptionView>,
    pub user_source_domain_subscriptions: Seq<DomainSubscriptionView>,
    pub user_rss_auth_keys: Seq<RssAuthKeyView>,
    pub registration_tokens: Seq<RegistrationTokenView>,
}

impl View for Data {
    type V = DataView;

    open spec fn view(&self) -> DataView {
        DataView {
            users: views(self.users@),
            source_domains: views(self.source_domains@),
            source_versions: views(self.source_versions@),
            source_item_versions: views(self.source_item_versions@),
            source_version_associated_items: views(self.source_version_associated_items@),
            source_resources: views(self.source_resources@),
            source_item_resource_dependencies: views(self.source_item_resource_dependencies@),
            user_sources: views(self.user_sources@),
            user_source_items: views(self.user_source_items@),
            user_source_subscriptions: views(self.user_source_subscriptions@),
            user_source_domain_subscriptions: views(self.user_source_domain_subscriptions@),
            user_rss_auth_keys: views(self.user_rss_auth_keys@),
            registration_tokens: views(self.registration_tokens@),
        }
    }
}

impl DataView {
    /// The store without a row.
    pub open spec fn empty() -> DataView {
        DataView {
            users: Seq::empty(),
            source_domains: Seq::empty(),
            source_versions: Seq::empty(),
            source_item_versions: Seq::empty(),
            source_version_associated_items: Seq::empty(),
            source_resources: Seq::empty(),
            source_item_resource_dependencies: Seq::empty(),
            user_sources: Seq::empty(),
            user_source_items: Seq::empty(),
            user_source_subscriptions: Seq::empty(),
            user_source_domain_subscriptions: Seq::empty(),
            user_rss_auth_keys: Seq::empty(),
            registration_tokens: Seq::empty(),
        }
    }
}

/// A data fetch error. This is always an unexpected error.
#[derive(Debug, Clone, Copy, PartialEq, Eq, Structural)]
pub enum DataError {
    /// The store refused a row.
    Database,
    /// A stored blob does not decode.
    Decode,
    /// A stored blob does not decompress.
    Io,
}

impl Data {
    /// Creates a new, empty store.
    pub fn new() -> (data: Data)
        ensures
            data@ == DataView::empty(),
            data@.well_formed(),
    {
        let data = Data {
            users: Vec::new(),
            source_domains: Vec::new(),
            source_versions: Vec::new(),
            source_item_versions: Vec::new(),
            source_version_associated_items: Vec::new(),
            source_resources: Vec::new(),
            source_item_resource_dependencies: Vec::new(),
            user_sources: Vec::new(),
            user_source_items: Vec::new(),
            user_source_subscriptions: Vec::new(),
            user_source_domain_subscriptions: Vec::new(),
            user_rss_auth_keys: Vec::new(),
            registration_tokens: Vec::new(),
        };
        assert(data@ =~~= DataView::empty());
        data
    }
}

/// Takes the rows out of a table and leaves it empty.
pub(crate) fn take_rows<T>(table: &mut Vec<T>) -> (rows: Vec<T>)
    ensures
        rows@ == old(table)@,
        final(table)@.len() == 0,
{
    let mut rows: Vec<T> = Vec::new();
    core::mem::swap(table, &mut rows);
    rows
}

} // verus!
