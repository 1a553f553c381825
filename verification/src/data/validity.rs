//! What the tables of the store hold whatever is done to it: at most one
//! pointer for a user and a URI, each subscription once, each domain id
//! once, and each version once under its hash.

use vstd::prelude::*;

use crate::data::models::{
    DomainSubscriptionView, SourceDomainView, SourceItemVersionView, SourceSubscriptionView,
    SourceVersionView, UserSourceItemView, UserSourceView,
};
use crate::data::table::{
    any_where, lemma_unique_filter, lemma_unique_push, lemma_unique_same_keys, unique_by,
};
use crate::data::users::UserId;
use crate::data::DataView;

verus! {

impl DataView {
    /// Whether a user has at most one pointer at a source and at most one at
    /// an item.
    pub open spec fn pointers_unique(self) -> bool {
        unique_by(self.user_sources, |p: UserSourceView| (p.user_id, p.uri)) && unique_by(
            self.user_source_items,
            |p: UserSourceItemView| (p.user_id, p.uri),
        )
    }

    /// Whether the subscriptions are sets: a user is subscribed to a source,
    /// and to a domain, once at most.
    pub open spec fn subscriptions_unique(self) -> bool {
        unique_by(self.user_source_subscriptions, |s: SourceSubscriptionView| (s.user_id, s.uri))
            && unique_by(
            self.user_source_domain_subscriptions,
            |s: DomainSubscriptionView| (s.user_id, s.domain),
        )
    }

    /// Whether no two domains have the same identifier.
    pub open spec fn domain_ids_unique(self) -> bool {
        unique_by(self.source_domains, |d: SourceDomainView| d.domain)
    }

    /// Whether no two versions of a source, and no two versions of an item,
    /// have the same hash.
    pub open spec fn hashes_unique(self) -> bool {
        unique_by(self.source_versions, |v: SourceVersionView| v.hash) && unique_by(
            self.source_item_versions,
            |v: SourceItemVersionView| v.hash,
        )
    }

    /// The invariant of the store: its tables hold no row twice under the
    /// key by which it is found.
    pub open spec fn well_formed(self) -> bool {
        self.pointers_unique() && self.subscriptions_unique() && self.domain_ids_unique()
            && self.hashes_unique()
    }
}

/// The empty store is well-formed.
pub proof fn lemma_empty_well_formed()
    ensures
        DataView::empty().well_formed(),
{
}

/// Updating and deleting what a user sees of a source or of an item keeps
/// the store well-formed: a pointer is added only where the user has none,
/// and a change leaves the user and the URI of a pointer as they are.
pub proof fn lemma_pointers_stay_unique(
    d: DataView,
    user: UserId,
    uri: Seq<char>,
    date: Seq<char>,
    hash: Seq<char>,
    data: Seq<u8>,
)
    requires
        d.well_formed(),
    ensures
        d.with_source_pointer(user, uri).well_formed(),
        d.with_item_pointer(user, uri).well_formed(),
        d.user_update_source(user, uri, date, hash).well_formed(),
        d.user_update_source_data(user, uri, data).well_formed(),
        d.user_delete_source(user, uri).well_formed(),
        d.user_update_source_item(user, uri, date, hash).well_formed(),
        d.user_update_source_item_data(user, uri, data).well_formed(),
        d.user_delete_source_item(user, uri).well_formed(),
{
    let key = |p: UserSourceView| (p.user_id, p.uri);
    let with_row = d.with_source_pointer(user, uri);
    if !any_where(d.user_sources, |r: UserSourceView| r.user_id == user && r.uri == uri) {
        let row = crate::data::sources::new_source_pointer(user, uri);
        assert forall|i: int| 0 <= i < d.user_sources.len() implies key(
            #[trigger] d.user_sources[i],
        ) != key(row) by {
            assert(!(|r: UserSourceView| r.user_id == user && r.uri == uri)(d.user_sources[i]));
        }
        lemma_unique_push(d.user_sources, key, row);
    }
    lemma_unique_same_keys(
        with_row.user_sources,
        d.user_update_source(user, uri, date, hash).user_sources,
        key,
    );
    lemma_unique_same_keys(
        with_row.user_sources,
        d.user_update_source_data(user, uri, data).user_sources,
        key,
    );
    lemma_unique_same_keys(d.user_sources, d.user_delete_source(user, uri).user_sources, key);

    let item_key = |p: UserSourceItemView| (p.user_id, p.uri);
    let with_item = d.with_item_pointer(user, uri);
    if !any_where(d.user_source_items, |r: UserSourceItemView| r.user_id == user && r.uri == uri) {
        let row = crate::data::sources::new_item_pointer(user, uri);
        assert forall|i: int| 0 <= i < d.user_source_items.len() implies item_key(
            #[trigger] d.user_source_items[i],
        ) != item_key(row) by {
            assert(!(|r: UserSourceItemView| r.user_id == user && r.uri == uri)(
                d.user_source_items[i],
            ));
        }
        lemma_unique_push(d.user_source_items, item_key, row);
    }
    lemma_unique_same_keys(
        with_item.user_source_items,
        d.user_update_source_item(user, uri, date, hash).user_source_items,
        item_key,
    );
    lemma_unique_same_keys(
        with_item.user_source_items,
        d.user_update_source_item_data(user, uri, data).user_source_items,
        item_key,
    );
    lemma_unique_same_keys(
        d.user_source_items,
        d.user_delete_source_item(user, uri).user_source_items,
        item_key,
    );
}

/// Subscribing and unsubscribing keep the store well-formed: a user is
/// subscribed to a source only where the user was not, and to a domain the
/// same.
pub proof fn lemma_subscriptions_stay_unique(d: DataView, user: UserId, name: Seq<char>)
    requires
        d.well_formed(),
    ensures
        d.subscribe_result(user, name) matches Ok(after) ==> after.well_formed(),
        d.unsubscribe_result(user, name) matches Ok(after) ==> after.well_formed(),
        d.unsubscribe(user, name).well_formed(),
        !d.is_subscribed(user, name) ==> d.subscribe(user, name).well_formed(),
        !d.is_subscribed_to_domain(user, name) ==> d.subscribe_domain(user, name).well_formed(),
        d.unsubscribe_domain(user, name).well_formed(),
{
    let key = |s: SourceSubscriptionView| (s.user_id, s.uri);
    if !d.is_subscribed(user, name) {
        let row = SourceSubscriptionView { user_id: user, uri: name };
        assert forall|i: int| 0 <= i < d.user_source_subscriptions.len() implies key(
            #[trigger] d.user_source_subscriptions[i],
        ) != key(row) by {
            assert(!(|r: SourceSubscriptionView| r.user_id == user && r.uri == name)(
                d.user_source_subscriptions[i],
            ));
        }
        lemma_unique_push(d.user_source_subscriptions, key, row);
    }
    lemma_unique_filter(
        d.user_source_subscriptions,
        key,
        |r: SourceSubscriptionView| !(r.user_id == user && r.uri == name),
    );
    let domain_key = |s: DomainSubscriptionView| (s.user_id, s.domain);
    if !d.is_subscribed_to_domain(user, name) {
        let row = DomainSubscriptionView { user_id: user, domain: name };
        assert forall|i: int| 0 <= i < d.user_source_domain_subscriptions.len() implies domain_key(
            #[trigger] d.user_source_domain_subscriptions[i],
        ) != domain_key(row) by {
            assert(!(|s: DomainSubscriptionView| s.user_id == user && s.domain == name)(
                d.user_source_domain_subscriptions[i],
            ));
        }
        lemma_unique_push(d.user_source_domain_subscriptions, domain_key, row);
    }
    lemma_unique_filter(
        d.user_source_domain_subscriptions,
        domain_key,
        |s: DomainSubscriptionView| !(s.user_id == user && s.domain == name),
    );
}

/// Adding a domain under an identifier that no domain has, changing a
/// domain and deleting one keep the store well-formed.
pub proof fn lemma_domains_stay_unique(
    d: DataView,
    domain: Seq<char>,
    owner: UserId,
    id: Option<i32>,
    abbrev: Seq<char>,
    name: Seq<char>,
    description: Seq<char>,
    is_public: bool,
    script: Seq<char>,
)
    requires
        d.well_formed(),
    ensures
        !d.is_domain_id_taken(domain) ==> d.with_new_domain(
            domain,
            owner,
            abbrev,
            name,
        ).well_formed(),
        d.with_domain_updated(id, abbrev, name, description, is_public, script).well_formed(),
        d.without_domain(id).well_formed(),
{
    let key = |v: SourceDomainView| v.domain;
    if !d.is_domain_id_taken(domain) {
        let made = d.with_new_domain(domain, owner, abbrev, name);
        let row = made.source_domains[d.source_domains.len() as int];
        assert forall|i: int| 0 <= i < d.source_domains.len() implies key(
            #[trigger] d.source_domains[i],
        ) != key(row) by {
            assert(!(|v: SourceDomainView| v.domain == domain)(d.source_domains[i]));
        }
        lemma_unique_push(d.source_domains, key, row);
        assert(d.with_new_domain(domain, owner, abbrev, name).source_domains
            =~= d.source_domains.push(row));
    }
    lemma_unique_same_keys(
        d.source_domains,
        d.with_domain_updated(id, abbrev, name, description, is_public, script).source_domains,
        key,
    );
    lemma_unique_filter(
        d.source_domains,
        key,
        |v: SourceDomainView| !(id is Some && v.id == id),
    );
}

/// Adding a version of an item keeps the store well-formed: a version is
/// added only where the store holds none under its hash.
pub proof fn lemma_item_version_stays_unique(d: DataView, item: SourceItemVersionView)
    requires
        d.well_formed(),
    ensures
        d.with_item_version(item).well_formed(),
{
    let item_key = |v: SourceItemVersionView| v.hash;
    if !d.has_item_version_hash(item.hash) {
        assert forall|i: int| 0 <= i < d.source_item_versions.len() implies item_key(
            #[trigger] d.source_item_versions[i],
        ) != item_key(item) by {
            assert(!(|v: SourceItemVersionView| v.hash == item.hash)(d.source_item_versions[i]));
        }
        lemma_unique_push(d.source_item_versions, item_key, item);
    }
}

/// Adding a version of a source keeps the store well-formed: a version is
/// added only where the store holds none under its hash.
pub proof fn lemma_source_version_stays_unique(
    d: DataView,
    source: SourceVersionView,
    item_uris: Seq<Seq<char>>,
)
    requires
        d.well_formed(),
    ensures
        d.with_source_version(source, item_uris).well_formed(),
{
    let key = |v: SourceVersionView| v.hash;
    if !d.has_source_version(source.hash) {
        assert forall|i: int| 0 <= i < d.source_versions.len() implies key(
            #[trigger] d.source_versions[i],
        ) != key(source) by {
            assert(!(|v: SourceVersionView| v.hash == source.hash)(d.source_versions[i]));
        }
        lemma_unique_push(d.source_versions, key, source);
    }
}

/// Creating a version of a source or of an item keeps the store
/// well-formed.
pub proof fn lemma_created_versions_stay_unique(
    d: DataView,
    uri: Seq<char>,
    tags: Seq<u8>,
    items: Seq<crate::data::sources::SourceMetaItemView>,
    date_updated: Option<Seq<char>>,
)
    requires
        d.well_formed(),
    ensures
        d.create_source_version_result(uri, tags, items, date_updated) matches Ok(made)
            ==> made.0.well_formed(),
        d.create_item_version_result(uri, tags, date_updated) matches Ok(made)
            ==> made.0.well_formed(),
{
    match d.create_source_version_result(uri, tags, items, date_updated) {
        Ok((store, hash)) => {
            let key = |v: SourceVersionView| v.hash;
            if store.source_versions != d.source_versions {
                assert(!d.has_source_version(hash));
                let row = store.source_versions[d.source_versions.len() as int];
                assert forall|i: int| 0 <= i < d.source_versions.len() implies key(
                    #[trigger] d.source_versions[i],
                ) != key(row) by {
                    assert(!(|v: SourceVersionView| v.hash == hash)(d.source_versions[i]));
                }
                lemma_unique_push(d.source_versions, key, row);
                assert(store.source_versions =~= d.source_versions.push(row));
            }
        },
        Err(_) => {},
    }
    match d.create_item_version_result(uri, tags, date_updated) {
        Ok((store, hash)) => {
            let item_key = |v: SourceItemVersionView| v.hash;
            if !d.has_item_version_hash(hash) {
                let row = store.source_item_versions[d.source_item_versions.len() as int];
                assert forall|i: int| 0 <= i < d.source_item_versions.len() implies item_key(
                    #[trigger] d.source_item_versions[i],
                ) != item_key(row) by {
                    assert(!(|v: SourceItemVersionView| v.hash == hash)(
                        d.source_item_versions[i],
                    ));
                }
                lemma_unique_push(d.source_item_versions, item_key, row);
            }
        },
        Err(_) => {},
    }
}

/// Garbage collection and deleting a user keep the store well-formed: they
/// only take rows away.
pub proof fn lemma_deleting_stays_unique(d: DataView, user: UserId)
    requires
        d.well_formed(),
    ensures
        d.garbage_collected().well_formed(),
        d.without_user(user).well_formed(),
{
    lemma_unique_filter(
        d.source_versions,
        |v: SourceVersionView| v.hash,
        |v: SourceVersionView| d.source_hash_referenced(v.hash),
    );
    let a = d.without_unreferenced_sources();
    lemma_unique_filter(
        a.source_item_versions,
        |v: SourceItemVersionView| v.hash,
        |v: SourceItemVersionView| a.item_hash_referenced(v.hash),
    );
    lemma_unique_filter(
        d.user_source_items,
        |p: UserSourceItemView| (p.user_id, p.uri),
        |p: UserSourceItemView| p.user_id != user,
    );
    lemma_unique_filter(
        d.user_sources,
        |p: UserSourceView| (p.user_id, p.uri),
        |p: UserSourceView| p.user_id != user,
    );
    lemma_unique_filter(
        d.source_domains,
        |v: SourceDomainView| v.domain,
        |v: SourceDomainView| v.owner_id != user,
    );
}

} // verus!
