//! What holds of the store whatever it holds: creating a version twice is
//! creating it once, what is written is read back, subscriptions are
//! consistent, and garbage collection removes what nobody points at.

use vstd::prelude::*;

use crate::data::encoding::{
    decoded_items, decoded_tags, encoded_items, encoded_metadata, item_tags_are_values,
    lemma_items_round_trip, lemma_tags_round_trip,
};
use crate::data::models::{
    AssociatedItemView, ResourceDependencyView, SourceItemVersionView, SourceResourceView,
    SourceSubscriptionView, SourceVersionView,
};
use crate::data::sources::{
    association, stored_item_tags, with_association, with_associations, SourceMetaItemView,
    SubscribeFailure,
};
use crate::data::table::{any_where, lemma_first_index_is, lemma_picked_contains};
use crate::data::users::UserId;
use crate::data::DataView;
use crate::msgpack::is_value;

verus! {

/// Whether the associations hold `a`.
pub open spec fn has_association(assocs: Seq<AssociatedItemView>, a: AssociatedItemView) -> bool {
    any_where(
        assocs,
        |r: AssociatedItemView|
            r.source_uri == a.source_uri && r.source_hash == a.source_hash && r.item_uri
                == a.item_uri,
    )
}

/// Adding an association makes the associations hold it, keeps every
/// association that they held, and changes nothing where they held it.
pub proof fn lemma_with_association(
    assocs: Seq<AssociatedItemView>,
    a: AssociatedItemView,
    b: AssociatedItemView,
)
    ensures
        has_association(with_association(assocs, a), a),
        has_association(assocs, b) ==> has_association(with_association(assocs, a), b),
        has_association(assocs, a) ==> with_association(assocs, a) == assocs,
{
    let after = with_association(assocs, a);
    if !has_association(assocs, a) {
        assert(after[assocs.len() as int] == a);
        if has_association(assocs, b) {
            let i = choose|i: int|
                0 <= i < assocs.len() && (#[trigger] assocs[i]).source_uri == b.source_uri
                    && assocs[i].source_hash == b.source_hash && assocs[i].item_uri == b.item_uri;
            assert(after[i] == assocs[i]);
        }
    }
}

/// The associations of a version with its items hold the association with
/// each item, and every association that was held before.
pub proof fn lemma_with_associations_holds(
    assocs: Seq<AssociatedItemView>,
    source_uri: Seq<char>,
    hash: Seq<char>,
    item_uris: Seq<Seq<char>>,
    b: AssociatedItemView,
)
    ensures
        has_association(assocs, b) ==> has_association(
            with_associations(assocs, source_uri, hash, item_uris),
            b,
        ),
        forall|i: int|
            0 <= i < item_uris.len() ==> has_association(
                with_associations(assocs, source_uri, hash, item_uris),
                association(source_uri, hash, #[trigger] item_uris[i]),
            ),
    decreases item_uris.len(),
{
    if item_uris.len() > 0 {
        let init = item_uris.drop_last();
        let before = with_associations(assocs, source_uri, hash, init);
        let a = association(source_uri, hash, item_uris.last());
        lemma_with_associations_holds(assocs, source_uri, hash, init, b);
        lemma_with_association(before, a, b);
        assert forall|i: int| 0 <= i < item_uris.len() implies has_association(
            with_associations(assocs, source_uri, hash, item_uris),
            association(source_uri, hash, #[trigger] item_uris[i]),
        ) by {
            if i < init.len() {
                assert(init[i] == item_uris[i]);
                lemma_with_association(before, a, association(source_uri, hash, item_uris[i]));
            } else {
                lemma_with_association(before, a, a);
            }
        }
    }
}

/// Adding associations that are all held changes nothing.
pub proof fn lemma_with_associations_held(
    assocs: Seq<AssociatedItemView>,
    source_uri: Seq<char>,
    hash: Seq<char>,
    item_uris: Seq<Seq<char>>,
)
    requires
        forall|i: int|
            0 <= i < item_uris.len() ==> has_association(
                assocs,
                association(source_uri, hash, #[trigger] item_uris[i]),
            ),
    ensures
        with_associations(assocs, source_uri, hash, item_uris) == assocs,
    decreases item_uris.len(),
{
    if item_uris.len() > 0 {
        let init = item_uris.drop_last();
        assert forall|i: int| 0 <= i < init.len() implies has_association(
            assocs,
            association(source_uri, hash, #[trigger] init[i]),
        ) by {
            assert(init[i] == item_uris[i]);
        }
        lemma_with_associations_held(assocs, source_uri, hash, init);
        let a = association(source_uri, hash, item_uris.last());
        assert(item_uris[item_uris.len() - 1] == item_uris.last());
        lemma_with_association(assocs, a, a);
    }
}

/// Adding a version of a source with its associations a second time changes
/// nothing.
pub proof fn lemma_with_source_version_again(
    d: DataView,
    row: SourceVersionView,
    item_uris: Seq<Seq<char>>,
)
    ensures
        d.with_source_version(row, item_uris).with_source_version(row, item_uris)
            == d.with_source_version(row, item_uris),
        d.with_source_version(row, item_uris).has_source_version(row.hash),
{
    let once = d.with_source_version(row, item_uris);
    if d.has_source_version(row.hash) {
    } else {
        assert(once.source_versions[d.source_versions.len() as int].hash == row.hash);
    }
    assert(once.has_source_version(row.hash));
    lemma_with_associations_holds(
        d.source_version_associated_items,
        row.uri,
        row.hash,
        item_uris,
        association(row.uri, row.hash, Seq::empty()),
    );
    lemma_with_associations_held(
        once.source_version_associated_items,
        row.uri,
        row.hash,
        item_uris,
    );
    assert(once.with_source_version(row, item_uris) =~~= once);
}

/// Creating the same version of a source twice gives the same hash both
/// times, and the second time changes nothing.
pub proof fn lemma_create_source_version_again(
    d: DataView,
    uri: Seq<char>,
    tags: Seq<u8>,
    items: Seq<SourceMetaItemView>,
    date_updated: Option<Seq<char>>,
)
    requires
        d.create_source_version_result(uri, tags, items, date_updated) is Ok,
    ensures
        ({
            let (once, hash) = d.create_source_version_result(uri, tags, items, date_updated)->Ok_0;
            once.create_source_version_result(uri, tags, items, date_updated) == Ok::<
                (DataView, Seq<char>),
                crate::data::sources::CreateFailure,
            >((once, hash))
        }),
{
    let (once, hash) = d.create_source_version_result(uri, tags, items, date_updated)->Ok_0;
    let u = crate::uri::url_parts(uri)->0;
    let item_uris = crate::data::sources::item_uris_of(u.scheme, items)->0;
    let row = SourceVersionView {
        id: None,
        uri,
        hash,
        metadata: encoded_metadata(tags),
        date_updated,
        items: encoded_items(items),
    };
    lemma_with_source_version_again(d, row, item_uris);
}

/// Creating the same version of an item twice gives the same hash both
/// times, and the second time changes nothing, under whatever URI it is
/// made: the hash depends on the data and the date alone. After the first
/// time the store holds the hash, so the second time nothing is compressed
/// and nothing can fail.
pub proof fn lemma_create_item_version_again(
    d: DataView,
    uri: Seq<char>,
    again: Seq<char>,
    tags: Seq<u8>,
    date_updated: Option<Seq<char>>,
)
    requires
        d.create_item_version_result(uri, tags, date_updated) is Ok,
        crate::uri::url_parts(again) is Some,
    ensures
        ({
            let (once, hash) = d.create_item_version_result(uri, tags, date_updated)->Ok_0;
            once.has_item_version_hash(hash) && once.create_item_version_result(
                again,
                tags,
                date_updated,
            ) == Ok::<(DataView, Seq<char>), crate::data::sources::CreateFailure>((once, hash))
        }),
{
    let (once, hash) = d.create_item_version_result(uri, tags, date_updated)->Ok_0;
    if !d.has_item_version_hash(hash) {
        assert(once.source_item_versions[d.source_item_versions.len() as int].hash == hash);
    }
    assert(once.has_item_version_hash(hash));
}

/// A version of a source that is written is read back: where the store held
/// no version of the hash, the version that is found under the hash has the
/// URI and the date that were written, and its metadata and its item list
/// decode to the tags and the items that were written. The tags of the
/// source and of each item have to be one well-formed value.
pub proof fn lemma_source_version_round_trip(
    d: DataView,
    uri: Seq<char>,
    tags: Seq<u8>,
    items: Seq<SourceMetaItemView>,
    date_updated: Option<Seq<char>>,
)
    requires
        d.create_source_version_result(uri, tags, items, date_updated) is Ok,
        !d.has_source_version(
            d.create_source_version_result(uri, tags, items, date_updated)->Ok_0.1,
        ),
        is_value(tags),
        item_tags_are_values(items),
    ensures
        ({
            let (after, hash) = d.create_source_version_result(uri, tags, items, date_updated)->Ok_0;
            after.source_by_hash(hash) matches Some(v) && v.uri == uri && v.date_updated
                == date_updated && decoded_tags(v.metadata) == Some(tags) && decoded_items(v.items)
                == Some(items)
        }),
{
    let (after, hash) = d.create_source_version_result(uri, tags, items, date_updated)->Ok_0;
    let pred = |v: SourceVersionView| v.hash == hash;
    let n = d.source_versions.len() as int;
    assert(after.source_versions[n].hash == hash);
    assert forall|j: int| 0 <= j < n implies !pred(#[trigger] after.source_versions[j]) by {
        assert(after.source_versions[j] == d.source_versions[j]);
    }
    lemma_first_index_is(after.source_versions, pred, n);
    lemma_tags_round_trip(tags);
    lemma_items_round_trip(items);
}

/// A version of an item that is written is read back: where the store held
/// no version of the hash, the stored data of the version that is found
/// under the hash hold the tags that were written. The tags have to be one
/// well-formed value.
pub proof fn lemma_item_version_round_trip(
    d: DataView,
    uri: Seq<char>,
    tags: Seq<u8>,
    date_updated: Option<Seq<char>>,
)
    requires
        d.create_item_version_result(uri, tags, date_updated) is Ok,
        !d.has_item_version_hash(d.create_item_version_result(uri, tags, date_updated)->Ok_0.1),
        is_value(tags),
    ensures
        ({
            let (after, hash) = d.create_item_version_result(uri, tags, date_updated)->Ok_0;
            after.source_item_by_hash(hash) matches Some(v) && v.uri == uri && v.date_updated
                == date_updated && stored_item_tags(v.data) == Ok::<
                Seq<u8>,
                crate::data::DataError,
            >(tags)
        }),
{
    let (after, hash) = d.create_item_version_result(uri, tags, date_updated)->Ok_0;
    let pred = |v: SourceItemVersionView| v.hash == hash;
    let n = d.source_item_versions.len() as int;
    assert(after.source_item_versions[n].hash == hash);
    assert forall|j: int| 0 <= j < n implies !pred(#[trigger] after.source_item_versions[j]) by {
        assert(after.source_item_versions[j] == d.source_item_versions[j]);
    }
    lemma_first_index_is(after.source_item_versions, pred, n);
    lemma_tags_round_trip(tags);
}

/// After a user subscribed to a source the user is subscribed to it, the
/// source is among the user's subscriptions, and subscribing again fails
/// because the user is subscribed already.
pub proof fn lemma_subscription_consistency(d: DataView, user: UserId, uri: Seq<char>)
    requires
        d.subscribe_result(user, uri) is Ok,
    ensures
        ({
            let after = d.subscribe_result(user, uri)->Ok_0;
            after.is_subscribed(user, uri) && after.subscriptions_of(user).contains(uri)
                && after.subscribe_result(user, uri) matches Err(SubscribeFailure::AlreadyInState)
        }),
{
    let after = d.subscribe_result(user, uri)->Ok_0;
    let n = d.user_source_subscriptions.len() as int;
    assert(after.user_source_subscriptions[n] == SourceSubscriptionView { user_id: user, uri });
    lemma_picked_contains(
        after.user_source_subscriptions,
        |r: SourceSubscriptionView|
            if r.user_id == user {
                Some(r.uri)
            } else {
                None
            },
        uri,
    );
}

/// After a user unsubscribed from a source the user is not subscribed to
/// it, and unsubscribing again fails.
pub proof fn lemma_unsubscription_consistency(d: DataView, user: UserId, uri: Seq<char>)
    requires
        d.unsubscribe_result(user, uri) is Ok,
    ensures
        ({
            let after = d.unsubscribe_result(user, uri)->Ok_0;
            !after.is_subscribed(user, uri) && after.unsubscribe_result(
                user,
                uri,
            ) matches Err(SubscribeFailure::AlreadyInState)
        }),
{
    broadcast use vstd::seq_lib::group_filter_ensures;

    let after = d.unsubscribe_result(user, uri)->Ok_0;
    let keep = |r: SourceSubscriptionView| !(r.user_id == user && r.uri == uri);
    assert forall|i: int| 0 <= i < after.user_source_subscriptions.len() implies keep(
        #[trigger] after.user_source_subscriptions[i],
    ) by {
        d.user_source_subscriptions.lemma_filter_pred(keep, i);
    }
}

/// Garbage collection removes every version of a source that no user points
/// at, with its associations.
pub proof fn lemma_gc_removes_unreferenced_source(d: DataView, hash: Seq<char>)
    requires
        !d.source_hash_referenced(hash),
    ensures
        !d.garbage_collected().has_source_version(hash),
        forall|i: int|
            0 <= i < d.garbage_collected().source_version_associated_items.len() ==> (
            #[trigger] d.garbage_collected().source_version_associated_items[i]).source_hash
                != hash,
{
    broadcast use vstd::seq_lib::group_filter_ensures;

    let d1 = d.without_unreferenced_sources();
    let d2 = d1.without_unreferenced_items();
    let d3 = d2.without_orphaned_associations();
    let g = d.garbage_collected();
    let kept = |v: SourceVersionView| d.source_hash_referenced(v.hash);
    assert forall|i: int| 0 <= i < d1.source_versions.len() implies (
    #[trigger] d1.source_versions[i]).hash != hash by {
        d.source_versions.lemma_filter_pred(kept, i);
    }
    assert(g.source_versions == d1.source_versions);
    assert(!d2.has_source_version(hash));
    let kept_assoc = |a: AssociatedItemView|
        d2.has_source_version(a.source_hash) && d2.has_item_version_at(a.item_uri);
    assert forall|i: int| 0 <= i < d3.source_version_associated_items.len() implies (
    #[trigger] d3.source_version_associated_items[i]).source_hash != hash by {
        d2.source_version_associated_items.lemma_filter_pred(kept_assoc, i);
    }
    assert(g.source_version_associated_items == d3.source_version_associated_items);
}

/// Garbage collection removes every version of an item that no user points
/// at, with the dependencies of the version on resources; and every resource
/// that is left is needed by a version of an item that is left.
pub proof fn lemma_gc_removes_unreferenced_item(d: DataView, hash: Seq<char>)
    requires
        !d.item_hash_referenced(hash),
    ensures
        !d.garbage_collected().has_item_version_hash(hash),
        forall|i: int|
            0 <= i < d.garbage_collected().source_item_resource_dependencies.len() ==> (
            #[trigger] d.garbage_collected().source_item_resource_dependencies[i]).source_item_hash
                != hash,
        forall|i: int|
            0 <= i < d.garbage_collected().source_resources.len()
                ==> d.garbage_collected().resource_needed(
                (#[trigger] d.garbage_collected().source_resources[i]).hash,
            ),
{
    broadcast use vstd::seq_lib::group_filter_ensures;

    let d1 = d.without_unreferenced_sources();
    let d2 = d1.without_unreferenced_items();
    let d3 = d2.without_orphaned_associations();
    let d4 = d3.without_orphaned_dependencies();
    let g = d.garbage_collected();
    let kept = |v: SourceItemVersionView| d1.item_hash_referenced(v.hash);
    assert forall|i: int| 0 <= i < d2.source_item_versions.len() implies (
    #[trigger] d2.source_item_versions[i]).hash != hash by {
        d1.source_item_versions.lemma_filter_pred(kept, i);
    }
    assert(g.source_item_versions == d2.source_item_versions);
    assert(!d3.has_item_version_hash(hash));
    let kept_dep = |x: ResourceDependencyView| d3.has_item_version_hash(x.source_item_hash);
    assert forall|i: int| 0 <= i < d4.source_item_resource_dependencies.len() implies (
    #[trigger] d4.source_item_resource_dependencies[i]).source_item_hash != hash by {
        d3.source_item_resource_dependencies.lemma_filter_pred(kept_dep, i);
    }
    assert(g.source_item_resource_dependencies == d4.source_item_resource_dependencies);
    let kept_res = |r: SourceResourceView| d4.resource_needed(r.hash);
    assert forall|i: int| 0 <= i < g.source_resources.len() implies g.resource_needed(
        (#[trigger] g.source_resources[i]).hash,
    ) by {
        d4.source_resources.lemma_filter_pred(kept_res, i);
    }
}

/// Garbage collection keeps every version of a source that a user points
/// at, and changes no pointer and no subscription.
pub proof fn lemma_gc_keeps_referenced_source(d: DataView, hash: Seq<char>)
    requires
        d.source_hash_referenced(hash),
        d.has_source_version(hash),
    ensures
        d.garbage_collected().has_source_version(hash),
        d.garbage_collected().user_sources == d.user_sources,
        d.garbage_collected().user_source_items == d.user_source_items,
        d.garbage_collected().user_source_subscriptions == d.user_source_subscriptions,
{
    broadcast use vstd::seq_lib::group_filter_ensures;

    let kept = |v: SourceVersionView| d.source_hash_referenced(v.hash);
    let i = choose|i: int| 0 <= i < d.source_versions.len() && (#[trigger] d.source_versions[i]).hash == hash;
    d.source_versions.lemma_filter_contains(kept, i);
    let d1 = d.without_unreferenced_sources();
    let j = choose|j: int| 0 <= j < d1.source_versions.len() && d1.source_versions[j] == d.source_versions[i];
    assert(d1.source_versions[j].hash == hash);
}

/// Garbage collection is idempotent: collecting a second time changes
/// nothing.
pub proof fn lemma_gc_idempotent(d: DataView)
    ensures
        d.garbage_collected().garbage_collected() == d.garbage_collected(),
{
    let a = d.without_unreferenced_sources();
    let b = a.without_unreferenced_items();
    let c = b.without_orphaned_associations();
    let e = c.without_orphaned_dependencies();
    let g = e.without_unneeded_resources();
    crate::data::table::lemma_filter_again(
        d.source_versions,
        |v: SourceVersionView| d.source_hash_referenced(v.hash),
        |v: SourceVersionView| g.source_hash_referenced(v.hash),
    );
    let a2 = g.without_unreferenced_sources();
    assert(a2 =~~= g);
    crate::data::table::lemma_filter_again(
        a.source_item_versions,
        |v: SourceItemVersionView| a.item_hash_referenced(v.hash),
        |v: SourceItemVersionView| g.item_hash_referenced(v.hash),
    );
    let b2 = a2.without_unreferenced_items();
    assert(b2 =~~= g);
    crate::data::table::lemma_filter_again(
        b.source_version_associated_items,
        |x: AssociatedItemView|
            b.has_source_version(x.source_hash) && b.has_item_version_at(x.item_uri),
        |x: AssociatedItemView|
            g.has_source_version(x.source_hash) && g.has_item_version_at(x.item_uri),
    );
    let c2 = b2.without_orphaned_associations();
    assert(c2 =~~= g);
    crate::data::table::lemma_filter_again(
        c.source_item_resource_dependencies,
        |x: ResourceDependencyView| c.has_item_version_hash(x.source_item_hash),
        |x: ResourceDependencyView| g.has_item_version_hash(x.source_item_hash),
    );
    let e2 = c2.without_orphaned_dependencies();
    assert(e2 =~~= g);
    crate::data::table::lemma_filter_again(
        e.source_resources,
        |x: SourceResourceView| e.resource_needed(x.hash),
        |x: SourceResourceView| g.resource_needed(x.hash),
    );
    assert(e2.without_unneeded_resources() =~~= g);
}

} // verus!
