//! The encoded forms of metadata, item lists and item data, and the hashes
//! of versions.

use vstd::prelude::*;
use vstd::utf8::encode_utf8;

use crate::bytes::{push_all, slice_range};
use crate::data::models::views;
use crate::data::sources::{
    SourceItemData, SourceItems, SourceMetaItem, SourceMetaItemView, SourceMetadata,
};
use crate::hash::{content_hash, hash_content, DIGEST_LEN};
use crate::msgpack::{
    array_header, array_len_at, bool_at, encoded_bool, encoded_opt_str, encoded_str, is_value,
    lemma_array_header_round_trip, lemma_bool_round_trip, lemma_str_round_trip,
    lemma_value_embedded, read_array_len, read_bool, read_str, skip_values, str_at, values_end,
    write_array_len, write_bool, write_opt_str, write_str, EncodeError,
};
use crate::text::{copy_bytes, opt_str_text};

verus! {

/// The marker of an array of one element: a structure of one field.
pub const MARKER_ONE_FIELD: u8 = 0x91;

/// The marker of an array of three elements: a structure of three fields.
pub const MARKER_THREE_FIELDS: u8 = 0x93;

/// The metadata of a source, encoded: a structure whose one field is the map
/// of tags.
pub open spec fn encoded_metadata(tags: Seq<u8>) -> Seq<u8> {
    seq![MARKER_ONE_FIELD] + tags
}

/// One entry of an item list, encoded: a structure of the path, the virtual
/// flag and the map of tags.
pub open spec fn encoded_item(item: SourceMetaItemView) -> Seq<u8> {
    seq![MARKER_THREE_FIELDS] + encoded_str(item.path) + encoded_bool(item.is_virtual) + item.tags
}

/// The entries of an item list, encoded one after the other.
pub open spec fn encoded_item_seq(items: Seq<SourceMetaItemView>) -> Seq<u8>
    decreases items.len(),
{
    if items.len() == 0 {
        Seq::empty()
    } else {
        encoded_item_seq(items.drop_last()) + encoded_item(items.last())
    }
}

/// An item list, encoded: an array of its entries.
pub open spec fn encoded_items(items: Seq<SourceMetaItemView>) -> Seq<u8> {
    array_header(items.len() as int) + encoded_item_seq(items)
}

/// Whether a string is short enough to be encoded.
pub open spec fn str_encodable(s: Seq<char>) -> bool {
    encode_utf8(s).len() <= u32::MAX
}

/// Whether an item list can be encoded: it has no more entries and no path
/// has more bytes than a 32-bit length can tell.
pub open spec fn items_encodable(items: Seq<SourceMetaItemView>) -> bool {
    items.len() <= u32::MAX && forall|i: int|
        0 <= i < items.len() ==> str_encodable(#[trigger] items[i].path)
}

/// Whether an optional date can be encoded.
pub open spec fn date_encodable(date: Option<Seq<char>>) -> bool {
    date matches Some(d) ==> str_encodable(d)
}

/// What is hashed of a version of a source: the encoded metadata, the encoded
/// item list and the encoded date of the last update, in this order.
pub open spec fn source_hash_input(
    tags: Seq<u8>,
    items: Seq<SourceMetaItemView>,
    date_updated: Option<Seq<char>>,
) -> Seq<u8> {
    encoded_metadata(tags) + encoded_items(items) + encoded_opt_str(date_updated)
}

/// The hash of a version of a source.
pub open spec fn source_hash(
    tags: Seq<u8>,
    items: Seq<SourceMetaItemView>,
    date_updated: Option<Seq<char>>,
) -> Seq<char> {
    content_hash(source_hash_input(tags, items, date_updated))
}

/// What is hashed of a version of an item: the encoded data and the encoded
/// date of the last update, in this order.
pub open spec fn item_hash_input(tags: Seq<u8>, date_updated: Option<Seq<char>>) -> Seq<u8> {
    encoded_metadata(tags) + encoded_opt_str(date_updated)
}

/// The hash of a version of an item.
pub open spec fn item_hash(tags: Seq<u8>, date_updated: Option<Seq<char>>) -> Seq<char> {
    content_hash(item_hash_input(tags, date_updated))
}

/// Encodes a structure of one field, which is the map `tags`.
pub fn encode_tags(tags: &Vec<u8>) -> (out: Vec<u8>)
    ensures
        out@ == encoded_metadata(tags@),
{
    let mut out: Vec<u8> = Vec::new();
    out.push(MARKER_ONE_FIELD);
    push_all(&mut out, tags.as_slice());
    assert(out@ =~= encoded_metadata(tags@));
    out
}

/// Encodes the metadata of a source.
pub fn encode_metadata(metadata: &SourceMetadata) -> (out: Vec<u8>)
    ensures
        out@ == encoded_metadata(metadata.tags@),
{
    encode_tags(&metadata.tags)
}

/// Encodes the data of an item.
pub fn encode_item_data(data: &SourceItemData) -> (out: Vec<u8>)
    ensures
        out@ == encoded_metadata(data.tags@),
{
    encode_tags(&data.tags)
}

/// Encodes an item list. Fails where the list cannot be encoded.
pub fn encode_items(items: &SourceItems) -> (res: Result<Vec<u8>, EncodeError>)
    ensures
        res is Ok <==> items_encodable(views(items@)),
        res matches Ok(out) ==> out@ == encoded_items(views(items@)),
{
    let ghost all = views(items@);
    if items.len() > u32::MAX as usize {
        return Err(EncodeError);
    }
    let mut out: Vec<u8> = Vec::new();
    write_array_len(&mut out, items.len() as u32);
    let mut i: usize = 0;
    while i < items.len()
        invariant
            i <= items@.len(),
            all == views(items@),
            items@.len() <= u32::MAX,
            out@ == array_header(items@.len() as int) + encoded_item_seq(all.take(i as int)),
            forall|j: int| 0 <= j < i ==> str_encodable(#[trigger] all[j].path),
        decreases items@.len() - i,
    {
        let item = &items[i];
        let ghost before = out@;
        out.push(MARKER_THREE_FIELDS);
        match write_str(&mut out, item.path.as_str()) {
            Ok(()) => {},
            Err(e) => {
                assert(!str_encodable(all[i as int].path));
                return Err(e);
            },
        }
        write_bool(&mut out, item.is_virtual);
        push_all(&mut out, item.tags.as_slice());
        proof {
            assert(all.take(i + 1).drop_last() =~= all.take(i as int));
            assert(all.take(i + 1).last() == all[i as int]);
            assert(out@ =~= before + encoded_item(all[i as int]));
            assert(out@ =~= array_header(items@.len() as int) + encoded_item_seq(
                all.take(i + 1),
            ));
        }
        i += 1;
    }
    assert(all.take(i as int) =~= all);
    Ok(out)
}

/// The hash of a version of a source. Fails where the item list or the date
/// cannot be encoded.
pub fn get_source_hash(
    meta: &SourceMetadata,
    items: &SourceItems,
    date_updated: Option<&str>,
) -> (res: Result<String, EncodeError>)
    ensures
        res is Ok <==> items_encodable(views(items@)) && date_encodable(
            opt_str_text(date_updated),
        ),
        res matches Ok(hash) ==> hash@ == source_hash(
            meta.tags@,
            views(items@),
            opt_str_text(date_updated),
        ) && hash@.len() == 2 * DIGEST_LEN,
{
    let mut input = encode_metadata(meta);
    let items_enc = encode_items(items)?;
    push_all(&mut input, items_enc.as_slice());
    write_opt_str(&mut input, date_updated)?;
    assert(input@ =~= source_hash_input(meta.tags@, views(items@), opt_str_text(date_updated)));
    Ok(hash_content(input.as_slice()))
}

/// The hash of a version of an item. Fails where the date cannot be encoded.
pub fn get_source_item_hash(data: &SourceItemData, date_updated: Option<&str>) -> (res: Result<
    String,
    EncodeError,
>)
    ensures
        res is Ok <==> date_encodable(opt_str_text(date_updated)),
        res matches Ok(hash) ==> hash@ == item_hash(data.tags@, opt_str_text(date_updated))
            && hash@.len() == 2 * DIGEST_LEN,
{
    let mut input = encode_item_data(data);
    write_opt_str(&mut input, date_updated)?;
    assert(input@ =~= item_hash_input(data.tags@, opt_str_text(date_updated)));
    Ok(hash_content(input.as_slice()))
}

/// The map of tags in an encoded structure of one field. Nothing where the
/// bytes are no such structure.
pub open spec fn decoded_tags(b: Seq<u8>) -> Option<Seq<u8>> {
    if b.len() >= 1 && b[0] == MARKER_ONE_FIELD && values_end(b, 1, 1) == Some(b.len() as int) {
        Some(b.skip(1))
    } else {
        None
    }
}

/// Reads the map of tags from an encoded structure of one field.
pub fn decode_tags(b: &[u8]) -> (res: Option<Vec<u8>>)
    ensures
        match res {
            Some(tags) => decoded_tags(b@) == Some(tags@),
            None => decoded_tags(b@) is None,
        },
{
    if b.len() < 1 || b[0] != MARKER_ONE_FIELD {
        return None;
    }
    match skip_values(b, 1, 1) {
        Some(end) => {
            if end == b.len() {
                let tags = copy_bytes(slice_range(b, 1, b.len()));
                assert(b@.subrange(1, b@.len() as int) =~= b@.skip(1));
                Some(tags)
            } else {
                None
            }
        },
        None => None,
    }
}

/// The entry of an item list that is encoded at `pos`, with the place behind
/// it.
pub open spec fn item_at(b: Seq<u8>, pos: int) -> Option<(SourceMetaItemView, int)> {
    if !(0 <= pos < b.len()) || b[pos] != MARKER_THREE_FIELDS {
        None
    } else {
        match str_at(b, pos + 1) {
            Some((path, after_path)) => match bool_at(b, after_path) {
                Some((is_virtual, after_flag)) => match values_end(b, after_flag, 1) {
                    Some(end) => Some(
                        (
                            SourceMetaItemView {
                                path,
                                is_virtual,
                                tags: b.subrange(after_flag, end),
                            },
                            end,
                        ),
                    ),
                    None => None,
                },
                None => None,
            },
            None => None,
        }
    }
}

/// The `n` entries that are encoded from `pos` on, with the place behind
/// them.
pub open spec fn items_at(b: Seq<u8>, pos: int, n: nat) -> Option<(Seq<SourceMetaItemView>, int)>
    decreases n,
{
    if n == 0 {
        Some((Seq::empty(), pos))
    } else {
        match item_at(b, pos) {
            Some((item, next)) => match items_at(b, next, (n - 1) as nat) {
                Some((rest, end)) => Some((seq![item] + rest, end)),
                None => None,
            },
            None => None,
        }
    }
}

/// The item list that `b` encodes. Nothing where `b` is no encoded item list
/// and nothing else.
pub open spec fn decoded_items(b: Seq<u8>) -> Option<Seq<SourceMetaItemView>> {
    match array_len_at(b, 0) {
        Some((n, start)) => match items_at(b, start, n as nat) {
            Some((items, end)) => if end == b.len() {
                Some(items)
            } else {
                None
            },
            None => None,
        },
        None => None,
    }
}

/// Reads the entry of an item list at `pos`.
fn decode_item(b: &[u8], pos: usize) -> (res: Option<(SourceMetaItem, usize)>)
    ensures
        match res {
            Some((item, next)) => item_at(b@, pos as int) == Some((item@, next as int)) && pos
                < next <= b@.len(),
            None => item_at(b@, pos as int) is None,
        },
{
    if pos >= b.len() || b[pos] != MARKER_THREE_FIELDS {
        return None;
    }
    let (path, after_path) = match read_str(b, pos + 1) {
        Some(r) => r,
        None => {
            return None;
        },
    };
    let (is_virtual, after_flag) = match read_bool(b, after_path) {
        Some(r) => r,
        None => {
            return None;
        },
    };
    let end = match skip_values(b, after_flag, 1) {
        Some(e) => e,
        None => {
            return None;
        },
    };
    let tags = copy_bytes(slice_range(b, after_flag, end));
    Some((SourceMetaItem { path, is_virtual, tags }, end))
}

/// Reads an encoded item list.
pub fn decode_items(b: &[u8]) -> (res: Option<Vec<SourceMetaItem>>)
    ensures
        match res {
            Some(items) => decoded_items(b@) == Some(views(items@)),
            None => decoded_items(b@) is None,
        },
{
    let (n, start) = match read_array_len(b, 0) {
        Some(r) => r,
        None => {
            return None;
        },
    };
    let mut items: Vec<SourceMetaItem> = Vec::new();
    let mut pos: usize = start;
    let mut i: u32 = 0;
    while i < n
        invariant
            i <= n,
            pos <= b@.len(),
            array_len_at(b@, 0) == Some((n as int, start as int)),
            items_at(b@, start as int, n as nat) == match items_at(
                b@,
                pos as int,
                (n - i) as nat,
            ) {
                Some((rest, end)) => Some((views(items@) + rest, end)),
                None => None,
            },
        decreases n - i,
    {
        let ghost before = views(items@);
        match decode_item(b, pos) {
            Some((item, next)) => {
                proof {
                    let tail = items_at(b@, next as int, (n - i - 1) as nat);
                    match tail {
                        Some((rest, end)) => {
                            assert(before + (seq![item@] + rest) =~= before.push(item@) + rest);
                        },
                        None => {},
                    }
                }
                items.push(item);
                assert(views(items@) =~= before.push(item@));
                pos = next;
            },
            None => {
                assert(items_at(b@, pos as int, (n - i) as nat) is None);
                return None;
            },
        }
        i += 1;
    }
    assert(views(items@) + Seq::<SourceMetaItemView>::empty() =~= views(items@));
    if pos == b.len() {
        Some(items)
    } else {
        None
    }
}


/// Whether the tags of every item of a list are one well-formed value.
pub open spec fn item_tags_are_values(items: Seq<SourceMetaItemView>) -> bool {
    forall|i: int| 0 <= i < items.len() ==> is_value(#[trigger] items[i].tags)
}

/// Encoded tags decode to the tags, where the tags are a well-formed value.
pub proof fn lemma_tags_round_trip(tags: Seq<u8>)
    requires
        is_value(tags),
    ensures
        decoded_tags(encoded_metadata(tags)) == Some(tags),
{
    let b = encoded_metadata(tags);
    lemma_value_embedded(seq![MARKER_ONE_FIELD], tags, Seq::empty());
    assert(seq![MARKER_ONE_FIELD] + tags + Seq::<u8>::empty() =~= b);
    assert(b.skip(1) =~= tags);
}

/// An encoded entry of an item list decodes to the entry wherever it stands.
pub proof fn lemma_item_round_trip(pre: Seq<u8>, item: SourceMetaItemView, suf: Seq<u8>)
    requires
        str_encodable(item.path),
        is_value(item.tags),
    ensures
        item_at(pre + encoded_item(item) + suf, pre.len() as int) == Some(
            (item, (pre.len() + encoded_item(item).len()) as int),
        ),
{
    let b = pre + encoded_item(item) + suf;
    let o = pre.len() as int;
    let path = encoded_str(item.path);
    let flag = encoded_bool(item.is_virtual);
    assert(b[o] == MARKER_THREE_FIELDS);
    let pre1 = pre + seq![MARKER_THREE_FIELDS];
    lemma_str_round_trip(pre1, item.path, flag + item.tags + suf);
    assert(pre1 + path + (flag + item.tags + suf) =~= b);
    let pre2 = pre1 + path;
    lemma_bool_round_trip(pre2, item.is_virtual, item.tags + suf);
    assert(pre2 + flag + (item.tags + suf) =~= b);
    let pre3 = pre2 + flag;
    lemma_value_embedded(pre3, item.tags, suf);
    assert(pre3 + item.tags + suf =~= b);
    assert(b.subrange(pre3.len() as int, (pre3.len() + item.tags.len()) as int) =~= item.tags);
}

/// The entries of an item list are encoded one after the other, the first
/// one first.
pub proof fn lemma_item_seq_first(items: Seq<SourceMetaItemView>)
    requires
        items.len() > 0,
    ensures
        encoded_item_seq(items) == encoded_item(items[0]) + encoded_item_seq(items.drop_first()),
    decreases items.len(),
{
    if items.len() == 1 {
        assert(items.drop_last() =~= Seq::<SourceMetaItemView>::empty());
        assert(items.drop_first() =~= Seq::<SourceMetaItemView>::empty());
        assert(encoded_item_seq(items) =~= encoded_item(items[0]) + encoded_item_seq(
            items.drop_first(),
        ));
    } else {
        let init = items.drop_last();
        lemma_item_seq_first(init);
        assert(init.drop_first() =~= items.drop_first().drop_last());
        assert(items.drop_first().last() == items.last());
        assert(encoded_item_seq(items) =~= encoded_item(items[0]) + encoded_item_seq(
            items.drop_first(),
        ));
    }
}

/// The entries from a place on are the entry at the place and the entries
/// behind it.
pub proof fn lemma_items_at_step(
    b: Seq<u8>,
    pos: int,
    first: SourceMetaItemView,
    next: int,
    rest: Seq<SourceMetaItemView>,
    end: int,
)
    requires
        item_at(b, pos) == Some((first, next)),
        items_at(b, next, rest.len()) == Some((rest, end)),
    ensures
        items_at(b, pos, rest.len() + 1) == Some((seq![first] + rest, end)),
{
    assert((rest.len() + 1 - 1) as nat == rest.len());
}

/// The bytes before, in and behind the first entry of encoded entries, and
/// those behind the other entries.
proof fn lemma_item_seq_split(pre: Seq<u8>, items: Seq<SourceMetaItemView>, suf: Seq<u8>)
    requires
        items.len() > 0,
    ensures
        pre + encoded_item_seq(items) + suf == pre + encoded_item(items[0]) + (encoded_item_seq(
            items.drop_first(),
        ) + suf),
        pre + encoded_item_seq(items) + suf == (pre + encoded_item(items[0])) + encoded_item_seq(
            items.drop_first(),
        ) + suf,
        encoded_item_seq(items).len() == encoded_item(items[0]).len() + encoded_item_seq(
            items.drop_first(),
        ).len(),
{
    lemma_item_seq_first(items);
    let first_enc = encoded_item(items[0]);
    let rest_enc = encoded_item_seq(items.drop_first());
    assert(pre + (first_enc + rest_enc) + suf =~= pre + first_enc + (rest_enc + suf));
    assert(pre + (first_enc + rest_enc) + suf =~= (pre + first_enc) + rest_enc + suf);
}

/// Encoded entries decode to the entries wherever they stand.
pub proof fn lemma_item_seq_round_trip(
    pre: Seq<u8>,
    items: Seq<SourceMetaItemView>,
    suf: Seq<u8>,
)
    requires
        forall|i: int| 0 <= i < items.len() ==> str_encodable(#[trigger] items[i].path),
        item_tags_are_values(items),
    ensures
        items_at(pre + encoded_item_seq(items) + suf, pre.len() as int, items.len()) == Some(
            (items, (pre.len() + encoded_item_seq(items).len()) as int),
        ),
    decreases items.len(),
{
    if items.len() == 0 {
        assert(items =~= Seq::<SourceMetaItemView>::empty());
    } else {
        let b = pre + encoded_item_seq(items) + suf;
        let first = items[0];
        let rest = items.drop_first();
        let first_enc = encoded_item(first);
        let rest_enc = encoded_item_seq(rest);
        let next = (pre.len() + first_enc.len()) as int;
        let end = (pre.len() + encoded_item_seq(items).len()) as int;
        lemma_item_seq_split(pre, items, suf);
        lemma_item_round_trip(pre, first, rest_enc + suf);
        assert forall|i: int| 0 <= i < rest.len() implies str_encodable(
            #[trigger] rest[i].path,
        ) by {
            assert(rest[i] == items[i + 1]);
        }
        assert forall|i: int| 0 <= i < rest.len() implies is_value(#[trigger] rest[i].tags) by {
            assert(rest[i] == items[i + 1]);
        }
        lemma_item_seq_round_trip(pre + first_enc, rest, suf);
        lemma_items_at_step(b, pre.len() as int, first, next, rest, end);
        assert(seq![first] + rest =~= items);
    }
}

/// An encoded item list decodes to the list, where the list can be encoded
/// and the tags of each entry are a well-formed value.
pub proof fn lemma_items_round_trip(items: Seq<SourceMetaItemView>)
    requires
        items_encodable(items),
        item_tags_are_values(items),
    ensures
        decoded_items(encoded_items(items)) == Some(items),
{
    let header = array_header(items.len() as int);
    let body = encoded_item_seq(items);
    lemma_array_header_round_trip(items.len() as int, body);
    lemma_item_seq_round_trip(header, items, Seq::empty());
    assert(header + body + Seq::<u8>::empty() =~= encoded_items(items));
}

} // verus!
