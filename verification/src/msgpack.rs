//! The MessagePack forms in which versions are hashed and stored: nil,
//! booleans, strings and the headers of arrays. Maps of tags pass through as
//! encoded bytes.

use vstd::prelude::*;
use vstd::utf8::encode_utf8;

use vstd::utf8::{decode_utf8, encode_utf8_decode_utf8, encode_utf8_valid_utf8, valid_utf8};

use crate::bytes::{
    be_u16, be_u32, lemma_u16_be_round_trip, lemma_u32_be_round_trip, push_all, read_u16_be,
    read_u32_be, slice_range, u16_be, u32_be, write_u16_be, write_u32_be,
};
use crate::text::{copy_bytes, string_from_utf8};

verus! {

pub const MARKER_NIL: u8 = 0xc0;

pub const MARKER_FALSE: u8 = 0xc2;

pub const MARKER_TRUE: u8 = 0xc3;

pub const MARKER_FIXSTR: u8 = 0xa0;

pub const MARKER_STR8: u8 = 0xd9;

pub const MARKER_STR16: u8 = 0xda;

pub const MARKER_STR32: u8 = 0xdb;

pub const MARKER_FIXARRAY: u8 = 0x90;

pub const MARKER_ARRAY16: u8 = 0xdc;

pub const MARKER_ARRAY32: u8 = 0xdd;

/// A value could not be encoded: a string or a list is longer than the
/// format's lengths can tell.
#[derive(Debug)]
pub struct EncodeError;

/// Bytes could not be decoded: they are not the encoded form of the value
/// that was expected.
#[derive(Debug)]
pub struct DecodeError;

/// The header of a string of `len` bytes, in the shortest form that holds
/// the length.
pub open spec fn str_header(len: int) -> Seq<u8> {
    if len < 32 {
        seq![(MARKER_FIXSTR + len) as u8]
    } else if len < 0x100 {
        seq![MARKER_STR8, len as u8]
    } else if len < 0x1_0000 {
        seq![MARKER_STR16] + u16_be(len as u16)
    } else {
        seq![MARKER_STR32] + u32_be(len as u32)
    }
}

/// A string: its header and its UTF-8 bytes.
pub open spec fn encoded_str(s: Seq<char>) -> Seq<u8> {
    str_header(encode_utf8(s).len() as int) + encode_utf8(s)
}

/// An optional string: nil where it is absent.
pub open spec fn encoded_opt_str(s: Option<Seq<char>>) -> Seq<u8> {
    match s {
        Some(s) => encoded_str(s),
        None => seq![MARKER_NIL],
    }
}

/// A boolean.
pub open spec fn encoded_bool(b: bool) -> Seq<u8> {
    if b {
        seq![MARKER_TRUE]
    } else {
        seq![MARKER_FALSE]
    }
}

/// The header of an array of `len` elements, in the shortest form that holds
/// the length.
pub open spec fn array_header(len: int) -> Seq<u8> {
    if len < 16 {
        seq![(MARKER_FIXARRAY + len) as u8]
    } else if len < 0x1_0000 {
        seq![MARKER_ARRAY16] + u16_be(len as u16)
    } else {
        seq![MARKER_ARRAY32] + u32_be(len as u32)
    }
}

/// Appends the header of a string of `len` bytes.
pub fn write_str_len(out: &mut Vec<u8>, len: u32)
    ensures
        final(out)@ == old(out)@ + str_header(len as int),
{
    let ghost out0 = out@;
    if len < 32 {
        out.push(MARKER_FIXSTR + len as u8);
    } else if len < 0x100 {
        out.push(MARKER_STR8);
        out.push(len as u8);
    } else if len < 0x1_0000 {
        out.push(MARKER_STR16);
        let b = write_u16_be(len as u16);
        push_all(out, b.as_slice());
    } else {
        out.push(MARKER_STR32);
        let b = write_u32_be(len);
        push_all(out, b.as_slice());
    }
    assert(out@ =~= out0 + str_header(len as int));
}

/// Appends a string. Fails, and appends nothing, where the string is longer
/// than a 32-bit length can tell.
pub fn write_str(out: &mut Vec<u8>, s: &str) -> (res: Result<(), EncodeError>)
    ensures
        res is Ok <==> encode_utf8(s@).len() <= u32::MAX,
        res is Ok ==> final(out)@ == old(out)@ + encoded_str(s@),
        res is Err ==> final(out)@ == old(out)@,
{
    let ghost out0 = out@;
    let bytes = s.as_bytes();
    if bytes.len() > u32::MAX as usize {
        return Err(EncodeError);
    }
    write_str_len(out, bytes.len() as u32);
    push_all(out, bytes);
    assert(out@ =~= out0 + encoded_str(s@));
    Ok(())
}

/// Appends an optional string. Fails, and appends nothing, where the string
/// is longer than a 32-bit length can tell.
pub fn write_opt_str(out: &mut Vec<u8>, s: Option<&str>) -> (res: Result<(), EncodeError>)
    ensures
        res is Ok <==> (s matches Some(t) ==> encode_utf8(t@).len() <= u32::MAX),
        res is Ok ==> final(out)@ == old(out)@ + encoded_opt_str(
            match s {
                Some(t) => Some(t@),
                None => None,
            },
        ),
        res is Err ==> final(out)@ == old(out)@,
{
    match s {
        Some(t) => write_str(out, t),
        None => {
            out.push(MARKER_NIL);
            assert(out@ =~= old(out)@ + seq![MARKER_NIL]);
            Ok(())
        },
    }
}

/// Appends a boolean.
pub fn write_bool(out: &mut Vec<u8>, b: bool)
    ensures
        final(out)@ == old(out)@ + encoded_bool(b),
{
    if b {
        out.push(MARKER_TRUE);
    } else {
        out.push(MARKER_FALSE);
    }
    assert(out@ =~= old(out)@ + encoded_bool(b));
}

/// Appends the header of an array of `len` elements.
pub fn write_array_len(out: &mut Vec<u8>, len: u32)
    ensures
        final(out)@ == old(out)@ + array_header(len as int),
{
    let ghost out0 = out@;
    if len < 16 {
        out.push(MARKER_FIXARRAY + len as u8);
    } else if len < 0x1_0000 {
        out.push(MARKER_ARRAY16);
        let b = write_u16_be(len as u16);
        push_all(out, b.as_slice());
    } else {
        out.push(MARKER_ARRAY32);
        let b = write_u32_be(len);
        push_all(out, b.as_slice());
    }
    assert(out@ =~= out0 + array_header(len as int));
}


/// How many bytes behind the marker `m` tell a length or a count.
pub open spec fn length_field_size(m: u8) -> int {
    if m == 0xc4 || m == 0xc7 || m == 0xd9 {
        1
    } else if m == 0xc5 || m == 0xc8 || m == 0xda || m == 0xdc || m == 0xde {
        2
    } else if m == 0xc6 || m == 0xc9 || m == 0xdb || m == 0xdd || m == 0xdf {
        4
    } else {
        0
    }
}

/// The length or count that the bytes behind the marker at `pos` tell, or
/// zero where the marker has no such bytes.
pub open spec fn length_field(b: Seq<u8>, pos: int) -> int {
    let size = length_field_size(b[pos]);
    if size == 1 {
        b[pos + 1] as int
    } else if size == 2 {
        be_u16(b.subrange(pos + 1, pos + 3)) as int
    } else if size == 4 {
        be_u32(b.subrange(pos + 1, pos + 5)) as int
    } else {
        0
    }
}

/// How many bytes of data a value with the marker `m` has whatever its
/// length field says: the bytes of a number, the type of an extension, the
/// bytes of a short string.
pub open spec fn fixed_size(m: u8) -> int {
    if 0xa0 <= m <= 0xbf {
        m - 0xa0
    } else if m == 0xc7 || m == 0xc8 || m == 0xc9 || m == 0xcc || m == 0xd0 {
        1
    } else if m == 0xcd || m == 0xd1 || m == 0xd4 {
        2
    } else if m == 0xd5 {
        3
    } else if m == 0xca || m == 0xce || m == 0xd2 {
        4
    } else if m == 0xd6 {
        5
    } else if m == 0xcb || m == 0xcf || m == 0xd3 {
        8
    } else if m == 0xd7 {
        9
    } else if m == 0xd8 {
        17
    } else {
        0
    }
}

/// Whether the length field of a value with the marker `m` counts bytes of
/// data: those of a string, a blob or an extension.
pub open spec fn counts_bytes(m: u8) -> bool {
    0xc4 <= m <= 0xc9 || 0xd9 <= m <= 0xdb
}

/// How many values a count of one stands for in a value with the marker `m`:
/// one in an array, two in a map, none elsewhere.
pub open spec fn values_per_count(m: u8) -> int {
    if 0x90 <= m <= 0x9f || m == 0xdc || m == 0xdd {
        1
    } else if 0x80 <= m <= 0x8f || m == 0xde || m == 0xdf {
        2
    } else {
        0
    }
}

/// The count of an array or a map with the marker at `pos`.
pub open spec fn container_count(b: Seq<u8>, pos: int) -> int {
    let m = b[pos];
    if 0x90 <= m <= 0x9f {
        m - 0x90
    } else if 0x80 <= m <= 0x8f {
        m - 0x80
    } else {
        length_field(b, pos)
    }
}

/// The bytes that the value at `pos` takes without the values inside it, and
/// the number of values inside it. Nothing where the marker is not in use or
/// the bytes end too early.
pub open spec fn value_head(b: Seq<u8>, pos: int) -> Option<(int, int)> {
    if !(0 <= pos < b.len()) {
        None
    } else {
        let m = b[pos];
        if m == 0xc1 || pos + 1 + length_field_size(m) > b.len() {
            None
        } else {
            let len = 1 + length_field_size(m) + fixed_size(m) + if counts_bytes(m) {
                length_field(b, pos)
            } else {
                0
            };
            if pos + len > b.len() {
                None
            } else {
                Some((len, values_per_count(m) * container_count(b, pos)))
            }
        }
    }
}

/// Where `pending` values that start at `pos` end. Nothing where the bytes
/// do not hold as many well-formed values.
pub open spec fn values_end(b: Seq<u8>, pos: int, pending: int) -> Option<int>
    decreases b.len() - pos,
{
    if pending <= 0 {
        Some(pos)
    } else {
        match value_head(b, pos) {
            Some((len, children)) => if len >= 1 {
                values_end(b, pos + len, pending - 1 + children)
            } else {
                None
            },
            None => None,
        }
    }
}

/// Whether `b` is one well-formed value and nothing else.
pub open spec fn is_value(b: Seq<u8>) -> bool {
    values_end(b, 0, 1) == Some(b.len() as int)
}

/// Values are never empty: more values than bytes are left do not fit.
pub proof fn lemma_values_need_bytes(b: Seq<u8>, pos: int, pending: int)
    requires
        0 <= pos <= b.len(),
        pending > b.len() - pos,
    ensures
        values_end(b, pos, pending) is None,
    decreases b.len() - pos,
{
    match value_head(b, pos) {
        Some((len, children)) => {
            if len >= 1 {
                lemma_values_need_bytes(b, pos + len, pending - 1 + children);
            }
        },
        None => {},
    }
}

/// The end of the values is inside the bytes.
pub proof fn lemma_values_end_bounds(b: Seq<u8>, pos: int, pending: int)
    requires
        0 <= pos <= b.len(),
    ensures
        values_end(b, pos, pending) matches Some(end) ==> pos <= end <= b.len(),
    decreases b.len() - pos,
{
    if pending > 0 {
        match value_head(b, pos) {
            Some((len, children)) => {
                if len >= 1 {
                    lemma_values_end_bounds(b, pos + len, pending - 1 + children);
                }
            },
            None => {},
        }
    }
}

/// Reads the head of the value at `pos`.
fn read_value_head(b: &[u8], pos: usize) -> (head: Option<(usize, u64)>)
    ensures
        match head {
            Some((len, children)) => value_head(b@, pos as int) == Some(
                (len as int, children as int),
            ),
            None => value_head(b@, pos as int) is None,
        },
{
    if pos >= b.len() {
        return None;
    }
    let m = b[pos];
    let field_size: usize = if m == 0xc4 || m == 0xc7 || m == 0xd9 {
        1
    } else if m == 0xc5 || m == 0xc8 || m == 0xda || m == 0xdc || m == 0xde {
        2
    } else if m == 0xc6 || m == 0xc9 || m == 0xdb || m == 0xdd || m == 0xdf {
        4
    } else {
        0
    };
    if m == 0xc1 || b.len() - pos < 1 + field_size {
        return None;
    }
    let field: u64 = if field_size == 1 {
        b[pos + 1] as u64
    } else if field_size == 2 {
        read_u16_be(slice_range(b, pos + 1, pos + 3)) as u64
    } else if field_size == 4 {
        read_u32_be(slice_range(b, pos + 1, pos + 5)) as u64
    } else {
        0
    };
    let fixed: u64 = if 0xa0 <= m && m <= 0xbf {
        (m - 0xa0) as u64
    } else if m == 0xc7 || m == 0xc8 || m == 0xc9 || m == 0xcc || m == 0xd0 {
        1
    } else if m == 0xcd || m == 0xd1 || m == 0xd4 {
        2
    } else if m == 0xd5 {
        3
    } else if m == 0xca || m == 0xce || m == 0xd2 {
        4
    } else if m == 0xd6 {
        5
    } else if m == 0xcb || m == 0xcf || m == 0xd3 {
        8
    } else if m == 0xd7 {
        9
    } else if m == 0xd8 {
        17
    } else {
        0
    };
    let counted: u64 = if (0xc4 <= m && m <= 0xc9) || (0xd9 <= m && m <= 0xdb) {
        field
    } else {
        0
    };
    let len: u64 = 1 + field_size as u64 + fixed + counted;
    if len > (b.len() - pos) as u64 {
        return None;
    }
    let per_count: u64 = if (0x90 <= m && m <= 0x9f) || m == 0xdc || m == 0xdd {
        1
    } else if (0x80 <= m && m <= 0x8f) || m == 0xde || m == 0xdf {
        2
    } else {
        0
    };
    let count: u64 = if 0x90 <= m && m <= 0x9f {
        (m - 0x90) as u64
    } else if 0x80 <= m && m <= 0x8f {
        (m - 0x80) as u64
    } else {
        field
    };
    assert(per_count * count == values_per_count(m) * container_count(b@, pos as int))
        by (nonlinear_arith)
        requires
            per_count == values_per_count(m),
            count == container_count(b@, pos as int),
    ;
    assert(per_count * count <= 2 * 0xffff_ffff) by (nonlinear_arith)
        requires
            per_count <= 2,
            count <= 0xffff_ffff,
    ;
    Some((len as usize, per_count * count))
}

/// Finds the end of the values that start at `pos`, `pending` of them.
pub fn skip_values(b: &[u8], pos: usize, pending: usize) -> (end: Option<usize>)
    requires
        pos <= b@.len(),
    ensures
        match end {
            Some(e) => values_end(b@, pos as int, pending as int) == Some(e as int) && pos <= e
                <= b@.len(),
            None => values_end(b@, pos as int, pending as int) is None,
        },
{
    let mut at: usize = pos;
    let mut left: u128 = pending as u128;
    while left > 0
        invariant
            pos <= at <= b@.len(),
            values_end(b@, pos as int, pending as int) == values_end(b@, at as int, left as int),
            left <= usize::MAX,
        decreases b@.len() - at,
    {
        if left > (b.len() - at) as u128 {
            proof {
                lemma_values_need_bytes(b@, at as int, left as int);
            }
            return None;
        }
        match read_value_head(b, at) {
            Some((len, children)) => {
                if len < 1 {
                    return None;
                }
                at = at + len;
                left = left - 1 + children as u128;
                if left > usize::MAX as u128 {
                    proof {
                        lemma_values_need_bytes(b@, at as int, left as int);
                    }
                    return None;
                }
            },
            None => {
                return None;
            },
        }
    }
    Some(at)
}

/// The string at `pos` with the place behind it. Nothing where no string
/// stands there, or one that is not UTF-8.
pub open spec fn str_at(b: Seq<u8>, pos: int) -> Option<(Seq<char>, int)> {
    if !(0 <= pos < b.len()) {
        None
    } else {
        let m = b[pos];
        if !(0xa0 <= m <= 0xbf || 0xd9 <= m <= 0xdb) {
            None
        } else {
            match value_head(b, pos) {
                Some((len, _)) => {
                    let start = pos + 1 + length_field_size(m);
                    let bytes = b.subrange(start, pos + len);
                    if valid_utf8(bytes) {
                        Some((decode_utf8(bytes), pos + len))
                    } else {
                        None
                    }
                },
                None => None,
            }
        }
    }
}

/// Reads the string at `pos`.
pub fn read_str(b: &[u8], pos: usize) -> (res: Option<(String, usize)>)
    ensures
        match res {
            Some((s, next)) => str_at(b@, pos as int) == Some((s@, next as int)) && pos < next
                <= b@.len(),
            None => str_at(b@, pos as int) is None,
        },
{
    if pos >= b.len() {
        return None;
    }
    let m = b[pos];
    if !((0xa0 <= m && m <= 0xbf) || (0xd9 <= m && m <= 0xdb)) {
        return None;
    }
    let field_size: usize = if m == 0xd9 {
        1
    } else if m == 0xda {
        2
    } else if m == 0xdb {
        4
    } else {
        0
    };
    match read_value_head(b, pos) {
        Some((len, _)) => {
            let start = pos + 1 + field_size;
            let bytes = copy_bytes(slice_range(b, start, pos + len));
            match string_from_utf8(bytes) {
                Some(s) => Some((s, pos + len)),
                None => None,
            }
        },
        None => None,
    }
}

/// The boolean at `pos` with the place behind it.
pub open spec fn bool_at(b: Seq<u8>, pos: int) -> Option<(bool, int)> {
    if !(0 <= pos < b.len()) {
        None
    } else if b[pos] == MARKER_TRUE {
        Some((true, pos + 1))
    } else if b[pos] == MARKER_FALSE {
        Some((false, pos + 1))
    } else {
        None
    }
}

/// Reads the boolean at `pos`.
pub fn read_bool(b: &[u8], pos: usize) -> (res: Option<(bool, usize)>)
    ensures
        match res {
            Some((v, next)) => bool_at(b@, pos as int) == Some((v, next as int)) && next == pos
                + 1 && next <= b@.len(),
            None => bool_at(b@, pos as int) is None,
        },
{
    if pos >= b.len() {
        None
    } else if b[pos] == MARKER_TRUE {
        Some((true, pos + 1))
    } else if b[pos] == MARKER_FALSE {
        Some((false, pos + 1))
    } else {
        None
    }
}

/// The length of the array whose header stands at `pos`, with the place
/// behind the header.
pub open spec fn array_len_at(b: Seq<u8>, pos: int) -> Option<(int, int)> {
    if !(0 <= pos < b.len()) {
        None
    } else {
        let m = b[pos];
        if !(0x90 <= m <= 0x9f || m == MARKER_ARRAY16 || m == MARKER_ARRAY32) {
            None
        } else {
            match value_head(b, pos) {
                Some((len, count)) => Some((count, pos + len)),
                None => None,
            }
        }
    }
}

/// Reads the header of the array at `pos`.
pub fn read_array_len(b: &[u8], pos: usize) -> (res: Option<(u32, usize)>)
    ensures
        match res {
            Some((n, next)) => array_len_at(b@, pos as int) == Some((n as int, next as int))
                && pos < next <= b@.len(),
            None => array_len_at(b@, pos as int) is None,
        },
{
    if pos >= b.len() {
        return None;
    }
    let m = b[pos];
    if !((0x90 <= m && m <= 0x9f) || m == MARKER_ARRAY16 || m == MARKER_ARRAY32) {
        return None;
    }
    match read_value_head(b, pos) {
        Some((len, count)) => Some((count as u32, pos + len)),
        None => None,
    }
}

/// The head of a value does not depend on what stands before the value and
/// behind it: where `v` holds a value at `p`, the bytes `pre + v + suf` hold
/// a value with the same head at `p` behind `pre`.
pub proof fn lemma_value_head_shift(pre: Seq<u8>, v: Seq<u8>, suf: Seq<u8>, p: int)
    requires
        value_head(v, p) is Some,
    ensures
        value_head(pre + v + suf, pre.len() + p) == value_head(v, p),
{
    let b = pre + v + suf;
    let o = pre.len() + p;
    assert(b[o] == v[p]);
    let m = v[p];
    let size = length_field_size(m);
    assert(p + 1 + size <= v.len());
    if size == 1 {
        assert(b[o + 1] == v[p + 1]);
    } else if size == 2 {
        assert(b.subrange(o + 1, o + 3) =~= v.subrange(p + 1, p + 3));
    } else if size == 4 {
        assert(b.subrange(o + 1, o + 5) =~= v.subrange(p + 1, p + 5));
    }
    assert(length_field(b, o) == length_field(v, p));
    assert(container_count(b, o) == container_count(v, p));
}

/// The end of values does not depend on what stands before them and behind
/// them.
pub proof fn lemma_values_end_shift(
    pre: Seq<u8>,
    v: Seq<u8>,
    suf: Seq<u8>,
    p: int,
    pending: int,
)
    requires
        0 <= p <= v.len(),
        values_end(v, p, pending) is Some,
    ensures
        values_end(pre + v + suf, pre.len() + p, pending) == Some(
            pre.len() + values_end(v, p, pending)->0,
        ),
    decreases v.len() - p,
{
    if pending > 0 {
        let (len, children) = value_head(v, p)->0;
        lemma_value_head_shift(pre, v, suf, p);
        lemma_values_end_shift(pre, v, suf, p + len, pending - 1 + children);
    }
}

/// A well-formed value is read as one value wherever it stands.
pub proof fn lemma_value_embedded(pre: Seq<u8>, v: Seq<u8>, suf: Seq<u8>)
    requires
        is_value(v),
    ensures
        values_end(pre + v + suf, pre.len() as int, 1) == Some((pre.len() + v.len()) as int),
{
    lemma_values_end_shift(pre, v, suf, 0, 1);
}

/// An encoded string is read as the string wherever it stands.
pub proof fn lemma_str_round_trip(pre: Seq<u8>, s: Seq<char>, suf: Seq<u8>)
    requires
        encode_utf8(s).len() <= u32::MAX,
    ensures
        str_at(pre + encoded_str(s) + suf, pre.len() as int) == Some(
            (s, (pre.len() + encoded_str(s).len()) as int),
        ),
{
    let bytes = encode_utf8(s);
    let len = bytes.len() as int;
    let header = str_header(len);
    let v = encoded_str(s);
    let b = pre + v + suf;
    let o = pre.len() as int;
    encode_utf8_valid_utf8(s);
    encode_utf8_decode_utf8(s);
    assert(v[0] == header[0]);
    assert(b[o] == v[0]);
    if len < 32 {
        assert(v.subrange(1, 1 + len) =~= bytes);
    } else if len < 0x100 {
        assert(v[1] == len as u8);
        assert(v.subrange(2, 2 + len) =~= bytes);
    } else if len < 0x1_0000 {
        lemma_u16_be_round_trip(len as u16);
        assert(v.subrange(1, 3) =~= u16_be(len as u16));
        assert(v.subrange(3, 3 + len) =~= bytes);
    } else {
        lemma_u32_be_round_trip(len as u32);
        assert(v.subrange(1, 5) =~= u32_be(len as u32));
        assert(v.subrange(5, 5 + len) =~= bytes);
    }
    let m = v[0];
    let head_len = 1 + length_field_size(m);
    assert(value_head(v, 0) == Some((head_len + len, 0int)));
    lemma_value_head_shift(pre, v, suf, 0);
    assert(b.subrange(o + head_len, o + head_len + len) =~= v.subrange(head_len, head_len + len));
}

/// An encoded boolean is read as the boolean wherever it stands.
pub proof fn lemma_bool_round_trip(pre: Seq<u8>, flag: bool, suf: Seq<u8>)
    ensures
        bool_at(pre + encoded_bool(flag) + suf, pre.len() as int) == Some(
            (flag, (pre.len() + 1) as int),
        ),
{
    let b = pre + encoded_bool(flag) + suf;
    assert(b[pre.len() as int] == encoded_bool(flag)[0]);
}

/// The header of an array is read as the length of the array.
pub proof fn lemma_array_header_round_trip(n: int, suf: Seq<u8>)
    requires
        0 <= n <= u32::MAX,
    ensures
        array_len_at(array_header(n) + suf, 0) == Some((n, array_header(n).len() as int)),
{
    let h = array_header(n);
    let b = h + suf;
    assert(b[0] == h[0]);
    if n < 16 {
    } else if n < 0x1_0000 {
        lemma_u16_be_round_trip(n as u16);
        assert(b.subrange(1, 3) =~= u16_be(n as u16));
    } else {
        lemma_u32_be_round_trip(n as u32);
        assert(b.subrange(1, 5) =~= u32_be(n as u32));
    }
}

} // verus!
