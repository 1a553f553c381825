//! Compression of stored item data.

use vstd::prelude::*;

verus! {

/// What a gzip stream holds once it is decompressed, or nothing where the
/// bytes are no gzip stream.
pub uninterp spec fn gzip_content(stream: Seq<u8>) -> Option<Seq<u8>>;

/// `libflate::gzip::Encoder`: `new` on an empty buffer, `write_all` of `data`
/// and `finish`. The stream holds the time at which it was made, so two
/// streams of the same data may differ. Every stream that comes out
/// decompresses to `data`.
#[verifier::external_body]
pub(crate) fn gzip_compress(data: &[u8]) -> (stream: Option<Vec<u8>>)
    ensures
        stream matches Some(z) ==> gzip_content(z@) == Some(data@),
{
    let mut encoder = libflate::gzip::Encoder::new(Vec::new()).ok()?;
    std::io::Write::write_all(&mut encoder, data).ok()?;
    encoder.finish().into_result().ok()
}

/// `libflate::gzip::Decoder`: `new` on `stream` and `read_to_end`. What the
/// stream holds is named by `gzip_content`.
#[verifier::external_body]
pub(crate) fn gzip_decompress(stream: &[u8]) -> (data: Option<Vec<u8>>)
    ensures
        match data {
            Some(d) => gzip_content(stream@) == Some(d@),
            None => gzip_content(stream@) is None,
        },
{
    let mut decoder = libflate::gzip::Decoder::new(stream).ok()?;
    let mut data = Vec::new();
    std::io::Read::read_to_end(&mut decoder, &mut data).ok()?;
    Some(data)
}

} // verus!
