//! zlib compression of build data, as the scripts' `Deflate` and `Inflate`
//! ask for it, done by the flate2 crate.

use vstd::prelude::*;
use std::io::{Read, Write};

verus! {

/// The zlib stream that flate2 writes for `data` at its default level.
pub uninterp spec fn zlib_compressed(data: Seq<u8>) -> Seq<u8>;

/// Whether flate2's encoder reports an error when it compresses `data` at its
/// default level.
pub uninterp spec fn zlib_compress_fails(data: Seq<u8>) -> bool;

/// What flate2 decodes from `data` as a zlib stream; `None` where it reports
/// an error.
pub uninterp spec fn zlib_decompressed(data: Seq<u8>) -> Option<Seq<u8>>;

/// Writes `data` through `flate2::write::ZlibEncoder` (default level) into a
/// vector and finishes the stream. Whether the encoder reports an error is
/// named, as a function of `data`; otherwise the result is the named zlib
/// stream of `data`. For which inputs the encoder fails is left unsaid:
/// `write_all` and `finish` pass on the compression backend's errors, and
/// flate2 does not promise that none occur.
#[verifier::external_body]
fn zlib_compress(data: &[u8]) -> (r: Option<Vec<u8>>)
    ensures
        r is None <==> zlib_compress_fails(data@),
        r matches Some(v) ==> v@ == zlib_compressed(data@),
{
    let mut encoder = flate2::write::ZlibEncoder::new(Vec::new(), flate2::Compression::default());
    match encoder.write_all(data) {
        Ok(()) => {},
        Err(_) => return None,
    }
    encoder.finish().ok()
}

/// Reads `data` to its end through `flate2::read::ZlibDecoder`. The result is
/// the named decoding of `data`; a stream that the encoder above wrote for
/// some bytes decodes to exactly those bytes, zlib being lossless.
#[verifier::external_body]
fn zlib_decompress(data: &[u8]) -> (r: Option<Vec<u8>>)
    ensures
        match r {
            Some(v) => zlib_decompressed(data@) == Some(v@) && (forall|x: Seq<u8>|
                data@ == zlib_compressed(x) ==> v@ == x),
            None => zlib_decompressed(data@) is None && (forall|x: Seq<u8>|
                data@ != zlib_compressed(x)),
        },
{
    let mut decoder = flate2::read::ZlibDecoder::new(data);
    let mut out = Vec::new();
    match decoder.read_to_end(&mut out) {
        Ok(_) => Some(out),
        Err(_) => None,
    }
}

/// Compress `data` into a zlib stream; `None` where the encoder reports an
/// error.
pub fn deflate(data: &[u8]) -> (r: Option<Vec<u8>>)
    ensures
        r is None <==> zlib_compress_fails(data@),
        r matches Some(v) ==> v@ == zlib_compressed(data@),
{
    zlib_compress(data)
}

/// Decompress the zlib stream `data`; `None` where it is not one. Inflating
/// what `deflate` produced gives back the bytes it was given.
pub fn inflate(data: &[u8]) -> (r: Option<Vec<u8>>)
    ensures
        match r {
            Some(v) => zlib_decompressed(data@) == Some(v@) && (forall|x: Seq<u8>|
                data@ == zlib_compressed(x) ==> v@ == x),
            None => zlib_decompressed(data@) is None && (forall|x: Seq<u8>|
                data@ != zlib_compressed(x)),
        },
        forall|x: Seq<u8>| data@ == zlib_compressed(x) ==> (r matches Some(v) && v@ == x),
{
    zlib_decompress(data)
}

} // verus!
