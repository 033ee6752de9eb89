//! Per-record compression: every stored value is compressed on its own at
//! maximum effort, so that it stays decompressible without any neighbouring
//! context.

use vstd::prelude::*;

verus! {

/// The bytes that a standard gzip decoder yields for `b`, or `None` when `b`
/// is not a well-formed gzip stream.  Which bytes those are on given input is
/// settled by the decoder alone; the trusted items below state only what
/// flate2 documents: decoding is a function of the stream, and it inverts
/// encoding.
pub uninterp spec fn gunzip(b: Seq<u8>) -> Option<Seq<u8>>;

/// The stream the gzip encoder at maximum effort writes for `data`.  The
/// encoder is a function of the input bytes alone: flate2 fixes the header's
/// timestamp to zero and its operating-system byte to a constant, precisely
/// so that its streams are reproducible everywhere.
pub uninterp spec fn gzip_best(data: Seq<u8>) -> Seq<u8>;

/// Relies on flate2::write::GzEncoder at Compression::best: the stream it
/// writes depends on `data` alone, and gzip is lossless, so decoding that
/// stream yields `data` exactly.  Writing into a Vec sink cannot fail.
#[verifier::external_body]
pub fn gzip_compress(data: &Vec<u8>) -> (r: Vec<u8>)
    ensures
        r@ == gzip_best(data@),
        gunzip(r@) == Some(data@),
{
    let mut enc = flate2::write::GzEncoder::new(Vec::new(), flate2::Compression::best());
    std::io::Write::write_all(&mut enc, &data[..]).unwrap();
    enc.finish().unwrap()
}

/// Relies on flate2::read::GzDecoder: reading it to the end yields the decoded
/// bytes of a well-formed stream, and an error on a corrupt one.
#[verifier::external_body]
pub fn gzip_decompress(data: &Vec<u8>) -> (r: Result<Vec<u8>, String>)
    ensures
        match r {
            Ok(v) => gunzip(data@) == Some(v@),
            Err(_) => gunzip(data@) is None,
        },
{
    let mut dec = flate2::read::GzDecoder::new(&data[..]);
    let mut out: Vec<u8> = Vec::new();
    match std::io::Read::read_to_end(&mut dec, &mut out) {
        Ok(_) => Ok(out),
        Err(e) => Err(format!("{}", e)),
    }
}

/// Compressing a record's bytes and decompressing the result returns the
/// original bytes exactly.
pub fn compress_round_trip(data: &Vec<u8>) -> (r: Vec<u8>)
    ensures
        r@ == data@,
{
    let packed = gzip_compress(data);
    match gzip_decompress(&packed) {
        Ok(v) => v,
        Err(_) => {
            proof {
                assert(false);
            }
            Vec::new()
        },
    }
}

} // verus!
