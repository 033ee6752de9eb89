use shard_ingest::codec::compress_round_trip;
use shard_ingest::codec::gzip_compress;
use shard_ingest::codec::gzip_decompress;

#[test]
fn round_trip_returns_input() {
    let data: Vec<u8> = b"{\"n\":2}".to_vec();
    assert_eq!(compress_round_trip(&data), data);
}

#[test]
fn round_trip_empty() {
    let data: Vec<u8> = Vec::new();
    assert_eq!(compress_round_trip(&data), data);
}

#[test]
fn round_trip_large() {
    let mut data: Vec<u8> = Vec::new();
    for i in 0..10_000u32 {
        data.push((i % 251) as u8);
    }
    assert_eq!(compress_round_trip(&data), data);
}

#[test]
fn compress_then_decompress() {
    let data: Vec<u8> = b"hello world".to_vec();
    let packed = gzip_compress(&data);
    assert_ne!(packed, data);
    assert_eq!(gzip_decompress(&packed).unwrap(), data);
}

#[test]
fn compressed_output_is_real_gzip() {
    let data: Vec<u8> = b"independently decompressible".to_vec();
    let packed = gzip_compress(&data);
    let mut decoder = flate2::read::GzDecoder::new(&packed[..]);
    let mut out: Vec<u8> = Vec::new();
    std::io::Read::read_to_end(&mut decoder, &mut out).unwrap();
    assert_eq!(out, data);
}

#[test]
fn decompress_rejects_garbage() {
    let garbage: Vec<u8> = b"not a gzip stream".to_vec();
    assert!(gzip_decompress(&garbage).is_err());
}
