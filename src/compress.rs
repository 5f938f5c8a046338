//! One-shot Brotli compression of a byte buffer.
use vstd::prelude::*;
use std::io::Write;

verus! {

/// The Brotli stream that brotlic's encoder, at its default settings, makes of `data`.
pub uninterp spec fn brotli_stream(data: Seq<u8>) -> Seq<u8>;

/// Relies on `brotlic::CompressorWriter` over a `Vec<u8>` (`new`, `write_all`,
/// `into_inner`): the one finished stream for `data` at the default encoder
/// settings. The encoder reports an error only on a failed allocation or on
/// misuse of its stream state, which this sequence of calls never makes, and
/// writing into a `Vec<u8>` does not fail; `BrotliEncoder::new` panics only
/// where the encoder cannot be allocated.
#[verifier::external_body]
fn brotli_compress(data: &[u8]) -> (r: Vec<u8>)
    ensures
        r@ == brotli_stream(data@),
{
    let mut compressor = brotlic::CompressorWriter::new(Vec::new());
    compressor.write_all(data).expect("the encoder writes into memory");
    compressor.into_inner().expect("the encoder finishes into memory")
}

/// Compresses `data` into one complete Brotli stream.
pub fn to_brotli(data: Vec<u8>) -> (r: Vec<u8>)
    ensures
        r@ == brotli_stream(data@),
{
    brotli_compress(data.as_slice())
}

} // verus!
