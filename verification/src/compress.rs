//! Gzip compression of response bodies. The compressor's exact output is not
//! pinned down (its frame header carries a timestamp); what is pinned down is
//! that decompressing the frame gives back exactly the input.

use vstd::prelude::*;

verus! {

/// What a gzip decoder yields for a byte sequence: `Some` of the decompressed
/// payload when the bytes form a well-formed gzip frame, `None` otherwise.
/// Stands for the output of `libflate::gzip::Decoder`, which depends on the
/// input bytes alone.
pub uninterp spec fn gunzip_of(bytes: Seq<u8>) -> Option<Seq<u8>>;

/// Compresses a buffer into a single gzip frame.
///
/// Relies on `libflate::gzip::Encoder` together with `libflate::gzip::Decoder`:
/// the encoder produces a well-formed gzip frame whose decompressed payload is
/// exactly the input. The sink is a `Vec`, whose writes cannot fail, so the
/// `unwrap`s cannot panic.
#[verifier::external_body]
pub fn gzip_compress(data: &Vec<u8>) -> (r: Vec<u8>)
    ensures
        gunzip_of(r@) == Some(data@),
{
    let mut encoder = libflate::gzip::Encoder::new(Vec::new()).unwrap();
    std::io::copy(&mut &data[..], &mut encoder).unwrap();
    encoder.finish().into_result().unwrap()
}

} // verus!
