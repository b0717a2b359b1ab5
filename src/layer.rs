use vstd::prelude::*;
use crate::registry::LaunchError;

verus! {

#[verifier::external_type_specification]
#[verifier::external_body]
pub struct ExIoError(std::io::Error);

/// What a gzip decoder makes of `data` read to its end; `None` when the
/// stream is malformed or truncated.
pub uninterp spec fn gunzip_of(data: Seq<u8>) -> Option<Seq<u8>>;

/// Relies on flate2::read::GzDecoder, read to its end: the decompressed bytes
/// of one gzip stream, or an error for a malformed or truncated one.
#[verifier::external_body]
fn gunzip(data: &[u8]) -> (r: Result<Vec<u8>, std::io::Error>)
    ensures
        r is Ok <==> gunzip_of(data@) is Some,
        r matches Ok(v) ==> gunzip_of(data@) == Some(v@),
{
    let mut out = Vec::new();
    std::io::Read::read_to_end(&mut flate2::read::GzDecoder::new(data), &mut out).map(|_| out)
}

/// Decompresses a fetched layer blob into its tar archive; a bad blob is a
/// failure of the layer `digest`.
pub fn decompress_layer(digest: &String, blob: &[u8]) -> (r: Result<Vec<u8>, LaunchError>)
    ensures
        r is Ok <==> gunzip_of(blob@) is Some,
        r matches Ok(v) ==> gunzip_of(blob@) == Some(v@),
        r matches Err(e) ==> e == (LaunchError::LayerFetch { digest: *digest }),
{
    match gunzip(blob) {
        Ok(v) => Ok(v),
        Err(_) => Err(LaunchError::LayerFetch { digest: digest.clone() }),
    }
}

} // verus!
