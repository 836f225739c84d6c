use vstd::prelude::*;

verus! {

/// A byte sequence is a PNG image for our purposes exactly when it starts
/// with the standard 8-byte PNG magic signature `89 50 4E 47 0D 0A 1A 0A`.
pub open spec fn is_png(s: Seq<u8>) -> bool {
    &&& s.len() >= 8
    &&& s[0] == 0x89u8
    &&& s[1] == 0x50u8
    &&& s[2] == 0x4eu8
    &&& s[3] == 0x47u8
    &&& s[4] == 0x0du8
    &&& s[5] == 0x0au8
    &&& s[6] == 0x1au8
    &&& s[7] == 0x0au8
}

/// Sole content-type gate for uploaded and downloaded images: true iff the
/// bytes are at least 8 long and begin with the PNG magic signature.
pub fn is_valid_png(bytes: &[u8]) -> (r: bool)
    ensures
        r == is_png(bytes@),
{
    bytes.len() >= 8 && bytes[0] == 0x89 && bytes[1] == 0x50 && bytes[2] == 0x4e
        && bytes[3] == 0x47 && bytes[4] == 0x0d && bytes[5] == 0x0a && bytes[6] == 0x1a
        && bytes[7] == 0x0a
}

/// Why a remote avatar fetch failed.
#[derive(Clone, Copy, PartialEq, Eq, Debug)]
pub enum FetchError {
    /// The response status was not a success (2xx) code.
    HttpStatus,
    /// The response body did not pass the PNG validator.
    InvalidImage,
    /// A filesystem error while writing the destination file.
    Io,
    /// A transport-level failure.
    Network,
}

/// Decides the outcome of a remote fetch from the response status and body:
/// the status must be a success (2xx) code and the body must pass the PNG
/// validator, in that order. Validation happens strictly before any file is
/// created, so a rejection here leaves no file on disk.
pub fn evaluate_fetch(status: u16, body: &[u8]) -> (r: Result<(), FetchError>)
    ensures
        r is Ok <==> (200 <= status < 300 && is_png(body@)),
        !(200 <= status < 300) ==> r == Result::<(), FetchError>::Err(FetchError::HttpStatus),
        (200 <= status < 300 && !is_png(body@)) ==> r == Result::<(), FetchError>::Err(
            FetchError::InvalidImage,
        ),
{
    if !(200 <= status && status < 300) {
        Err(FetchError::HttpStatus)
    } else if !is_valid_png(body) {
        Err(FetchError::InvalidImage)
    } else {
        Ok(())
    }
}

} // verus!
