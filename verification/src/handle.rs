//! The decision layer of the database handle.
//!
//! The handle's open sequence is: encode the path (or the edition
//! identifier), issue the native open call, and on success configure the
//! UTF-8 charset before the handle is considered usable.  The native
//! calls themselves sit outside this crate; the functions here decide,
//! from each call's outcome, whether the sequence succeeded and which
//! typed failure it produced otherwise, and decode the info buffer a
//! handle reports.

use vstd::prelude::*;
use vstd::utf8::{decode_utf8, valid_utf8};

use crate::errors::{OpenPathError, OpenTypeError, ReadInfoError};
use crate::text::{opt_bytes_view, to_c_bytes, utf8_to_string};
use crate::types::{Charset, DBType};

verus! {

/// Encodes a path for the native open call: fails exactly when the path
/// holds an embedded zero byte (recording the path and the position of
/// the first one), and otherwise appends the terminating zero byte.
pub fn encode_path(path: &[u8]) -> (r: Result<Vec<u8>, OpenPathError>)
    ensures
        r is Ok <==> !path@.contains(0),
        r matches Ok(v) ==> v@ == path@.push(0),
        r matches Err(e) ==> (e matches OpenPathError::InvalidPath { path: p, nul_position } && p@
            == path@ && path@.index_of_first(0) == Some(nul_position as int)),
{
    match to_c_bytes(path) {
        Ok(v) => Ok(v),
        Err(i) => {
            proof {
                path@.index_of_first_ensures(0u8);
            }
            Err(OpenPathError::InvalidPath { path: vstd::slice::slice_to_vec(path), nul_position: i })
        },
    }
}

/// Decides the outcome of a path-based open sequence from the native
/// results: whether the open call returned a resource, and if it did,
/// the status the charset-configuration call reported (zero is success).
/// The open failure carries the path; the charset failure carries the
/// charset that was being configured.
pub fn open_path_outcome(path: &[u8], opened: bool, charset_status: i32) -> (r: Result<
    (),
    OpenPathError,
>)
    ensures
        r is Ok <==> opened && charset_status == 0,
        !opened ==> (r matches Err(e) && e matches OpenPathError::OpenFailed { path: p } && p@
            == path@),
        opened && charset_status != 0 ==> (r matches Err(e) && e
            == (OpenPathError::SetCharsetFailed { charset: Charset::Utf8 })),
{
    if !opened {
        Err(OpenPathError::OpenFailed { path: vstd::slice::slice_to_vec(path) })
    } else if charset_status != 0 {
        Err(OpenPathError::SetCharsetFailed { charset: Charset::Utf8 })
    } else {
        Ok(())
    }
}

/// Decides the outcome of a type-based open sequence from the native
/// results, analogously to the path-based one.  The open failure carries
/// the requested database type.
pub fn open_type_outcome(db_type: DBType, opened: bool, charset_status: i32) -> (r: Result<
    (),
    OpenTypeError,
>)
    ensures
        r is Ok <==> opened && charset_status == 0,
        !opened ==> (r matches Err(e) && e == (OpenTypeError::OpenFailed { db_type })),
        opened && charset_status != 0 ==> (r matches Err(e) && e
            == (OpenTypeError::SetCharsetFailed { charset: Charset::Utf8 })),
{
    if !opened {
        Err(OpenTypeError::OpenFailed { db_type })
    } else if charset_status != 0 {
        Err(OpenTypeError::SetCharsetFailed { charset: Charset::Utf8 })
    } else {
        Ok(())
    }
}

/// Decodes the database build/version buffer the native info call
/// reported: no buffer is an info failure, and a buffer that is not
/// valid UTF-8 is an invalid-data failure that keeps the raw bytes.
/// Unlike the optional record fields, a failed decode here is a hard
/// error, since it points at a corrupt or incompatible database build.
pub fn decode_info(raw: Option<Vec<u8>>) -> (r: Result<String, ReadInfoError>)
    ensures
        match opt_bytes_view(raw) {
            None => r matches Err(e) && e is InfoFailed,
            Some(b) => {
                &&& (r is Ok <==> valid_utf8(b))
                &&& (r matches Ok(s) ==> s@ == decode_utf8(b))
                &&& (!valid_utf8(b) ==> (r matches Err(e) && e matches ReadInfoError::InvalidData {
                    bytes,
                } && bytes@ == b))
            },
        },
{
    match raw {
        None => Err(ReadInfoError::InfoFailed),
        Some(b) => {
            match utf8_to_string(b.as_slice()) {
                Some(s) => Ok(s),
                None => Err(ReadInfoError::InvalidData { bytes: b }),
            }
        },
    }
}

} // verus!
