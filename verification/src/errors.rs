//! The layered error taxonomy: three independent families, not one flat
//! enumeration.  Path-based opens, type-based opens and info reads each
//! fail in their own ways, and every error retains the offending input
//! for diagnosis.

use vstd::prelude::*;
use vstd::string::StringExecFns;

use crate::text::{format_usize, lossy_utf8, spec_decimal_digits, utf8_lossy};
use crate::types::{spec_db_type_name, Charset, DBType};

verus! {

/// Failures of a path-based open: a path that cannot form a native
/// string (an embedded terminator byte), a native open call that
/// returned no resource, or a rejected charset configuration.
#[derive(Clone, Debug)]
pub enum OpenPathError {
    InvalidPath { path: Vec<u8>, nul_position: usize },
    OpenFailed { path: Vec<u8> },
    SetCharsetFailed { charset: Charset },
}

/// The fixed description of each path-open failure.
pub open spec fn spec_open_path_description(e: OpenPathError) -> Seq<char> {
    match e {
        OpenPathError::InvalidPath { .. } => "invalid database path"@,
        OpenPathError::OpenFailed { .. } => "failed to open database from path"@,
        OpenPathError::SetCharsetFailed { .. } => "failed to set database charset"@,
    }
}

impl OpenPathError {
    /// A short fixed description of the failure.
    pub fn description(&self) -> (r: &'static str)
        ensures
            r@ == spec_open_path_description(*self),
    {
        match self {
            OpenPathError::InvalidPath { .. } => "invalid database path",
            OpenPathError::OpenFailed { .. } => "failed to open database from path",
            OpenPathError::SetCharsetFailed { .. } => "failed to set database charset",
        }
    }
}

/// The diagnostic line of each path-open failure, naming the offending
/// input: the position of the embedded terminator byte, or the path the
/// open call rejected (written lossily where it is not valid text).
pub open spec fn spec_open_path_message(e: OpenPathError) -> Seq<char> {
    match e {
        OpenPathError::InvalidPath { path: _, nul_position } => (
        "Given path was invalid: nul byte found in provided data at position: "@
            + spec_decimal_digits(nul_position as int)),
        OpenPathError::OpenFailed { path } => (
        "Failed to open database from path '"@ + lossy_utf8(path@) + "'"@),
        OpenPathError::SetCharsetFailed { charset } => match charset {
            Charset::Utf8 => "Failed to set database charset Utf8"@,
        },
    }
}

impl OpenPathError {
    /// The diagnostic line for this failure.
    pub fn message(&self) -> (r: String)
        ensures
            r@ == spec_open_path_message(*self),
    {
        match self {
            OpenPathError::InvalidPath { path: _, nul_position } => {
                let mut s = String::from_str(
                    "Given path was invalid: nul byte found in provided data at position: ",
                );
                s.append(format_usize(*nul_position).as_str());
                s
            },
            OpenPathError::OpenFailed { path } => {
                let mut s = String::from_str("Failed to open database from path '");
                s.append(utf8_lossy(path.as_slice()).as_str());
                s.append("'");
                s
            },
            OpenPathError::SetCharsetFailed { charset } => match charset {
                Charset::Utf8 => String::from_str("Failed to set database charset Utf8"),
            },
        }
    }
}

/// Failures of a type-based open: a native open call that returned no
/// resource for the requested type, or a rejected charset configuration.
#[derive(Clone, Debug)]
pub enum OpenTypeError {
    OpenFailed { db_type: DBType },
    SetCharsetFailed { charset: Charset },
}

/// The fixed description of each type-open failure.
pub open spec fn spec_open_type_description(e: OpenTypeError) -> Seq<char> {
    match e {
        OpenTypeError::OpenFailed { .. } => "failed to open database of type"@,
        OpenTypeError::SetCharsetFailed { .. } => "failed to set database charset"@,
    }
}

impl OpenTypeError {
    /// A short fixed description of the failure.
    pub fn description(&self) -> (r: &'static str)
        ensures
            r@ == spec_open_type_description(*self),
    {
        match self {
            OpenTypeError::OpenFailed { .. } => "failed to open database of type",
            OpenTypeError::SetCharsetFailed { .. } => "failed to set database charset",
        }
    }
}

/// The diagnostic line of each type-open failure, naming the requested
/// database type.
pub open spec fn spec_open_type_message(e: OpenTypeError) -> Seq<char> {
    match e {
        OpenTypeError::OpenFailed { db_type } => (
        "Failed to open database of type "@ + spec_db_type_name(db_type)),
        OpenTypeError::SetCharsetFailed { charset } => match charset {
            Charset::Utf8 => "Failed to set database charset Utf8"@,
        },
    }
}

impl OpenTypeError {
    /// The diagnostic line for this failure.
    pub fn message(&self) -> (r: String)
        ensures
            r@ == spec_open_type_message(*self),
    {
        match self {
            OpenTypeError::OpenFailed { db_type } => {
                let mut s = String::from_str("Failed to open database of type ");
                s.append(db_type.name());
                s
            },
            OpenTypeError::SetCharsetFailed { charset } => match charset {
                Charset::Utf8 => String::from_str("Failed to set database charset Utf8"),
            },
        }
    }
}

/// Failures of an info read: the native info call returned no buffer, or
/// the buffer failed text validation.  The second case keeps the raw
/// bytes, since it points at a corrupt or incompatible database build.
#[derive(Clone, Debug)]
pub enum ReadInfoError {
    InfoFailed,
    InvalidData { bytes: Vec<u8> },
}

/// The fixed description of each info-read failure.
pub open spec fn spec_read_info_description(e: ReadInfoError) -> Seq<char> {
    match e {
        ReadInfoError::InfoFailed => "failed to get database info"@,
        ReadInfoError::InvalidData { .. } => "invalid info data"@,
    }
}

/// The diagnostic line of each info-read failure.
pub open spec fn spec_read_info_message(e: ReadInfoError) -> Seq<char> {
    match e {
        ReadInfoError::InfoFailed => "Failed to get database info"@,
        ReadInfoError::InvalidData { .. } => "Invalid info data"@,
    }
}

impl ReadInfoError {
    /// A short fixed description of the failure.
    pub fn description(&self) -> (r: &'static str)
        ensures
            r@ == spec_read_info_description(*self),
    {
        match self {
            ReadInfoError::InfoFailed => "failed to get database info",
            ReadInfoError::InvalidData { .. } => "invalid info data",
        }
    }

    /// The diagnostic line for this failure.
    pub fn message(&self) -> (r: String)
        ensures
            r@ == spec_read_info_message(*self),
    {
        match self {
            ReadInfoError::InfoFailed => String::from_str("Failed to get database info"),
            ReadInfoError::InvalidData { .. } => String::from_str("Invalid info data"),
        }
    }
}

} // verus!
