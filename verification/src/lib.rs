//! Safety layer over a native geolocation database engine.
//!
//! The native engine resolves IP addresses to geographic and
//! autonomous-system metadata.  This crate holds the verified boundary
//! logic around it: encoding addresses into the binary keys the engine
//! expects, decoding its sentinel-valued and nullable fields into owned
//! optional values, parsing its autonomous-system description strings,
//! deciding the outcome of each open and query sequence, and tracking
//! the copy-then-free discipline for natively allocated records.

pub mod addr;
pub mod asinfo;
pub mod errors;
pub mod handle;
pub mod record;
pub mod text;
pub mod types;

pub use addr::{EncodedAddress, NetworkAddress};
pub use asinfo::ASInfo;
pub use errors::{OpenPathError, OpenTypeError, ReadInfoError};
pub use record::{maybe_code, CityInfo, RawRecord, RecordLifecycle};
pub use text::maybe_string;
pub use types::{Charset, DBType, Options};
