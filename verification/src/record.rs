//! Decoding of natively allocated lookup records into owned values, and
//! the copy-then-free discipline that governs their lifetime.
//!
//! A native record is a library-owned structure of nullable text pointers
//! and sentinel-coded numbers.  [`RawRecord`] is its image in plain
//! values: each nullable pointer as an optional byte buffer, each number
//! as the integer the native field holds.  [`CityInfo`] is the owned
//! result a query returns; it never references native memory.
//!
//! For every native call that yields a record, the needed fields must be
//! copied out before the record is released, and the matching release
//! routine must run exactly once.  [`RecordLifecycle`] states that
//! protocol as contracts: a record can only be marked freed after it was
//! copied, it can be marked freed only once, and the decoded result can
//! only be taken once the record was freed.

use vstd::prelude::*;

use crate::text::{maybe_string, opt_bytes_view, opt_string_view, spec_maybe_string};

verus! {

/// What an optional sentinel-coded numeric field decodes to: the native
/// engine uses zero to mean "not applicable".
pub open spec fn spec_maybe_code(code: u32) -> Option<u32> {
    if code == 0 {
        None
    } else {
        Some(code)
    }
}

/// Decodes a sentinel-coded numeric field: zero means absent, any other
/// value is present with exactly that value.
pub fn maybe_code(code: u32) -> (r: Option<u32>)
    ensures
        r == spec_maybe_code(code),
{
    if code == 0 {
        None
    } else {
        Some(code)
    }
}

/// The plain-value image of one natively allocated record, field for
/// field in the engine's fixed order: each nullable text pointer as an
/// optional byte buffer, latitude and longitude as the bit patterns of
/// the native single-precision values, and the numeric codes unchanged.
pub struct RawRecord {
    pub country_code: Option<Vec<u8>>,
    pub country_code3: Option<Vec<u8>>,
    pub country_name: Option<Vec<u8>>,
    pub region: Option<Vec<u8>>,
    pub city: Option<Vec<u8>>,
    pub postal_code: Option<Vec<u8>>,
    pub latitude_bits: u32,
    pub longitude_bits: u32,
    pub dma_code: u32,
    pub area_code: u32,
    pub continent_code: Option<Vec<u8>>,
    pub netmask: u32,
}

/// One owned lookup result.  Every text field is optional because the
/// underlying database entry may omit it; dma and area codes are absent
/// exactly when the native record holds the zero sentinel.  Latitude and
/// longitude pass through as the bit patterns of the native
/// single-precision values, with no sentinel handling.
#[derive(Clone, Debug)]
pub struct CityInfo {
    pub country_code: Option<String>,
    pub country_code3: Option<String>,
    pub country_name: Option<String>,
    pub region: Option<String>,
    pub city: Option<String>,
    pub postal_code: Option<String>,
    pub latitude_bits: u32,
    pub longitude_bits: u32,
    pub dma_code: Option<u32>,
    pub area_code: Option<u32>,
    pub continent_code: Option<String>,
    pub netmask: u32,
}

/// The decode relation between an owned result and the native record it
/// was copied from: every text field decodes by the optional-text rule,
/// both sentinel-coded numbers by the zero-means-absent rule, and the
/// remaining numeric fields pass through unchanged.
pub open spec fn city_info_matches_record(c: CityInfo, r: RawRecord) -> bool {
    &&& opt_string_view(c.country_code) == spec_maybe_string(opt_bytes_view(r.country_code))
    &&& opt_string_view(c.country_code3) == spec_maybe_string(opt_bytes_view(r.country_code3))
    &&& opt_string_view(c.country_name) == spec_maybe_string(opt_bytes_view(r.country_name))
    &&& opt_string_view(c.region) == spec_maybe_string(opt_bytes_view(r.region))
    &&& opt_string_view(c.city) == spec_maybe_string(opt_bytes_view(r.city))
    &&& opt_string_view(c.postal_code) == spec_maybe_string(opt_bytes_view(r.postal_code))
    &&& c.latitude_bits == r.latitude_bits
    &&& c.longitude_bits == r.longitude_bits
    &&& c.dma_code == spec_maybe_code(r.dma_code)
    &&& c.area_code == spec_maybe_code(r.area_code)
    &&& opt_string_view(c.continent_code) == spec_maybe_string(opt_bytes_view(r.continent_code))
    &&& c.netmask == r.netmask
}

impl CityInfo {
    /// Copies a native record's image into an owned result, decoding
    /// every field by the optional-field rules.
    pub fn from_raw_record(r: RawRecord) -> (c: CityInfo)
        ensures
            city_info_matches_record(c, r),
    {
        CityInfo {
            country_code: maybe_string(r.country_code),
            country_code3: maybe_string(r.country_code3),
            country_name: maybe_string(r.country_name),
            region: maybe_string(r.region),
            city: maybe_string(r.city),
            postal_code: maybe_string(r.postal_code),
            latitude_bits: r.latitude_bits,
            longitude_bits: r.longitude_bits,
            dma_code: maybe_code(r.dma_code),
            area_code: maybe_code(r.area_code),
            continent_code: maybe_string(r.continent_code),
            netmask: r.netmask,
        }
    }
}

/// Tracks one natively allocated record from receipt to release.  The
/// contracts enforce the mandatory copy-then-free ordering: the record
/// must be copied before it may be marked freed, it may be marked freed
/// exactly once, and the decoded result is handed out only after the
/// free.  Freeing before copying would be a use-after-free; copying
/// without freeing would leak on every successful query.
pub struct RecordLifecycle {
    copied: Option<CityInfo>,
    frees: u32,
}

impl RecordLifecycle {
    /// The decoded result copied out of the native record so far.
    pub closed spec fn spec_copied(self) -> Option<CityInfo> {
        self.copied
    }

    /// How many times the native record was released.
    pub closed spec fn spec_frees(self) -> int {
        self.frees as int
    }

    /// The lifecycle invariant: a released record was copied first.
    pub open spec fn wf(self) -> bool {
        self.spec_frees() == 1 ==> self.spec_copied() is Some
    }

    /// Starts a lifecycle for one record the native engine just handed
    /// over: nothing copied, nothing freed.
    pub fn begin() -> (r: Self)
        ensures
            r.spec_copied() is None,
            r.spec_frees() == 0,
            r.wf(),
    {
        RecordLifecycle { copied: None, frees: 0 }
    }

    /// Copies the record's fields into an owned result.  Only a record
    /// that was not yet freed may be read, and it is copied once.
    pub fn copy_record(&mut self, raw: RawRecord)
        requires
            old(self).spec_copied() is None,
            old(self).spec_frees() == 0,
        ensures
            final(self).spec_frees() == 0,
            final(self).spec_copied() matches Some(c) && city_info_matches_record(c, raw),
            final(self).wf(),
    {
        self.copied = Some(CityInfo::from_raw_record(raw));
    }

    /// Records that the native release routine ran on the record.  It may
    /// run only after the copy, and only once.
    pub fn record_freed(&mut self)
        requires
            old(self).spec_copied() is Some,
            old(self).spec_frees() == 0,
        ensures
            final(self).spec_copied() == old(self).spec_copied(),
            final(self).spec_frees() == 1,
            final(self).wf(),
    {
        self.frees = 1;
    }

    /// Hands the owned result out.  A result leaves the lifecycle only
    /// once the native record was released exactly once.
    pub fn finish(self) -> (c: CityInfo)
        requires
            self.spec_copied() is Some,
            self.spec_frees() == 1,
        ensures
            Some(c) == self.spec_copied(),
    {
        match self.copied {
            Some(c) => c,
            None => vstd::pervasive::unreached(),
        }
    }
}

/// Observational equality of two owned results: every field agrees, text
/// fields by their character sequences.
pub open spec fn city_info_view_eq(a: CityInfo, b: CityInfo) -> bool {
    &&& opt_string_view(a.country_code) == opt_string_view(b.country_code)
    &&& opt_string_view(a.country_code3) == opt_string_view(b.country_code3)
    &&& opt_string_view(a.country_name) == opt_string_view(b.country_name)
    &&& opt_string_view(a.region) == opt_string_view(b.region)
    &&& opt_string_view(a.city) == opt_string_view(b.city)
    &&& opt_string_view(a.postal_code) == opt_string_view(b.postal_code)
    &&& a.latitude_bits == b.latitude_bits
    &&& a.longitude_bits == b.longitude_bits
    &&& a.dma_code == b.dma_code
    &&& a.area_code == b.area_code
    &&& opt_string_view(a.continent_code) == opt_string_view(b.continent_code)
    &&& a.netmask == b.netmask
}

/// Decoding is a function of the native record alone: two results copied
/// from the same record image agree on every field.  Repeated queries
/// answered by the engine with the same record therefore decode to equal
/// results.
pub proof fn lemma_decode_functional(r: RawRecord, a: CityInfo, b: CityInfo)
    requires
        city_info_matches_record(a, r),
        city_info_matches_record(b, r),
    ensures
        city_info_view_eq(a, b),
{
}

/// Decides the result of one record lookup from the native call's
/// outcome: a null record means no data (not an error), and a present
/// record decodes field by field into an owned result.
pub fn record_lookup_outcome(raw: Option<RawRecord>) -> (r: Option<CityInfo>)
    ensures
        match (raw, r) {
            (None, None) => true,
            (Some(rec), Some(c)) => city_info_matches_record(c, rec),
            _ => false,
        },
{
    match raw {
        None => None,
        Some(rec) => Some(CityInfo::from_raw_record(rec)),
    }
}

/// Decides the result of a name lookup from the two native entry points:
/// the IPv6-capable lookup is attempted first, and the IPv4 lookup only
/// serves as fallback when the first yielded no record.
pub fn name_lookup_outcome(primary: Option<RawRecord>, fallback: Option<RawRecord>) -> (r: Option<
    CityInfo,
>)
    ensures
        primary is Some ==> (r matches Some(c) && city_info_matches_record(c, primary->0)),
        primary is None && fallback is Some ==> (r matches Some(c) && city_info_matches_record(
            c,
            fallback->0,
        )),
        primary is None && fallback is None ==> r is None,
{
    match primary {
        Some(rec) => Some(CityInfo::from_raw_record(rec)),
        None => record_lookup_outcome(fallback),
    }
}

} // verus!
