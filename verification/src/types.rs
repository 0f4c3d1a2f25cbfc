//! The closed enumerations the native engine is driven with, and the
//! fixed small-integer codes its entry points expect for each of them.
//!
//! The codes are part of the engine's C-level contract and must be
//! preserved bit for bit; each enumeration therefore carries one function
//! from variant to code with an exact contract.

use vstd::prelude::*;

verus! {

/// The text encoding a database handle is configured with right after a
/// successful open.
#[derive(Clone, Copy, Debug, PartialEq, Eq, Structural)]
pub enum Charset {
    Utf8,
}

/// The native code of a charset.
pub open spec fn spec_charset_code(c: Charset) -> int {
    match c {
        Charset::Utf8 => 1,
    }
}

impl Charset {
    /// The code the native charset-configuration call expects.
    pub fn code(&self) -> (r: i32)
        ensures
            r == spec_charset_code(*self),
    {
        match self {
            Charset::Utf8 => 1,
        }
    }
}

/// The mutually exclusive cache strategy passed through unmodified to the
/// native open calls.
#[derive(Clone, Copy, Debug, PartialEq, Eq, Structural)]
pub enum Options {
    Standard,
    MemoryCache,
    CheckCache,
    IndexCache,
    MmapCache,
}

/// The native flag value of a cache strategy.
pub open spec fn spec_options_code(o: Options) -> int {
    match o {
        Options::Standard => 0,
        Options::MemoryCache => 1,
        Options::CheckCache => 2,
        Options::IndexCache => 4,
        Options::MmapCache => 8,
    }
}

impl Options {
    /// The flag value the native open calls expect.
    pub fn code(&self) -> (r: i32)
        ensures
            r == spec_options_code(*self),
    {
        match self {
            Options::Standard => 0,
            Options::MemoryCache => 1,
            Options::CheckCache => 2,
            Options::IndexCache => 4,
            Options::MmapCache => 8,
        }
    }
}

/// The closed enumeration of database editions the engine can open by
/// type, each bound to a fixed edition identifier of the native library.
#[derive(Clone, Copy, Debug, PartialEq, Eq, Structural)]
pub enum DBType {
    CountryEdition,
    RegionEditionRev0,
    CityEditionRev0,
    ORGEdition,
    ISPEdition,
    CityEditionRev1,
    RegionEditionRev1,
    ProxyEdition,
    ASNUMEdition,
    NetSpeedEdition,
    DomainEdition,
    CountryEditionV6,
    LocationAEdition,
    AccuracyRadiusEdition,
    LargeCountryEdition,
    LargeCountryEditionV6,
    ASNumEditionV6,
    ISPEditionV6,
    ORGEditionV6,
    DomainEditionV6,
    LoctionAEditionV6,
    RegistrarEdition,
    RegistrarEditionV6,
    UserTypeEdition,
    UserTypeEditionV6,
    CityEditionRev1V6,
    CityEditionRev0V6,
    NetSpeedEditionRev1,
    NetSpeedEditionRev1V6,
    CountryConfEdition,
    CityConfEdition,
    RegionConfEdition,
    PostalConfEdition,
    AccuracyRadiusEditionV6,
}

/// The fixed edition identifier of each database type, as the native
/// library defines it.
pub open spec fn spec_db_type_code(t: DBType) -> int {
    match t {
        DBType::CountryEdition => 1,
        DBType::RegionEditionRev0 => 7,
        DBType::CityEditionRev0 => 6,
        DBType::ORGEdition => 5,
        DBType::ISPEdition => 4,
        DBType::CityEditionRev1 => 2,
        DBType::RegionEditionRev1 => 3,
        DBType::ProxyEdition => 8,
        DBType::ASNUMEdition => 9,
        DBType::NetSpeedEdition => 10,
        DBType::DomainEdition => 11,
        DBType::CountryEditionV6 => 12,
        DBType::LocationAEdition => 13,
        DBType::AccuracyRadiusEdition => 14,
        DBType::LargeCountryEdition => 17,
        DBType::LargeCountryEditionV6 => 18,
        DBType::ASNumEditionV6 => 21,
        DBType::ISPEditionV6 => 22,
        DBType::ORGEditionV6 => 23,
        DBType::DomainEditionV6 => 24,
        DBType::LoctionAEditionV6 => 25,
        DBType::RegistrarEdition => 26,
        DBType::RegistrarEditionV6 => 27,
        DBType::UserTypeEdition => 28,
        DBType::UserTypeEditionV6 => 29,
        DBType::CityEditionRev1V6 => 30,
        DBType::CityEditionRev0V6 => 31,
        DBType::NetSpeedEditionRev1 => 32,
        DBType::NetSpeedEditionRev1V6 => 33,
        DBType::CountryConfEdition => 34,
        DBType::CityConfEdition => 35,
        DBType::RegionConfEdition => 36,
        DBType::PostalConfEdition => 37,
        DBType::AccuracyRadiusEditionV6 => 38,
    }
}

/// The name of each database type, as it reads in diagnostics.
pub open spec fn spec_db_type_name(t: DBType) -> Seq<char> {
    match t {
        DBType::CountryEdition => "CountryEdition"@,
        DBType::RegionEditionRev0 => "RegionEditionRev0"@,
        DBType::CityEditionRev0 => "CityEditionRev0"@,
        DBType::ORGEdition => "ORGEdition"@,
        DBType::ISPEdition => "ISPEdition"@,
        DBType::CityEditionRev1 => "CityEditionRev1"@,
        DBType::RegionEditionRev1 => "RegionEditionRev1"@,
        DBType::ProxyEdition => "ProxyEdition"@,
        DBType::ASNUMEdition => "ASNUMEdition"@,
        DBType::NetSpeedEdition => "NetSpeedEdition"@,
        DBType::DomainEdition => "DomainEdition"@,
        DBType::CountryEditionV6 => "CountryEditionV6"@,
        DBType::LocationAEdition => "LocationAEdition"@,
        DBType::AccuracyRadiusEdition => "AccuracyRadiusEdition"@,
        DBType::LargeCountryEdition => "LargeCountryEdition"@,
        DBType::LargeCountryEditionV6 => "LargeCountryEditionV6"@,
        DBType::ASNumEditionV6 => "ASNumEditionV6"@,
        DBType::ISPEditionV6 => "ISPEditionV6"@,
        DBType::ORGEditionV6 => "ORGEditionV6"@,
        DBType::DomainEditionV6 => "DomainEditionV6"@,
        DBType::LoctionAEditionV6 => "LoctionAEditionV6"@,
        DBType::RegistrarEdition => "RegistrarEdition"@,
        DBType::RegistrarEditionV6 => "RegistrarEditionV6"@,
        DBType::UserTypeEdition => "UserTypeEdition"@,
        DBType::UserTypeEditionV6 => "UserTypeEditionV6"@,
        DBType::CityEditionRev1V6 => "CityEditionRev1V6"@,
        DBType::CityEditionRev0V6 => "CityEditionRev0V6"@,
        DBType::NetSpeedEditionRev1 => "NetSpeedEditionRev1"@,
        DBType::NetSpeedEditionRev1V6 => "NetSpeedEditionRev1V6"@,
        DBType::CountryConfEdition => "CountryConfEdition"@,
        DBType::CityConfEdition => "CityConfEdition"@,
        DBType::RegionConfEdition => "RegionConfEdition"@,
        DBType::PostalConfEdition => "PostalConfEdition"@,
        DBType::AccuracyRadiusEditionV6 => "AccuracyRadiusEditionV6"@,
    }
}

impl DBType {
    /// The name of the database type, as it reads in diagnostics.
    pub fn name(&self) -> (r: &'static str)
        ensures
            r@ == spec_db_type_name(*self),
    {
        match self {
            DBType::CountryEdition => "CountryEdition",
            DBType::RegionEditionRev0 => "RegionEditionRev0",
            DBType::CityEditionRev0 => "CityEditionRev0",
            DBType::ORGEdition => "ORGEdition",
            DBType::ISPEdition => "ISPEdition",
            DBType::CityEditionRev1 => "CityEditionRev1",
            DBType::RegionEditionRev1 => "RegionEditionRev1",
            DBType::ProxyEdition => "ProxyEdition",
            DBType::ASNUMEdition => "ASNUMEdition",
            DBType::NetSpeedEdition => "NetSpeedEdition",
            DBType::DomainEdition => "DomainEdition",
            DBType::CountryEditionV6 => "CountryEditionV6",
            DBType::LocationAEdition => "LocationAEdition",
            DBType::AccuracyRadiusEdition => "AccuracyRadiusEdition",
            DBType::LargeCountryEdition => "LargeCountryEdition",
            DBType::LargeCountryEditionV6 => "LargeCountryEditionV6",
            DBType::ASNumEditionV6 => "ASNumEditionV6",
            DBType::ISPEditionV6 => "ISPEditionV6",
            DBType::ORGEditionV6 => "ORGEditionV6",
            DBType::DomainEditionV6 => "DomainEditionV6",
            DBType::LoctionAEditionV6 => "LoctionAEditionV6",
            DBType::RegistrarEdition => "RegistrarEdition",
            DBType::RegistrarEditionV6 => "RegistrarEditionV6",
            DBType::UserTypeEdition => "UserTypeEdition",
            DBType::UserTypeEditionV6 => "UserTypeEditionV6",
            DBType::CityEditionRev1V6 => "CityEditionRev1V6",
            DBType::CityEditionRev0V6 => "CityEditionRev0V6",
            DBType::NetSpeedEditionRev1 => "NetSpeedEditionRev1",
            DBType::NetSpeedEditionRev1V6 => "NetSpeedEditionRev1V6",
            DBType::CountryConfEdition => "CountryConfEdition",
            DBType::CityConfEdition => "CityConfEdition",
            DBType::RegionConfEdition => "RegionConfEdition",
            DBType::PostalConfEdition => "PostalConfEdition",
            DBType::AccuracyRadiusEditionV6 => "AccuracyRadiusEditionV6",
        }
    }

    /// The edition identifier the native open-by-type call expects.
    pub fn code(&self) -> (r: i32)
        ensures
            r == spec_db_type_code(*self),
    {
        match self {
            DBType::CountryEdition => 1,
            DBType::RegionEditionRev0 => 7,
            DBType::CityEditionRev0 => 6,
            DBType::ORGEdition => 5,
            DBType::ISPEdition => 4,
            DBType::CityEditionRev1 => 2,
            DBType::RegionEditionRev1 => 3,
            DBType::ProxyEdition => 8,
            DBType::ASNUMEdition => 9,
            DBType::NetSpeedEdition => 10,
            DBType::DomainEdition => 11,
            DBType::CountryEditionV6 => 12,
            DBType::LocationAEdition => 13,
            DBType::AccuracyRadiusEdition => 14,
            DBType::LargeCountryEdition => 17,
            DBType::LargeCountryEditionV6 => 18,
            DBType::ASNumEditionV6 => 21,
            DBType::ISPEditionV6 => 22,
            DBType::ORGEditionV6 => 23,
            DBType::DomainEditionV6 => 24,
            DBType::LoctionAEditionV6 => 25,
            DBType::RegistrarEdition => 26,
            DBType::RegistrarEditionV6 => 27,
            DBType::UserTypeEdition => 28,
            DBType::UserTypeEditionV6 => 29,
            DBType::CityEditionRev1V6 => 30,
            DBType::CityEditionRev0V6 => 31,
            DBType::NetSpeedEditionRev1 => 32,
            DBType::NetSpeedEditionRev1V6 => 33,
            DBType::CountryConfEdition => 34,
            DBType::CityConfEdition => 35,
            DBType::RegionConfEdition => 36,
            DBType::PostalConfEdition => 37,
            DBType::AccuracyRadiusEditionV6 => 38,
        }
    }
}

} // verus!
