//! Parsing of the native engine's autonomous-system description strings.
//!
//! A network lookup hands back one free-text description of the form
//! `AS<number> <name>`.  The leading token up to the first space must
//! begin with `AS` followed by the decimal autonomous-system number; the
//! remainder after that first space is the organization name, with a
//! fixed placeholder when there is no space.  A description without the
//! prefix, or whose number does not parse as a non-negative 32-bit value,
//! is a failure of the whole lookup: the result is absent, never a
//! partial record.

use vstd::prelude::*;
use vstd::string::{StrSliceExecFns, StringExecFns};

use crate::text::{
    all_digits, decimal_value, maybe_string, opt_bytes_view, parse_u32_digits, spec_maybe_string,
};

verus! {

/// Network (autonomous-system) metadata for one matched address range.
#[derive(Clone, Debug)]
pub struct ASInfo {
    pub asn: u32,
    pub name: String,
    pub netmask: u32,
}

/// The length of a description's leading token: the number of characters
/// before the first space, or the whole length when no space occurs.
pub open spec fn token_len(s: Seq<char>) -> int
    decreases s.len(),
{
    if s.len() == 0 {
        0
    } else if s[0] == ' ' {
        0
    } else {
        1 + token_len(s.drop_first())
    }
}

/// The leading token is exactly the space-free prefix: no space occurs
/// inside it, and where it ends short of the string a space follows.
pub proof fn lemma_token_len(s: Seq<char>)
    ensures
        0 <= token_len(s) <= s.len(),
        forall|j: int| 0 <= j < token_len(s) ==> s[j] != ' ',
        token_len(s) < s.len() ==> s[token_len(s)] == ' ',
    decreases s.len(),
{
    if s.len() == 0 {
    } else if s[0] == ' ' {
    } else {
        let d = s.drop_first();
        lemma_token_len(d);
        assert forall|j: int| 0 <= j < token_len(s) implies s[j] != ' ' by {
            if j > 0 {
                assert(d[j - 1] == s[j]);
            }
        }
        if token_len(s) < s.len() {
            assert(d[token_len(d)] == s[token_len(s)]);
        }
    }
}

/// The leading token of a description.
pub open spec fn spec_as_token(s: Seq<char>) -> Seq<char> {
    s.subrange(0, token_len(s))
}

/// The digit characters of a description's leading token, after the
/// two-character prefix.
pub open spec fn spec_as_digits(s: Seq<char>) -> Seq<char>
    recommends
        token_len(s) >= 2,
{
    s.subrange(2, token_len(s))
}

/// The organization name of a description: everything after the first
/// space, or the fixed placeholder when no space occurs.
pub open spec fn spec_as_name(s: Seq<char>) -> Seq<char> {
    if token_len(s) < s.len() {
        s.subrange(token_len(s) + 1, s.len() as int)
    } else {
        "(none)"@
    }
}

/// True when a description parses: its leading token begins with the
/// autonomous-system prefix, at least one digit follows, every following
/// character of the token is a digit, and the digits' value fits in 32
/// bits.
pub open spec fn spec_description_parses(s: Seq<char>) -> bool {
    &&& token_len(s) > 2
    &&& s[0] == 'A'
    &&& s[1] == 'S'
    &&& all_digits(spec_as_digits(s))
    &&& decimal_value(spec_as_digits(s)) <= u32::MAX
}

/// The autonomous-system number a parseable description carries.
pub open spec fn spec_description_asn(s: Seq<char>) -> int
    recommends
        spec_description_parses(s),
{
    decimal_value(spec_as_digits(s))
}

/// A description whose leading token does not begin with the
/// autonomous-system prefix followed by at least one character never
/// parses: the lookup's result is absent, never a partial record.
pub proof fn lemma_no_prefix_no_parse(s: Seq<char>)
    requires
        !(token_len(s) > 2 && s[0] == 'A' && s[1] == 'S'),
    ensures
        !spec_description_parses(s),
{
}

/// Parses one autonomous-system description string.  Succeeds exactly
/// when the description parses, and then carries the number, the name
/// after the first space (or the placeholder), and the netmask value the
/// native lookup context reported.
pub fn parse_as_description(desc: &str, netmask: u32) -> (r: Option<ASInfo>)
    ensures
        r is Some <==> spec_description_parses(desc@),
        r matches Some(info) ==> ({
            &&& info.asn == spec_description_asn(desc@)
            &&& info.name@ == spec_as_name(desc@)
            &&& info.netmask == netmask
        }),
{
    let n = desc.unicode_len();
    let mut t: usize = 0;
    while t < n
        invariant
            t <= n,
            n == desc@.len(),
            forall|j: int| 0 <= j < t ==> desc@[j] != ' ',
        ensures
            t <= n,
            n == desc@.len(),
            forall|j: int| 0 <= j < t ==> desc@[j] != ' ',
            t < n ==> desc@[t as int] == ' ',
        decreases n - t,
    {
        if desc.get_char(t) == ' ' {
            break ;
        }
        t = t + 1;
    }
    proof {
        lemma_token_len(desc@);
        let l = token_len(desc@);
        if l < t {
            assert(desc@[l] != ' ');
        }
        if t < l {
            assert(desc@[t as int] != ' ');
        }
        assert(t == token_len(desc@));
    }
    if t <= 2 {
        return None;
    }
    if desc.get_char(0) != 'A' || desc.get_char(1) != 'S' {
        return None;
    }
    let digits = desc.substring_char(2, t);
    assert(digits@ == spec_as_digits(desc@));
    let asn = match parse_u32_digits(digits) {
        Some(v) => v,
        None => {
            return None;
        },
    };
    let name: String = if t < n {
        desc.substring_char(t + 1, n).to_owned()
    } else {
        String::from_str("(none)")
    };
    Some(ASInfo { asn, name, netmask })
}

/// Decides the result of a network-info lookup from the native call's
/// outcome: a null description means no data; a present one must decode
/// as text and parse as an autonomous-system description, and any failure
/// along the way makes the whole result absent.
pub fn network_info_outcome(raw: Option<Vec<u8>>, netmask: u32) -> (r: Option<ASInfo>)
    ensures
        match spec_maybe_string(opt_bytes_view(raw)) {
            None => r is None,
            Some(desc) => {
                &&& (r is Some <==> spec_description_parses(desc))
                &&& (r matches Some(info) ==> ({
                    &&& info.asn == spec_description_asn(desc)
                    &&& info.name@ == spec_as_name(desc)
                    &&& info.netmask == netmask
                }))
            },
        },
{
    match maybe_string(raw) {
        None => None,
        Some(desc) => parse_as_description(desc.as_str(), netmask),
    }
}

} // verus!
