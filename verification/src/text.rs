//! Decoding of native text buffers and numeric tokens.
//!
//! The native engine hands text back as nullable byte buffers.  A null
//! buffer decodes to absent; a present buffer decodes to text when its
//! bytes are valid UTF-8 and to absent otherwise (a silent-loss policy
//! carried over from the native layer).  Going the other way, byte strings
//! handed to the engine must contain no zero byte and end in one.

use vstd::prelude::*;
use vstd::utf8::{decode_utf8, valid_utf8};

verus! {

/// Relies on `str::from_utf8`: it returns `Ok` exactly when the bytes
/// are valid UTF-8, and then the string holds the characters that the
/// UTF-8 scheme (as `vstd::utf8` specifies it) assigns to those bytes.
#[verifier::external_body]
pub(crate) fn utf8_to_string(bytes: &[u8]) -> (r: Option<String>)
    ensures
        r is Some <==> valid_utf8(bytes@),
        r matches Some(s) ==> s@ == decode_utf8(bytes@),
{
    std::str::from_utf8(bytes).ok().map(str::to_string)
}

/// The characters that a lossy text conversion assigns to a byte
/// sequence: a function of the bytes alone.
pub uninterp spec fn lossy_utf8(b: Seq<u8>) -> Seq<char>;

/// Relies on `String::from_utf8_lossy`: the result depends on the bytes
/// alone, and bytes that are valid UTF-8 convert without loss to exactly
/// their UTF-8 characters.
#[verifier::external_body]
pub(crate) fn utf8_lossy(bytes: &[u8]) -> (r: String)
    ensures
        r@ == lossy_utf8(bytes@),
        valid_utf8(bytes@) ==> r@ == decode_utf8(bytes@),
{
    String::from_utf8_lossy(bytes).into_owned()
}

/// Relies on `String::push`: it appends the one character and changes
/// nothing else.
#[verifier::external_body]
pub(crate) fn push_char(s: &mut String, c: char)
    ensures
        final(s)@ == old(s)@.push(c),
{
    s.push(c);
}

/// The character of one decimal digit value.
pub open spec fn digit_char(d: int) -> char
    recommends
        0 <= d <= 9,
{
    ((0x30 + d) as u32) as char
}

/// The decimal digit characters of a non-negative number, most
/// significant digit first, with no leading zero except for zero itself.
pub open spec fn spec_decimal_digits(n: int) -> Seq<char>
    recommends
        n >= 0,
    decreases n,
{
    if n < 10 {
        seq![digit_char(n)]
    } else {
        spec_decimal_digits(n / 10).push(digit_char(n % 10))
    }
}

/// Writing a number as decimal digit characters and reading the digits
/// back as a base-ten number gives the number: the decimal writer and
/// the decimal reader agree.
pub proof fn lemma_decimal_round_trip(n: int)
    requires
        n >= 0,
    ensures
        all_digits(spec_decimal_digits(n)),
        decimal_value(spec_decimal_digits(n)) == n,
    decreases n,
{
    if n < 10 {
        let s = spec_decimal_digits(n);
        assert(s.len() == 1 && s[0] == digit_char(n));
        assert(is_ascii_digit(digit_char(n)));
        assert(s.drop_last() =~= Seq::<char>::empty());
        assert(decimal_value(s.drop_last()) == 0);
        assert(s.last() == digit_char(n));
        assert(digit_value(digit_char(n)) == n);
    } else {
        lemma_decimal_round_trip(n / 10);
        let s = spec_decimal_digits(n);
        let p = spec_decimal_digits(n / 10);
        assert(s.drop_last() =~= p);
        assert(s.last() == digit_char(n % 10));
        assert(is_ascii_digit(digit_char(n % 10)));
        assert forall|i: int| 0 <= i < s.len() implies is_ascii_digit(#[trigger] s[i]) by {
            if i < p.len() {
                assert(s[i] == p[i]);
            } else {
                assert(s[i] == digit_char(n % 10));
            }
        }
        assert(digit_value(digit_char(n % 10)) == n % 10);
        assert(decimal_value(s) == decimal_value(p) * 10 + n % 10);
        assert((n / 10) * 10 + n % 10 == n);
    }
}

/// Writes a number as its decimal digit characters.
pub fn format_usize(n: usize) -> (r: String)
    ensures
        r@ == spec_decimal_digits(n as int),
    decreases n,
{
    if n < 10 {
        let mut s = String::new();
        push_char(&mut s, (0x30u8 + n as u8) as char);
        proof {
            assert(s@ =~= seq![digit_char(n as int)]);
        }
        s
    } else {
        let mut s = format_usize(n / 10);
        push_char(&mut s, (0x30u8 + (n % 10) as u8) as char);
        s
    }
}

/// The byte sequences of an optional byte buffer.
pub open spec fn opt_bytes_view(b: Option<Vec<u8>>) -> Option<Seq<u8>> {
    match b {
        None => None,
        Some(v) => Some(v@),
    }
}

/// The character sequences of an optional owned string.
pub open spec fn opt_string_view(s: Option<String>) -> Option<Seq<char>> {
    match s {
        None => None,
        Some(v) => Some(v@),
    }
}

/// What an optional native text field decodes to: `None` models a null
/// buffer; a present buffer yields its decoded characters when it is
/// valid UTF-8 and absent otherwise.
pub open spec fn spec_maybe_string(b: Option<Seq<u8>>) -> Option<Seq<char>> {
    match b {
        None => None,
        Some(bytes) => if valid_utf8(bytes) {
            Some(decode_utf8(bytes))
        } else {
            None
        },
    }
}

/// Decodes an optional native text buffer: absent stays absent, and bytes
/// that are not valid UTF-8 degrade silently to absent.
pub fn maybe_string(bytes: Option<Vec<u8>>) -> (r: Option<String>)
    ensures
        opt_string_view(r) == spec_maybe_string(opt_bytes_view(bytes)),
{
    match &bytes {
        None => None,
        Some(b) => utf8_to_string(b.as_slice()),
    }
}

/// True of the ten ASCII decimal digit characters.
pub open spec fn is_ascii_digit(c: char) -> bool {
    0x30 <= c as u32 <= 0x39
}

/// The numeric value of one ASCII decimal digit character.
pub open spec fn digit_value(c: char) -> int
    recommends
        is_ascii_digit(c),
{
    c as u32 - 0x30
}

/// True when every character of the sequence is an ASCII decimal digit.
pub open spec fn all_digits(s: Seq<char>) -> bool {
    forall|i: int| 0 <= i < s.len() ==> is_ascii_digit(#[trigger] s[i])
}

/// The value of a sequence of ASCII decimal digit characters read as one
/// base-ten number, most significant digit first.
pub open spec fn decimal_value(s: Seq<char>) -> int
    recommends
        all_digits(s),
    decreases s.len(),
{
    if s.len() == 0 {
        0
    } else {
        decimal_value(s.drop_last()) * 10 + digit_value(s.last())
    }
}

/// A digit string's value is never negative.
pub proof fn lemma_decimal_value_nonneg(s: Seq<char>)
    requires
        all_digits(s),
    ensures
        decimal_value(s) >= 0,
    decreases s.len(),
{
    if s.len() > 0 {
        assert(all_digits(s.drop_last()));
        lemma_decimal_value_nonneg(s.drop_last());
    }
}

/// Reading more digits never shrinks the value: any prefix of a digit
/// string reads as at most the whole string's value.
pub proof fn lemma_decimal_value_prefix_le(s: Seq<char>, i: int)
    requires
        all_digits(s),
        0 <= i <= s.len(),
    ensures
        decimal_value(s.subrange(0, i)) <= decimal_value(s),
    decreases s.len() - i,
{
    if i < s.len() {
        let longer = s.subrange(0, i + 1);
        assert(longer.drop_last() =~= s.subrange(0, i));
        assert(all_digits(longer.drop_last()));
        lemma_decimal_value_nonneg(longer.drop_last());
        assert(decimal_value(s.subrange(0, i)) <= decimal_value(longer));
        lemma_decimal_value_prefix_le(s, i + 1);
        assert(s.subrange(0, s.len() as int) =~= s);
    } else {
        assert(s.subrange(0, i) =~= s);
    }
}

/// Parses a string of ASCII decimal digits as a 32-bit number.  Succeeds
/// exactly when the string is nonempty, holds only digits, and its value
/// fits; the result is then that value.
pub fn parse_u32_digits(s: &str) -> (r: Option<u32>)
    ensures
        r is Some <==> s@.len() > 0 && all_digits(s@) && decimal_value(s@) <= u32::MAX,
        r matches Some(v) ==> v == decimal_value(s@),
{
    let n = s.unicode_len();
    if n == 0 {
        return None;
    }
    let mut acc: u32 = 0;
    let mut i: usize = 0;
    while i < n
        invariant
            0 <= i <= n,
            n == s@.len(),
            all_digits(s@.subrange(0, i as int)),
            acc == decimal_value(s@.subrange(0, i as int)),
        decreases n - i,
    {
        let c = s.get_char(i);
        let u = c as u32;
        if u < 0x30 || u > 0x39 {
            assert(!is_ascii_digit(s@[i as int]));
            return None;
        }
        let d = u - 0x30;
        proof {
            assert(s@.subrange(0, i + 1).drop_last() =~= s@.subrange(0, i as int));
            assert(all_digits(s@.subrange(0, i + 1)));
        }
        let widened = match acc.checked_mul(10) {
            Some(w) => w,
            None => {
                proof {
                    overflow_means_no_parse(s@, i as int, acc as int * 10 + d);
                }
                return None;
            },
        };
        acc = match widened.checked_add(d) {
            Some(a) => a,
            None => {
                proof {
                    overflow_means_no_parse(s@, i as int, acc as int * 10 + d);
                }
                return None;
            },
        };
        i = i + 1;
    }
    proof {
        assert(s@.subrange(0, n as int) =~= s@);
    }
    Some(acc)
}

/// When the running value has already outgrown `u32` at some digit, the
/// whole string cannot parse within `u32` either.
proof fn overflow_means_no_parse(s: Seq<char>, i: int, grown: int)
    requires
        0 <= i < s.len(),
        all_digits(s.subrange(0, i + 1)),
        grown == decimal_value(s.subrange(0, i)) * 10 + digit_value(s[i]),
        grown > u32::MAX,
    ensures
        !(all_digits(s) && decimal_value(s) <= u32::MAX),
{
    if all_digits(s) {
        assert(s.subrange(0, i + 1).drop_last() =~= s.subrange(0, i));
        assert(s.subrange(0, i + 1).last() == s[i]);
        assert(decimal_value(s.subrange(0, i + 1)) == grown);
        lemma_decimal_value_prefix_le(s, i + 1);
    }
}

/// Encodes a byte string for a native call that takes a C string: fails
/// with the position of the first zero byte if one is embedded, and
/// otherwise appends the terminating zero byte.
pub fn to_c_bytes(data: &[u8]) -> (r: Result<Vec<u8>, usize>)
    ensures
        match r {
            Ok(v) => !data@.contains(0) && v@ == data@.push(0),
            Err(i) => data@.index_of_first(0) == Some(i as int),
        },
{
    let n = data.len();
    let mut i: usize = 0;
    while i < n
        invariant
            0 <= i <= n,
            n == data@.len(),
            forall|j: int| 0 <= j < i ==> data@[j] != 0,
        decreases n - i,
    {
        if data[i] == 0 {
            proof {
                data@.index_of_first_ensures(0u8);
                match data@.index_of_first(0) {
                    Some(idx) => {
                        if idx < i {
                            assert(data@[idx] != 0);
                        }
                        if i < idx {
                            assert(data@[i as int] != 0);
                        }
                    },
                    None => {
                        assert(!data@.contains(0));
                        assert(data@[i as int] == 0);
                    },
                }
            }
            return Err(i);
        }
        i = i + 1;
    }
    let mut v = vstd::slice::slice_to_vec(data);
    v.push(0);
    proof {
        if data@.contains(0) {
            let w = choose|k: int| 0 <= k < data@.len() && data@[k] == 0;
            assert(data@[w] != 0);
        }
    }
    Ok(v)
}

} // verus!
