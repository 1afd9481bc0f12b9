//! Validation of path and query parameters, before any resource is read.
use vstd::prelude::*;
use vstd::string::{StrSliceExecFns, StringExecFns};
use crate::error::{ErrorKind, ErrorModel, RestError};
use crate::text::{blank, chars_of, has_prefix, is_blank};

verus! {

/// The limit of a request that names none.
pub const DEFAULT_LIMIT: usize = 10;

/// `hex::FromHexError`, the reason why a text is no hexadecimal string.
#[verifier::external_type_specification]
#[verifier::external_body]
pub struct ExFromHexError(hex::FromHexError);

/// The character is a decimal digit.
pub open spec fn is_digit(c: char) -> bool {
    '0' <= c && c <= '9'
}

/// The number that a sequence of decimal digits denotes.
pub open spec fn digits_value(s: Seq<char>) -> nat
    decreases s.len(),
{
    if s.len() == 0 {
        0
    } else {
        digits_value(s.drop_last()) * 10 + ((s.last() as u32) - ('0' as u32)) as nat
    }
}

/// What follows the optional `+` of a literal.
pub open spec fn literal_digits(s: Seq<char>) -> Seq<char> {
    if s.len() > 0 && s[0] == '+' {
        s.drop_first()
    } else {
        s
    }
}

/// The number that an unsigned decimal literal denotes: an optional `+`,
/// then one digit or more and nothing else.
pub open spec fn literal_value(s: Seq<char>) -> Option<nat> {
    let digits = literal_digits(s);
    if digits.len() > 0 && (forall|i: int| 0 <= i < digits.len() ==> is_digit(#[trigger] digits[i])) {
        Some(digits_value(digits))
    } else {
        None
    }
}

/// The identifier that a text denotes: the value of an unsigned decimal
/// literal that fits in 64 bits.
pub open spec fn identifier_of(s: Seq<char>) -> Option<u64> {
    match literal_value(s) {
        Some(n) => if n <= u64::MAX {
            Some(n as u64)
        } else {
            None
        },
        None => None,
    }
}

/// The character is a hexadecimal digit, in either case.
pub open spec fn is_hex_digit(c: char) -> bool {
    ('0' <= c && c <= '9') || ('a' <= c && c <= 'f') || ('A' <= c && c <= 'F')
}

/// The number from 0 to 15 that a hexadecimal digit denotes.
pub open spec fn hex_digit_value(c: char) -> int {
    if '0' <= c && c <= '9' {
        (c as u32) - ('0' as u32)
    } else if 'a' <= c && c <= 'f' {
        (c as u32) - ('a' as u32) + 10
    } else {
        (c as u32) - ('A' as u32) + 10
    }
}

/// The text is a hexadecimal string: an even number of hexadecimal digits.
pub open spec fn is_hex_text(s: Seq<char>) -> bool {
    &&& s.len() % 2 == 0
    &&& forall|i: int| 0 <= i < s.len() ==> is_hex_digit(#[trigger] s[i])
}

/// The bytes that a hexadecimal string denotes, two digits for each.
pub open spec fn hex_bytes(s: Seq<char>) -> Seq<u8> {
    Seq::new(
        s.len() / 2,
        |i: int| (hex_digit_value(s[2 * i]) * 16 + hex_digit_value(s[2 * i + 1])) as u8,
    )
}

/// The text without one leading `0x`, where it has one.
pub open spec fn without_prefix(s: Seq<char>) -> Seq<char> {
    if has_prefix(s, "0x"@) {
        s.subrange(2, s.len() as int)
    } else {
        s
    }
}

/// The bytes that a hash or an address in text form denotes: those of the
/// hexadecimal string that is left without the prefix `0x`, where that is
/// one and is not empty.
pub open spec fn bytes_of(s: Seq<char>) -> Option<Seq<u8>> {
    let digits = without_prefix(s);
    if digits.len() > 0 && is_hex_text(digits) {
        Some(hex_bytes(digits))
    } else {
        None
    }
}

/// The limit in force for a request: 10 where none is asked for, nothing
/// where 0 is asked for, else the limit asked for, cut down to the
/// server's maximum, which counts as 1 where it is 0.
pub open spec fn limit_in_force(limit: Option<usize>, max_limit: usize) -> Option<usize> {
    let asked = match limit {
        Some(value) => value,
        None => DEFAULT_LIMIT,
    };
    let ceiling = if max_limit >= 1 {
        max_limit
    } else {
        1
    };
    if asked == 0 {
        None
    } else if asked <= ceiling {
        Some(asked)
    } else {
        Some(ceiling)
    }
}

/// The time range is in order: where both ends are present, the start is
/// not after the end.
pub open spec fn range_in_order(start_time: Option<u64>, end_time: Option<u64>) -> bool {
    match (start_time, end_time) {
        (Some(start), Some(end)) => start <= end,
        _ => true,
    }
}

/// The model of a refusal of the caller's input with the given message.
pub open spec fn refusal(message: Seq<char>) -> ErrorModel {
    ErrorModel { kind: ErrorKind::InvalidParams, message }
}

/// The refusal of a text that denotes no identifier.
pub open spec fn fid_refusal(fid: Seq<char>) -> ErrorModel {
    refusal("Invalid fid: "@ + fid)
}

/// The message with which a text is refused as a hash: one for a text of
/// which nothing is left without the prefix, one for any other.
pub open spec fn hash_message(hash: Seq<char>) -> Seq<char> {
    if without_prefix(hash).len() == 0 {
        "Missing hash value"@
    } else {
        "Invalid hash format: "@ + hash
    }
}

/// The message with which a text is refused as an address.
pub open spec fn address_message(address: Seq<char>) -> Seq<char> {
    if without_prefix(address).len() == 0 {
        "Invalid address format: empty address"@
    } else {
        "Invalid address format: "@ + address
    }
}

/// The digits up to a position denote the number that the digits before
/// them denote, times ten, plus the last digit.
proof fn lemma_digits_step(s: Seq<char>, from: int, to: int)
    requires
        0 <= from <= to < s.len(),
    ensures
        digits_value(s.subrange(from, to + 1)) == digits_value(s.subrange(from, to)) * 10 + ((
        s[to] as u32) - ('0' as u32)) as nat,
{
    let longer = s.subrange(from, to + 1);
    assert(longer.drop_last() =~= s.subrange(from, to));
    assert(longer.last() == s[to]);
}

/// A sequence of digits denotes no less than any of its beginnings.
proof fn lemma_digits_grow(s: Seq<char>, k: int)
    requires
        0 <= k <= s.len(),
        forall|i: int| 0 <= i < s.len() ==> is_digit(#[trigger] s[i]),
    ensures
        digits_value(s.subrange(0, k)) <= digits_value(s),
    decreases s.len() - k,
{
    if k == s.len() {
        assert(s.subrange(0, k) =~= s);
    } else {
        assert(s.drop_last().subrange(0, k) =~= s.subrange(0, k));
        lemma_digits_grow(s.drop_last(), k);
        assert(is_digit(s.last()));
    }
}

/// Reads an unsigned decimal literal that fits in 64 bits: an optional
/// `+`, then one digit or more and nothing else.
pub fn parse_u64(input: &str) -> (r: Option<u64>)
    ensures
        r == identifier_of(input@),
{
    let chars = chars_of(input);
    let mut start: usize = 0;
    if chars.len() > 0 && chars[0] == '+' {
        start = 1;
    }
    let ghost digits = literal_digits(input@);
    proof {
        if start == 1 {
            assert(digits =~= chars@.subrange(1, chars.len() as int));
        } else {
            assert(digits =~= chars@.subrange(0, chars.len() as int));
        }
    }
    if start == chars.len() {
        return None;
    }
    let mut value: u64 = 0;
    let mut i: usize = start;
    assert(chars@.subrange(start as int, start as int) =~= Seq::<char>::empty());
    while i < chars.len()
        invariant
            start <= i <= chars.len(),
            start < chars.len(),
            chars@ == input@,
            digits == literal_digits(input@),
            digits == chars@.subrange(start as int, chars.len() as int),
            forall|j: int| start <= j < i ==> is_digit(#[trigger] chars@[j]),
            value == digits_value(chars@.subrange(start as int, i as int)),
        decreases chars.len() - i,
    {
        let c = chars[i];
        if c < '0' || c > '9' {
            assert(!is_digit(digits[i - start]));
            return None;
        }
        let code: u8 = c as u8;
        let digit: u64 = (code - 48) as u64;
        proof {
            lemma_digits_step(chars@, start as int, i as int);
        }
        if value > (u64::MAX - digit) / 10 {
            proof {
                if forall|j: int| 0 <= j < digits.len() ==> is_digit(#[trigger] digits[j]) {
                    lemma_digits_grow(digits, i + 1 - start);
                    assert(digits.subrange(0, i + 1 - start) =~= chars@.subrange(
                        start as int,
                        i + 1,
                    ));
                }
            }
            return None;
        }
        value = value * 10 + digit;
        i = i + 1;
    }
    proof {
        assert forall|j: int| 0 <= j < digits.len() implies is_digit(#[trigger] digits[j]) by {
            assert(is_digit(chars@[j + start]));
        }
    }
    Some(value)
}

/// Calls `hex::decode`, which succeeds on an even number of hexadecimal
/// digits of either case and gives one byte for each two digits, the first
/// digit being the upper half of the byte.
#[verifier::external_body]
fn decode_hex(digits: &str) -> (r: Result<Vec<u8>, hex::FromHexError>)
    ensures
        r is Ok <==> is_hex_text(digits@),
        r matches Ok(bytes) ==> bytes@ == hex_bytes(digits@),
{
    hex::decode(digits)
}

/// The text without one leading `0x`, where it has one.
fn strip_prefix(input: &str) -> (digits: &str)
    ensures
        digits@ == without_prefix(input@),
{
    proof {
        reveal_strlit("0x");
    }
    let n = input.unicode_len();
    if n >= 2 && input.get_char(0) == '0' && input.get_char(1) == 'x' {
        assert(input@.subrange(0, 2) =~= "0x"@);
        input.substring_char(2, n)
    } else {
        assert(!has_prefix(input@, "0x"@)) by {
            if has_prefix(input@, "0x"@) {
                assert(input@.subrange(0, 2)[0] == '0');
                assert(input@.subrange(0, 2)[1] == 'x');
            }
        }
        input
    }
}

/// Reads a numeric identifier. The error names the input.
pub fn parse_fid(input: &str) -> (r: Result<u64, RestError>)
    ensures
        match r {
            Ok(fid) => identifier_of(input@) == Some(fid),
            Err(e) => identifier_of(input@) is None && e@ == fid_refusal(input@),
        },
{
    match parse_u64(input) {
        Some(fid) => Ok(fid),
        None => Err(RestError::InvalidParams(String::from_str("Invalid fid: ").concat(input))),
    }
}

/// Reads a hash in text form as bytes. One leading `0x` is left out; what
/// remains must be a hexadecimal string and not empty.
pub fn parse_hash_bytes(hash: &str) -> (r: Result<Vec<u8>, String>)
    ensures
        match r {
            Ok(bytes) => bytes_of(hash@) == Some(bytes@),
            Err(message) => bytes_of(hash@) is None && message@ == hash_message(hash@),
        },
{
    let digits = strip_prefix(hash);
    if digits.unicode_len() == 0 {
        return Err(String::from_str("Missing hash value"));
    }
    match decode_hex(digits) {
        Ok(bytes) => Ok(bytes),
        Err(_) => Err(String::from_str("Invalid hash format: ").concat(hash)),
    }
}

/// Reads an address in text form as bytes. One leading `0x` is left out;
/// what remains must be a hexadecimal string and not empty.
pub fn parse_address_bytes(address: &str) -> (r: Result<Vec<u8>, String>)
    ensures
        match r {
            Ok(bytes) => bytes_of(address@) == Some(bytes@),
            Err(message) => bytes_of(address@) is None && message@ == address_message(address@),
        },
{
    let digits = strip_prefix(address);
    if digits.unicode_len() == 0 {
        return Err(String::from_str("Invalid address format: empty address"));
    }
    match decode_hex(digits) {
        Ok(bytes) => Ok(bytes),
        Err(_) => Err(String::from_str("Invalid address format: ").concat(address)),
    }
}

/// Checks that a text is a hash. The error carries the message of
/// [`parse_hash_bytes`].
pub fn validate_hash(input: &str) -> (r: Result<(), RestError>)
    ensures
        match r {
            Ok(_) => bytes_of(input@) is Some,
            Err(e) => bytes_of(input@) is None && e@ == refusal(hash_message(input@)),
        },
{
    match parse_hash_bytes(input) {
        Ok(_) => Ok(()),
        Err(message) => Err(RestError::InvalidParams(message)),
    }
}

/// Checks that a text is an address. The error carries the message of
/// [`parse_address_bytes`].
pub fn validate_address(input: &str) -> (r: Result<(), RestError>)
    ensures
        match r {
            Ok(_) => bytes_of(input@) is Some,
            Err(e) => bytes_of(input@) is None && e@ == refusal(address_message(input@)),
        },
{
    match parse_address_bytes(input) {
        Ok(_) => Ok(()),
        Err(message) => Err(RestError::InvalidParams(message)),
    }
}

/// The limit in force for a request: the default of 10 where none is asked
/// for, an error where 0 is asked for, else the limit asked for, cut down
/// to the server's maximum (which counts as 1 where it is 0).
pub fn normalize_limit(limit: Option<usize>, max_limit: usize) -> (r: Result<usize, RestError>)
    ensures
        match r {
            Ok(value) => limit_in_force(limit, max_limit) == Some(value),
            Err(e) => limit == Some(0usize) && e@ == refusal("limit must be greater than 0"@),
        },
        r matches Ok(value) ==> 1 <= value,
{
    let value = match limit {
        Some(value) => value,
        None => DEFAULT_LIMIT,
    };
    if value == 0 {
        return Err(RestError::invalid_params("limit must be greater than 0"));
    }
    let effective_max = if max_limit >= 1 {
        max_limit
    } else {
        1
    };
    if value <= effective_max {
        Ok(value)
    } else {
        Ok(effective_max)
    }
}

/// The URL of a request that must name one: an error where it is absent or
/// nothing but white space, else the URL as it came.
pub fn required_url(url: Option<String>) -> (r: Result<String, RestError>)
    ensures
        match r {
            Ok(value) => url == Some(value) && !is_blank(value@),
            Err(e) => (url matches Some(value) ==> is_blank(value@)) && e@ == refusal(
                "Missing required query parameter: url"@,
            ),
        },
{
    match url {
        Some(value) => {
            if blank(value.as_str()) {
                Err(RestError::invalid_params("Missing required query parameter: url"))
            } else {
                Ok(value)
            }
        },
        None => Err(RestError::invalid_params("Missing required query parameter: url")),
    }
}

/// Checks a time range: an error where both ends are present and the start
/// is after the end.
pub fn validate_time_range(start_time: Option<u64>, end_time: Option<u64>) -> (r: Result<
    (),
    RestError,
>)
    ensures
        match r {
            Ok(_) => range_in_order(start_time, end_time),
            Err(e) => !range_in_order(start_time, end_time) && e@ == refusal(
                "start_time must be less than or equal to end_time"@,
            ),
        },
{
    match (start_time, end_time) {
        (Some(start), Some(end)) => {
            if start > end {
                return Err(
                    RestError::invalid_params("start_time must be less than or equal to end_time"),
                );
            }
            Ok(())
        },
        _ => Ok(()),
    }
}

/// Checks a recursion depth: an error where 0 is asked for, since a depth
/// must allow one level at least.
pub fn validate_max_depth(max_depth: Option<usize>) -> (r: Result<(), RestError>)
    ensures
        match r {
            Ok(_) => max_depth != Some(0usize),
            Err(e) => max_depth == Some(0usize) && e@ == refusal(
                "max_depth must be greater than 0"@,
            ),
        },
{
    match max_depth {
        Some(depth) => {
            if depth == 0 {
                return Err(RestError::invalid_params("max_depth must be greater than 0"));
            }
            Ok(())
        },
        None => Ok(()),
    }
}

/// The limit in force is at least 1 and at most the server's maximum,
/// which counts as 1 where it is 0; a limit that is asked for and lies
/// within these bounds is in force as it is.
pub proof fn lemma_limit_bounds(limit: Option<usize>, max_limit: usize)
    ensures
        limit_in_force(limit, max_limit) matches Some(value) ==> 1 <= value && (value <= max_limit
            || value == 1),
        limit_in_force(limit, max_limit) is None <==> limit == Some(0usize),
        limit matches Some(asked) ==> (1 <= asked <= max_limit ==> limit_in_force(limit, max_limit)
            == Some(asked)),
{
}

/// Reading a hash does not depend on the prefix: a text that does not
/// itself begin with `0x` denotes the same bytes with `0x` before it as
/// without, and is refused with it exactly where it is refused without.
pub proof fn lemma_prefix_is_ignored(digits: Seq<char>)
    requires
        !has_prefix(digits, "0x"@),
    ensures
        bytes_of("0x"@ + digits) == bytes_of(digits),
{
    reveal_strlit("0x");
    let whole = "0x"@ + digits;
    assert(whole.subrange(0, 2) =~= "0x"@);
    assert(whole.subrange(2, whole.len() as int) =~= digits);
}

} // verus!
