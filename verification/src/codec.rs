use vstd::prelude::*;

use crate::models::ServiceError;

verus! {

broadcast use vstd::string::is_ascii_spec_bytes;

/// Smallest workchain identifier a standard address can carry.
pub const MIN_WORKCHAIN_ID: i32 = -128;

/// Largest workchain identifier a standard address can carry.
pub const MAX_WORKCHAIN_ID: i32 = 127;

/// Length in characters of a valid hex address body (32 bytes).
pub const HEX_BODY_LEN: usize = 64;

pub open spec fn valid_workchain_id(wc: int) -> bool {
    MIN_WORKCHAIN_ID <= wc <= MAX_WORKCHAIN_ID
}

pub open spec fn is_hex_digit(c: char) -> bool {
    ('0' <= c && c <= '9') || ('a' <= c && c <= 'f') || ('A' <= c && c <= 'F')
}

/// Numeric value of a hex digit.
pub open spec fn hex_digit_value(c: char) -> u8
    recommends
        is_hex_digit(c),
{
    if '0' <= c && c <= '9' {
        (c as u8 - 48) as u8
    } else if 'a' <= c && c <= 'f' {
        (c as u8 - 87) as u8
    } else {
        (c as u8 - 55) as u8
    }
}

/// A valid address body: exactly 64 hex digits.
pub open spec fn valid_hex_body(s: Seq<char>) -> bool {
    s.len() == HEX_BODY_LEN && forall|i: int| 0 <= i < s.len() ==> is_hex_digit(#[trigger] s[i])
}

/// The 32 raw bytes a valid hex body denotes.
pub open spec fn body_bytes(s: Seq<char>) -> Seq<u8>
    recommends
        valid_hex_body(s),
{
    Seq::new(32, |i: int| (hex_digit_value(s[2 * i]) * 16 + hex_digit_value(s[2 * i + 1])) as u8)
}

/// One shift step of the CRC-16/XMODEM computation (polynomial 0x1021).
pub open spec fn crc16_shift(crc: u16) -> u16 {
    if crc & 0x8000 != 0 {
        (crc << 1) ^ 0x1021
    } else {
        crc << 1
    }
}

/// `n` shift steps applied in order.
pub open spec fn crc16_shifts(crc: u16, n: nat) -> u16
    decreases n,
{
    if n == 0 {
        crc
    } else {
        crc16_shift(crc16_shifts(crc, (n - 1) as nat))
    }
}

/// Folds one byte into a running CRC-16/XMODEM state.
pub open spec fn crc16_byte(crc: u16, b: u8) -> u16 {
    crc16_shifts(crc ^ ((b as u16) << 8), 8)
}

/// CRC-16/XMODEM of a byte sequence, starting from zero.
pub open spec fn crc16(data: Seq<u8>) -> u16
    decreases data.len(),
{
    if data.len() == 0 {
        0
    } else {
        crc16_byte(crc16(data.drop_last()), data.last())
    }
}

/// The base64url alphabet.
pub open spec fn b64_char(v: u8) -> char
    recommends
        v < 64,
{
    if v < 26 {
        ((v + 65) as u8) as char
    } else if v < 52 {
        ((v + 71) as u8) as char
    } else if v < 62 {
        ((v - 4) as u8) as char
    } else if v == 62 {
        '-'
    } else {
        '_'
    }
}

/// The six-bit group at output position `i` when `bytes` (whose length is
/// a multiple of three) is base64-encoded.
pub open spec fn b64_sextet(bytes: Seq<u8>, i: int) -> u8 {
    let b0 = bytes[3 * (i / 4)];
    let b1 = bytes[3 * (i / 4) + 1];
    let b2 = bytes[3 * (i / 4) + 2];
    if i % 4 == 0 {
        b0 >> 2
    } else if i % 4 == 1 {
        ((b0 & 3) << 4) | (b1 >> 4)
    } else if i % 4 == 2 {
        ((b1 & 15) << 2) | (b2 >> 6)
    } else {
        b2 & 63
    }
}

/// base64url encoding of a byte sequence whose length is a multiple of
/// three: no padding arises.
pub open spec fn base64url(bytes: Seq<u8>) -> Seq<char>
    recommends
        bytes.len() % 3 == 0,
{
    Seq::new(bytes.len() / 3 * 4, |i: int| b64_char(b64_sextet(bytes, i)))
}

/// The byte a workchain identifier occupies in the packed form: its
/// two's-complement low byte.
pub open spec fn workchain_byte(wc: int) -> u8
    recommends
        valid_workchain_id(wc),
{
    if wc >= 0 {
        wc as u8
    } else {
        (wc + 256) as u8
    }
}

/// The 36-byte packed buffer: a bounceable-address tag, the workchain
/// byte, the 32-byte body, and a big-endian CRC-16/XMODEM checksum of the
/// first 34 bytes.
pub open spec fn addr_buffer(wc: int, hex: Seq<char>) -> Seq<u8>
    recommends
        valid_workchain_id(wc),
        valid_hex_body(hex),
{
    let payload = seq![0x11u8, workchain_byte(wc)] + body_bytes(hex);
    let crc = crc16(payload);
    payload + seq![(crc >> 8) as u8, (crc & 0xff) as u8]
}

/// The canonical packed textual address of a (workchain, hex body) pair:
/// base64url of the packed buffer. The bounceable flag is fixed on and
/// the test-network flag fixed off, so each address has one canonical
/// form.
pub open spec fn packed_addr(wc: int, hex: Seq<char>) -> Seq<char>
    recommends
        valid_workchain_id(wc),
        valid_hex_body(hex),
{
    base64url(addr_buffer(wc, hex))
}

/// Packing is a function of its inputs alone: two canonical strings
/// computed for the same pair are equal.
pub proof fn lemma_pack_deterministic(wc: int, hex: Seq<char>, r1: Seq<char>, r2: Seq<char>)
    requires
        r1 == packed_addr(wc, hex),
        r2 == packed_addr(wc, hex),
    ensures
        r1 == r2,
{
}

/// Whether a byte is the ASCII code of a hex digit, matching
/// `is_hex_digit` on the corresponding character.
fn byte_is_hex_digit(b: u8) -> (r: bool)
    ensures
        r == is_hex_digit(b as char),
{
    (48 <= b && b <= 57) || (97 <= b && b <= 102) || (65 <= b && b <= 70)
}

/// Numeric value of a hex digit given as its ASCII code.
fn byte_hex_value(b: u8) -> (r: u8)
    requires
        is_hex_digit(b as char),
    ensures
        r == hex_digit_value(b as char),
        r < 16,
{
    if 48 <= b && b <= 57 {
        b - 48
    } else if 97 <= b && b <= 102 {
        b - 87
    } else {
        b - 55
    }
}

/// Relies on String::from_utf8: a byte sequence that holds only ASCII
/// codes decodes to the string whose characters are exactly those code
/// points.
#[verifier::external_body]
fn ascii_to_string(bytes: Vec<u8>) -> (r: String)
    requires
        forall|i: int| 0 <= i < bytes@.len() ==> bytes@[i] < 128,
    ensures
        r@ == bytes@.map_values(|b: u8| b as char),
{
    match String::from_utf8(bytes) {
        Ok(s) => s,
        Err(_) => String::new(),
    }
}

/// CRC-16/XMODEM of a byte slice.
fn crc16_exec(data: &[u8]) -> (r: u16)
    ensures
        r == crc16(data@),
{
    let mut crc: u16 = 0;
    let mut i: usize = 0;
    while i < data.len()
        invariant
            0 <= i <= data@.len(),
            crc == crc16(data@.subrange(0, i as int)),
        decreases data@.len() - i,
    {
        let entry: u16 = crc ^ ((data[i] as u16) << 8);
        let mut step: u16 = entry;
        let mut j: usize = 0;
        while j < 8
            invariant
                0 <= j <= 8,
                step == crc16_shifts(entry, j as nat),
            decreases 8 - j,
        {
            if step & 0x8000 != 0 {
                step = (step << 1) ^ 0x1021;
            } else {
                step = step << 1;
            }
            j = j + 1;
        }
        proof {
            assert(data@.subrange(0, i + 1).drop_last() =~= data@.subrange(0, i as int));
            assert(data@.subrange(0, i + 1).last() == data@[i as int]);
        }
        crc = step;
        i = i + 1;
    }
    proof {
        assert(data@.subrange(0, data@.len() as int) =~= data@);
    }
    crc
}

/// ASCII code of the base64url alphabet character for a six-bit value.
fn b64_ascii(v: u8) -> (r: u8)
    requires
        v < 64,
    ensures
        r < 128,
        r as char == b64_char(v),
{
    if v < 26 {
        v + 65
    } else if v < 52 {
        v + 71
    } else if v < 62 {
        v - 4
    } else if v == 62 {
        45
    } else {
        95
    }
}

/// base64url-encodes a buffer whose length is a multiple of three,
/// returning the ASCII codes of the encoding.
fn base64url_exec(bytes: &Vec<u8>) -> (r: Vec<u8>)
    requires
        bytes@.len() % 3 == 0,
        bytes@.len() <= 1000,
    ensures
        r@.len() == bytes@.len() / 3 * 4,
        forall|i: int| 0 <= i < r@.len() ==> r@[i] < 128,
        r@.map_values(|b: u8| b as char) == base64url(bytes@),
{
    let mut out: Vec<u8> = Vec::new();
    let mut g: usize = 0;
    let groups: usize = bytes.len() / 3;
    while g < groups
        invariant
            0 <= g <= groups,
            groups == bytes@.len() / 3,
            bytes@.len() % 3 == 0,
            bytes@.len() <= 1000,
            out@.len() == 4 * g,
            forall|i: int| 0 <= i < out@.len() ==> out@[i] < 128,
            forall|i: int|
                0 <= i < out@.len() ==> out@[i] as char == b64_char(b64_sextet(bytes@, i)),
        decreases groups - g,
    {
        let b0 = bytes[3 * g];
        let b1 = bytes[3 * g + 1];
        let b2 = bytes[3 * g + 2];
        proof {
            assert(b0 >> 2 < 64 && ((b0 & 3) << 4) | (b1 >> 4) < 64 && ((b1 & 15) << 2) | (b2 >> 6)
                < 64 && b2 & 63 < 64) by (bit_vector);
            assert(4 * g == out@.len());
            assert((4 * g as int) / 4 == g as int && (4 * g as int) % 4 == 0);
            assert((4 * g as int + 1) / 4 == g as int && (4 * g as int + 1) % 4 == 1);
            assert((4 * g as int + 2) / 4 == g as int && (4 * g as int + 2) % 4 == 2);
            assert((4 * g as int + 3) / 4 == g as int && (4 * g as int + 3) % 4 == 3);
        }
        out.push(b64_ascii(b0 >> 2));
        out.push(b64_ascii(((b0 & 3) << 4) | (b1 >> 4)));
        out.push(b64_ascii(((b1 & 15) << 2) | (b2 >> 6)));
        out.push(b64_ascii(b2 & 63));
        g = g + 1;
    }
    proof {
        assert(out@.map_values(|b: u8| b as char) =~= base64url(bytes@));
    }
    out
}

/// Converts a (workchain, hex body) pair into the canonical packed
/// textual address, or reports malformed input: a workchain outside the
/// supported range, or a body that is not exactly 64 hex digits.
pub fn pack(workchain_id: i32, hex_body: &str) -> (r: Result<String, ServiceError>)
    ensures
        (r is Ok) <==> (valid_workchain_id(workchain_id as int) && valid_hex_body(hex_body@)),
        r matches Ok(s) ==> s@ == packed_addr(workchain_id as int, hex_body@),
        r matches Err(e) ==> e == ServiceError::AddressFormat,
{
    if workchain_id < MIN_WORKCHAIN_ID || workchain_id > MAX_WORKCHAIN_ID {
        return Err(ServiceError::AddressFormat);
    }
    if !hex_body.is_ascii() {
        proof {
            if valid_hex_body(hex_body@) {
                assert forall|i: int|
                    0 <= i < hex_body@.len() implies '\0' <= #[trigger] hex_body@[i]
                    <= '\u{7f}' by {
                    assert(is_hex_digit(hex_body@[i]));
                }
                assert(vstd::string::is_ascii(hex_body));
            }
        }
        return Err(ServiceError::AddressFormat);
    }
    let bytes = hex_body.as_bytes();
    let ghost chars = hex_body@;
    proof {
        assert(bytes@ =~= Seq::new(chars.len(), |i: int| chars[i] as u8));
        assert(forall|i: int|
            0 <= i < chars.len() ==> (#[trigger] chars[i]) as u8 as char == chars[i]);
    }
    if bytes.len() != HEX_BODY_LEN {
        return Err(ServiceError::AddressFormat);
    }
    let mut i: usize = 0;
    while i < HEX_BODY_LEN
        invariant
            0 <= i <= HEX_BODY_LEN,
            chars == hex_body@,
            bytes@.len() == HEX_BODY_LEN,
            chars.len() == HEX_BODY_LEN,
            forall|k: int| 0 <= k < chars.len() ==> bytes@[k] == (#[trigger] chars[k]) as u8,
            forall|k: int| 0 <= k < chars.len() ==> (#[trigger] chars[k]) as u8 as char == chars[k],
            forall|k: int| 0 <= k < i ==> is_hex_digit(#[trigger] chars[k]),
        decreases HEX_BODY_LEN - i,
    {
        if !byte_is_hex_digit(bytes[i]) {
            proof {
                assert(bytes@[i as int] as char == chars[i as int]);
                assert(!is_hex_digit(chars[i as int]));
            }
            return Err(ServiceError::AddressFormat);
        }
        i = i + 1;
    }
    let mut payload: Vec<u8> = Vec::new();
    payload.push(0x11);
    if workchain_id >= 0 {
        payload.push(workchain_id as u8);
    } else {
        payload.push((workchain_id + 256) as u8);
    }
    let mut k: usize = 0;
    while k < 32
        invariant
            0 <= k <= 32,
            chars == hex_body@,
            valid_hex_body(chars),
            bytes@.len() == HEX_BODY_LEN,
            forall|j: int| 0 <= j < chars.len() ==> bytes@[j] == (#[trigger] chars[j]) as u8,
            forall|j: int| 0 <= j < chars.len() ==> (#[trigger] chars[j]) as u8 as char == chars[j],
            payload@.len() == 2 + k,
            payload@[0] == 0x11u8,
            payload@[1] == workchain_byte(workchain_id as int),
            forall|j: int| 0 <= j < k ==> payload@[2 + j] == body_bytes(chars)[j],
        decreases 32 - k,
    {
        proof {
            assert(is_hex_digit(chars[2 * k as int]) && is_hex_digit(chars[2 * k as int + 1]));
            assert(bytes@[2 * k as int] as char == chars[2 * k as int]);
            assert(bytes@[2 * k as int + 1] as char == chars[2 * k as int + 1]);
        }
        let hi = byte_hex_value(bytes[2 * k]);
        let lo = byte_hex_value(bytes[2 * k + 1]);
        payload.push(hi * 16 + lo);
        k = k + 1;
    }
    proof {
        assert(payload@ =~= seq![0x11u8, workchain_byte(workchain_id as int)] + body_bytes(chars));
    }
    let crc = crc16_exec(payload.as_slice());
    proof {
        assert(crc >> 8 < 256 && crc & 0xff < 256) by (bit_vector);
    }
    let hi_byte = (crc >> 8) as u8;
    let lo_byte = (crc & 0xff) as u8;
    payload.push(hi_byte);
    payload.push(lo_byte);
    proof {
        assert(payload@ =~= addr_buffer(workchain_id as int, chars));
    }
    let encoded = base64url_exec(&payload);
    let s = ascii_to_string(encoded);
    proof {
        assert(s@ == packed_addr(workchain_id as int, chars));
    }
    Ok(s)
}

} // verus!
