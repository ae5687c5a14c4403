//! How a device is recognised and described.
//!
//! A device is recognised by the fingerprint of its advertised name: the first
//! sixteen hexadecimal digits of the name's MD5 digest.

use vstd::prelude::*;
use vstd::string::{StrSliceExecFns, StringExecFns, StringSliceAdditionalSpecFns};
use vstd::utf8::encode_utf8;
use md5::{Digest, Md5};
use crate::dto::device::Device;

verus! {

/// The MD5 digest of a sequence of bytes.
pub uninterp spec fn md5_digest(data: Seq<u8>) -> Seq<u8>;

/// Computes an MD5 digest with `Md5::digest` of the md-5 crate.
///
/// Not proved: that the bytes returned are the MD5 digest of `data`, which is
/// what `md5_digest` names, and that there are sixteen of them, the output
/// size the crate declares for MD5.
#[verifier::external_body]
fn md5_of(data: &[u8]) -> (digest: Vec<u8>)
    ensures
        digest@ == md5_digest(data@),
        digest@.len() == 16,
{
    Md5::digest(data).to_vec()
}

/// Whether `needle` occurs in `haystack` as a contiguous run of characters.
pub open spec fn occurs_in(needle: Seq<char>, haystack: Seq<char>) -> bool {
    exists|i: int|
        0 <= i && i + needle.len() <= haystack.len() && #[trigger] haystack.subrange(
            i,
            i + needle.len(),
        ) == needle
}

/// Searches a text with `str::contains`.
///
/// Not proved: that the answer is whether `needle` is a substring of `haystack`.
#[verifier::external_body]
fn contains_text(haystack: &str, needle: &str) -> (found: bool)
    ensures
        found == occurs_in(needle@, haystack@),
{
    haystack.contains(needle)
}

/// The lower-case hexadecimal digit for a value below sixteen.
pub open spec fn hex_digit(nibble: int) -> char {
    "0123456789abcdef"@[nibble]
}

/// The bytes written as lower-case hexadecimal digits, two for each byte.
pub open spec fn hex_lower(bytes: Seq<u8>) -> Seq<char>
    decreases bytes.len(),
{
    if bytes.len() == 0 {
        Seq::empty()
    } else {
        hex_lower(bytes.drop_last()).push(hex_digit(bytes.last() as int / 16)).push(
            hex_digit(bytes.last() as int % 16),
        )
    }
}

/// The fingerprint that belongs to a digest: its first eight bytes in
/// hexadecimal, or all of them if there are fewer.
pub open spec fn fingerprint_text(digest: Seq<u8>) -> Seq<char> {
    if digest.len() <= 8 {
        hex_lower(digest)
    } else {
        hex_lower(digest.subrange(0, 8))
    }
}

/// The fingerprint of a device that advertises `name`: the fingerprint that
/// belongs to the MD5 digest of the name's UTF-8 bytes.
pub open spec fn fingerprint_of(name: Seq<char>) -> Seq<char> {
    fingerprint_text(md5_digest(encode_utf8(name)))
}

/// Two hexadecimal digits are written for every byte.
pub proof fn lemma_hex_lower_len(bytes: Seq<u8>)
    ensures
        hex_lower(bytes).len() == 2 * bytes.len(),
    decreases bytes.len(),
{
    if bytes.len() > 0 {
        lemma_hex_lower_len(bytes.drop_last());
    }
}

/// Appends the hexadecimal digit of `nibble` to `out`.
fn push_hex_digit(out: &mut String, nibble: u8)
    requires
        nibble < 16,
    ensures
        final(out)@ == old(out)@.push(hex_digit(nibble as int)),
{
    let digits = "0123456789abcdef";
    proof {
        reveal_strlit("0123456789abcdef");
    }
    let at: usize = nibble as usize;
    let digit = digits.substring_ascii(at, at + 1);
    out.append(digit);
    assert(final(out)@ =~= old(out)@.push(hex_digit(nibble as int)));
}

/// Writes the fingerprint that belongs to a digest.
pub fn fingerprint_from_digest(digest: &[u8]) -> (fingerprint: String)
    ensures
        fingerprint@ == fingerprint_text(digest@),
{
    let shown: usize = if digest.len() <= 8 {
        digest.len()
    } else {
        8
    };
    let mut out = String::new();
    let mut i: usize = 0;
    while i < shown
        invariant
            i <= shown <= digest@.len(),
            out@ == hex_lower(digest@.subrange(0, i as int)),
        decreases shown - i,
    {
        let byte: u8 = digest[i];
        proof {
            assert(digest@.subrange(0, i + 1).drop_last() =~= digest@.subrange(0, i as int));
            assert(digest@.subrange(0, i + 1).last() == byte);
        }
        push_hex_digit(&mut out, byte / 16);
        push_hex_digit(&mut out, byte % 16);
        i = i + 1;
    }
    proof {
        if digest@.len() <= 8 {
            assert(digest@.subrange(0, i as int) =~= digest@);
        }
    }
    out
}

/// The fingerprint of a device with the advertised name `name`.
pub fn get_device_fingerprint(name: &str) -> (fingerprint: String)
    ensures
        fingerprint@ == fingerprint_of(name@),
        fingerprint@.len() == 16,
{
    let digest = md5_of(name.as_bytes());
    proof {
        lemma_hex_lower_len(digest@.subrange(0, 8));
    }
    fingerprint_from_digest(digest.as_slice())
}

/// The symbol shown for a device with the advertised name `name`.
///
/// A watch is recognised first, then a phone or tablet, then a laptop; any
/// other device has no symbol.
pub open spec fn device_type_text(name: Seq<char>) -> Seq<char> {
    if occurs_in("Watch"@, name) {
        "⌚️"@
    } else if occurs_in("iPhone"@, name) || occurs_in("iPad"@, name) {
        "📱"@
    } else if occurs_in("MacBook"@, name) {
        "💻"@
    } else {
        Seq::empty()
    }
}

/// Picks the symbol for a device from its advertised name.
pub fn device_type_for(name: &str) -> (symbol: String)
    ensures
        symbol@ == device_type_text(name@),
{
    if contains_text(name, "Watch") {
        String::from_str("⌚️")
    } else if contains_text(name, "iPhone") || contains_text(name, "iPad") {
        String::from_str("📱")
    } else if contains_text(name, "MacBook") {
        String::from_str("💻")
    } else {
        String::new()
    }
}

/// Describes a discovered device: its name, symbol, fingerprint and signal.
///
/// A device that reports no signal strength is listed with 0. The share of
/// the signal among the devices in sight is not known yet and left at 0.
pub fn describe_device(name: &str, rssi: Option<i16>) -> (device: Device)
    ensures
        device.name@ == name@,
        device.device_type@ == device_type_text(name@),
        device.mac@ == fingerprint_of(name@),
        device.rssi == (match rssi {
            Some(r) => r,
            None => 0i16,
        }),
        device.percent == 0,
        device.signal_color@ == "from-blue-400 to-blue-600"@,
        device.signal_text@.len() == 0,
        device.status@.len() == 0,
        device.last@.len() == 0,
{
    Device {
        name: String::from_str(name),
        device_type: device_type_for(name),
        mac: get_device_fingerprint(name),
        rssi: match rssi {
            Some(r) => r,
            None => 0,
        },
        percent: 0,
        signal_text: String::new(),
        signal_color: String::from_str("from-blue-400 to-blue-600"),
        status: String::new(),
        last: String::new(),
    }
}

} // verus!
