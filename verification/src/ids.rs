//! Identifiers and clock readings: invite codes, uuid-like ids, timestamps.

use vstd::prelude::*;

verus! {

/// Multiplier that scrambles clock readings into identifiers.
pub const SCRAMBLE: u128 = 0x517cc1b727220a95;

/// Nanoseconds since the Unix epoch, read from the system clock
/// (`std::time::SystemTime::now`, measured from `UNIX_EPOCH`; 0 when the
/// clock is before the epoch).  Nothing is promised of the value: it is the
/// time.
#[verifier::external_body]
pub(crate) fn unix_nanos() -> (r: u128) {
    std::time::SystemTime::now()
        .duration_since(std::time::UNIX_EPOCH)
        .map(|d| d.as_nanos())
        .unwrap_or(0)
}

/// Whole seconds since the Unix epoch, from a nanosecond reading.
pub open spec fn secs_of(nanos: u128) -> i64 {
    (((nanos / 1_000_000_000) % 0x1_0000_0000_0000_0000) as u64) as i64
}

/// Whole seconds since the Unix epoch, taken as an `i64` (the bits of
/// the `u64` count of seconds).
pub fn unix_secs() -> (r: i64)
    ensures
        exists|n: u128| r == secs_of(n),
{
    let n = unix_nanos();
    let s: u128 = n / 1_000_000_000;
    let t: u64 = (s % 0x1_0000_0000_0000_0000) as u64;
    assert(t as i64 == secs_of(n));
    t as i64
}

/// Milliseconds of a nanosecond reading, saturating at `u64::MAX`.
pub open spec fn millis_of(nanos: u128) -> u64 {
    if nanos / 1_000_000 > 0xffff_ffff_ffff_ffff {
        0xffff_ffff_ffff_ffff
    } else {
        (nanos / 1_000_000) as u64
    }
}

/// Milliseconds since the Unix epoch (saturating at `u64::MAX`).
pub fn unix_millis() -> (r: u64)
    ensures
        exists|n: u128| r == millis_of(n),
{
    let n = unix_nanos();
    let m = n / 1_000_000;
    let r: u64 = if m > 0xffff_ffff_ffff_ffff {
        0xffff_ffff_ffff_ffff
    } else {
        m as u64
    };
    assert(r == millis_of(n));
    r
}

/// A random version-4 UUID in its hyphenated lowercase text form
/// (`uuid::Uuid::new_v4().to_string()`): 36 characters, hyphens at
/// positions 8, 13, 18 and 23 and lowercase hex digits elsewhere.
#[verifier::external_body]
pub(crate) fn random_uuid() -> (r: String)
    ensures
        r@.len() == 36,
        forall|i: int|
            0 <= i < 36 ==> (if i == 8 || i == 13 || i == 18 || i == 23 {
                r@[i] == '-'
            } else {
                is_lower_hex(r@[i])
            }),
{
    uuid::Uuid::new_v4().to_string()
}

/// Lowercase hexadecimal digit.
pub open spec fn is_lower_hex(c: char) -> bool {
    ('0' <= c <= '9') || ('a' <= c <= 'f')
}

/// The lowercase hexadecimal digit of a value below 16.
pub open spec fn hex_char(d: nat) -> char {
    if d < 10 {
        (('0' as u32) + d) as char
    } else {
        (('a' as u32) + d - 10) as char
    }
}

/// The last `n` hexadecimal digits of `x`, most significant first.
pub open spec fn hex_digits(x: nat, n: nat) -> Seq<char>
    decreases n,
{
    if n == 0 {
        seq![]
    } else {
        hex_digits(x / 16, (n - 1) as nat).push(hex_char(x % 16))
    }
}

fn hex_digit(d: u64) -> (c: char)
    requires
        d < 16,
    ensures
        c == hex_char(d as nat),
{
    if d < 10 {
        let u: u8 = 48 + d as u8;
        u as char
    } else {
        let u: u8 = 97 + (d as u8 - 10);
        u as char
    }
}

fn push_hex(x: u64, n: usize, out: &mut Vec<char>)
    ensures
        final(out)@ == old(out)@ + hex_digits(x as nat, n as nat),
    decreases n,
{
    if n == 0 {
        assert(old(out)@ + hex_digits(x as nat, 0) =~= old(out)@);
    } else {
        push_hex(x / 16, n - 1, out);
        out.push(hex_digit(x % 16));
        assert(old(out)@ + hex_digits(x as nat, n as nat) =~= old(out)@ + hex_digits(
            (x / 16) as nat,
            (n - 1) as nat,
        ) + seq![hex_char((x % 16) as nat)]);
    }
}

/// The 64-bit value that an id is made from, from a clock reading.
pub open spec fn uuid_seed(t: u128) -> u64 {
    ((t % 0x1_0000_0000_0000_0000) as u64) ^ ((t / 0x1_0000_0000_0000_0000) as u64)
}

/// The id text for a clock reading: two 16-digit hex numbers, the seed and
/// the seed scrambled.
pub open spec fn uuid_text(t: u128) -> Seq<char> {
    let r = uuid_seed(t);
    hex_digits(r as nat, 16) + hex_digits(((r as nat * SCRAMBLE as nat) % 0x1_0000_0000_0000_0000)
        as nat, 16)
}

/// The id text made from a given clock reading.
pub fn uuid_from_nanos(t: u128) -> (r: String)
    ensures
        r@ == uuid_text(t),
        r@.len() == 32,
{
    let lo: u64 = (t % 0x1_0000_0000_0000_0000) as u64;
    let hi: u64 = (t / 0x1_0000_0000_0000_0000) as u64;
    let r: u64 = lo ^ hi;
    let k: u64 = 0x517cc1b727220a95;
    let scrambled: u64 = r.wrapping_mul(k);
    let mut out: Vec<char> = Vec::new();
    push_hex(r, 16, &mut out);
    push_hex(scrambled, 16, &mut out);
    proof {
        lemma_hex_digits_len(r as nat, 16);
        lemma_hex_digits_len(scrambled as nat, 16);
        assert(out@ =~= uuid_text(t));
    }
    crate::text::string_of(&out)
}

proof fn lemma_hex_digits_len(x: nat, n: nat)
    ensures
        hex_digits(x, n).len() == n,
    decreases n,
{
    if n > 0 {
        lemma_hex_digits_len(x / 16, (n - 1) as nat);
    }
}

/// A simple uuid-like id made from the clock: 32 lowercase hex digits.
pub fn uuid_v4() -> (r: String)
    ensures
        exists|t: u128| r@ == uuid_text(t),
{
    let t = unix_nanos();
    uuid_from_nanos(t)
}

/// The alphabet of invite codes: base36, letters first.
pub open spec fn base36_char(d: nat) -> char {
    if d < 26 {
        (('a' as u32) + d) as char
    } else {
        (('0' as u32) + d - 26) as char
    }
}

/// The value an invite code is made from, from a clock reading.
pub open spec fn invite_seed(t: u128) -> u64 {
    ((((t as nat * SCRAMBLE as nat) % 0x1_0000_0000_0000_0000_0000_0000_0000_0000nat) as u128 ^ (t
        / 0x1_0000_0000)) % 0x1_0000_0000_0000_0000) as u64
}

/// `n` base36 digits of `v`, least significant first.
pub open spec fn base36_digits(v: nat, n: nat) -> Seq<char>
    decreases n,
{
    if n == 0 {
        seq![]
    } else {
        seq![base36_char(v % 36)] + base36_digits(v / 36, (n - 1) as nat)
    }
}

fn base36_digit(d: u64) -> (c: char)
    requires
        d < 36,
    ensures
        c == base36_char(d as nat),
{
    if d < 26 {
        let u: u8 = 97 + d as u8;
        u as char
    } else {
        let u: u8 = 48 + (d as u8 - 26);
        u as char
    }
}

/// The invite code for a clock reading: 8 base36 characters.
pub fn invite_code_from_nanos(t: u128) -> (r: String)
    ensures
        r@ == base36_digits(invite_seed(t) as nat, 8),
{
    let k: u128 = 0x517cc1b727220a95;
    let hash: u128 = t.wrapping_mul(k) ^ (t >> 32);
    let mut val: u64 = (hash % 0x1_0000_0000_0000_0000) as u64;
    proof {
        assert(t >> 32 == t / 0x1_0000_0000) by (bit_vector);
    }
    let ghost seed = val;
    let mut out: Vec<char> = Vec::new();
    let mut i: usize = 0;
    while i < 8
        invariant
            i <= 8,
            out@ + base36_digits(val as nat, (8 - i) as nat) == base36_digits(seed as nat, 8),
        decreases 8 - i,
    {
        let c = base36_digit(val % 36);
        proof {
            let rest = base36_digits((val / 36) as nat, (8 - i - 1) as nat);
            assert(base36_digits(val as nat, (8 - i) as nat) == seq![c] + rest);
            assert(out@.push(c) + rest =~= out@ + (seq![c] + rest));
        }
        out.push(c);
        val = val / 36;
        i = i + 1;
    }
    assert(out@ =~= base36_digits(seed as nat, 8));
    crate::text::string_of(&out)
}

/// A short, human-friendly invite code (8 characters) made from the clock.
pub fn generate_invite_code() -> (r: String)
    ensures
        exists|t: u128| r@ == base36_digits(invite_seed(t) as nat, 8),
{
    let t = unix_nanos();
    invite_code_from_nanos(t)
}

} // verus!
