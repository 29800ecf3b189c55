//! Challenge randomness, freshness, DER length decoding and transport encoding.

use crate::u2ferror::U2fError;
use vstd::prelude::*;

verus! {

/// The number that a run of bytes spells, most significant byte first.
pub open spec fn big_endian(bytes: Seq<u8>) -> nat
    decreases bytes.len(),
{
    if bytes.len() == 0 {
        0
    } else {
        big_endian(bytes.drop_last()) * 256 + bytes.last() as nat
    }
}

/// What the first bytes of `buffer` declare as the length of a DER SEQUENCE.
///
/// A short-form length byte gives the content length alone. A long-form byte
/// announces `k` length bytes, and the result is the size of the whole
/// structure: content, the `k` length bytes and the two leading bytes. There is
/// no result where the buffer does not start with tag `0x30` and a length byte,
/// where `k` is zero, or where the buffer ends before the `k` length bytes do.
pub open spec fn declared_length(buffer: Seq<u8>) -> Option<nat> {
    if buffer.len() < 2 || buffer[0] != 0x30 {
        None
    } else if buffer[1] < 0x80 {
        Some(buffer[1] as nat)
    } else {
        let k = (buffer[1] - 0x80) as int;
        if k == 0 || buffer.len() < 2 + k {
            None
        } else {
            Some(big_endian(buffer.subrange(2, 2 + k)) + k as nat + 2)
        }
    }
}

/// A longer run of bytes spells no smaller a number than its prefix.
pub proof fn lemma_big_endian_prefix(bytes: Seq<u8>, n: int)
    requires
        0 <= n <= bytes.len(),
    ensures
        big_endian(bytes.subrange(0, n)) <= big_endian(bytes),
    decreases bytes.len() - n,
{
    if n == bytes.len() {
        assert(bytes.subrange(0, n) =~= bytes);
    } else {
        lemma_big_endian_prefix(bytes.drop_last(), n);
        assert(bytes.drop_last().subrange(0, n) =~= bytes.subrange(0, n));
    }
}

/// Decodes the first bytes of `buffer` as a DER SEQUENCE header and returns the
/// length that they declare. Fails on a malformed or truncated header, and on a
/// length that no `usize` holds.
pub fn decode_length(buffer: &[u8]) -> (r: Result<usize, U2fError>)
    ensures
        match r {
            Ok(n) => declared_length(buffer@) == Some(n as nat),
            Err(e) => e is Asm1DecoderError && match declared_length(buffer@) {
                Some(v) => v > usize::MAX,
                None => true,
            },
        },
{
    if buffer.len() < 2 || buffer[0] != 0x30 {
        return Err(U2fError::Asm1DecoderError);
    }
    let len: u8 = buffer[1];
    if len < 0x80 {
        return Ok(len as usize);
    }
    let count: usize = (len - 0x80) as usize;
    if count == 0 || buffer.len() - 2 < count {
        return Err(U2fError::Asm1DecoderError);
    }
    let ghost digits = buffer@.subrange(2, 2 + count as int);
    let mut length: usize = 0;
    let mut i: usize = 0;
    while i < count
        invariant
            0 <= i <= count,
            2 + count <= buffer.len(),
            digits == buffer@.subrange(2, 2 + count as int),
            declared_length(buffer@) == Some(big_endian(digits) + count as nat + 2),
            length as nat == big_endian(digits.subrange(0, i as int)),
        decreases count - i,
    {
        let digit: usize = buffer[2 + i] as usize;
        proof {
            let next = digits.subrange(0, i + 1);
            assert(next.drop_last() =~= digits.subrange(0, i as int));
            assert(next.last() == buffer@[2 + i as int]);
            assert(big_endian(next) == length as nat * 256 + digit as nat);
            lemma_big_endian_prefix(digits, i + 1);
        }
        if length > (usize::MAX - digit) / 256 {
            return Err(U2fError::Asm1DecoderError);
        }
        length = length * 256 + digit;
        i = i + 1;
    }
    proof {
        assert(digits.subrange(0, count as int) =~= digits);
    }
    if length > usize::MAX - count - 2 {
        return Err(U2fError::Asm1DecoderError);
    }
    Ok(length + count + 2)
}

/// A byte buffer of the `bytes` crate, as callers hand it in.
#[verifier::external_type_specification]
#[verifier::external_body]
pub struct ExBytes(bytes::Bytes);

/// The bytes that a buffer holds, first to last.
pub uninterp spec fn buffer_content(mem: bytes::Bytes) -> Seq<u8>;

/// `Bytes::as_ref`: the buffer's bytes as a slice, all of them and in order.
#[verifier::external_body]
fn buffer_slice(mem: &bytes::Bytes) -> (slice: &[u8])
    ensures
        slice@ == buffer_content(*mem),
{
    mem.as_ref()
}

/// Decode initial bytes of buffer as ASN and return the length of the encoded
/// structure: see `declared_length` for what that is in each form.
pub fn asn_length(mem: bytes::Bytes) -> (r: Result<usize, U2fError>)
    ensures
        match r {
            Ok(n) => declared_length(buffer_content(mem)) == Some(n as nat),
            Err(e) => e is Asm1DecoderError && match declared_length(buffer_content(mem)) {
                Some(v) => v > usize::MAX,
                None => true,
            },
        },
        buffer_content(mem).len() <= usize::MAX,
{
    let buffer = buffer_slice(&mem);
    let _size: usize = buffer.len();
    decode_length(buffer)
}

/// The largest size that the random source fills in one call.
pub const MAX_CHALLENGE_SIZE: usize = 0x7fff_ffff;

/// `openssl::rand::rand_bytes` on a fresh buffer of `size` bytes: on success the
/// buffer comes back with its length unchanged. The bytes are random, so nothing
/// is said of them. The call refuses a buffer longer than a C `int` counts.
#[verifier::external_body]
fn secure_random(size: usize) -> (r: Result<Vec<u8>, openssl::error::ErrorStack>)
    requires
        size <= MAX_CHALLENGE_SIZE,
    ensures
        r matches Ok(bytes) ==> bytes@.len() == size,
{
    let mut bytes: Vec<u8> = vec![0; size];
    openssl::rand::rand_bytes(&mut bytes)?;
    Ok(bytes)
}

/// What a draw from the random source becomes for the caller: the bytes as they
/// are, or `RandomSecureBytesError` whatever the fault was.
pub fn challenge_from_draw(draw: Result<Vec<u8>, openssl::error::ErrorStack>) -> (r: Result<
    Vec<u8>,
    U2fError,
>)
    ensures
        match draw {
            Ok(bytes) => r matches Ok(out) && out@ == bytes@,
            Err(_) => r matches Err(e) && e is RandomSecureBytesError,
        },
{
    match draw {
        Ok(bytes) => Ok(bytes),
        Err(_) => Err(U2fError::RandomSecureBytesError),
    }
}

/// Generates a challenge of `size` bytes from a secure, random source. There is
/// no fallback: a size that the source cannot fill in one call, or any fault of
/// the source, is `RandomSecureBytesError`.
pub fn generate_challenge_randomness(size: usize) -> (r: Result<Vec<u8>, U2fError>)
    ensures
        match r {
            Ok(bytes) => bytes@.len() == size && size <= MAX_CHALLENGE_SIZE,
            Err(e) => e is RandomSecureBytesError,
        },
        size > MAX_CHALLENGE_SIZE ==> r is Err,
{
    if size > MAX_CHALLENGE_SIZE {
        return Err(U2fError::RandomSecureBytesError);
    }
    challenge_from_draw(secure_random(size))
}

/// A point in time: whole seconds since the Unix epoch and the nanoseconds past
/// that second.
#[derive(Clone, Copy, Debug, PartialEq, Eq, Structural)]
pub struct Timestamp {
    pub secs: i64,
    pub nanos: u32,
}

/// A signed length of time in nanoseconds.
#[derive(Clone, Copy, Debug, PartialEq, Eq, Structural)]
pub struct TimeSpan {
    pub nanos: i128,
}

/// How many seconds a day has.
pub const SECONDS_PER_DAY: i64 = 86_400;

/// How many nanoseconds a second has. A timestamp whose `nanos` reach this
/// number lies in a leap second: the second after the one that `secs` counts.
pub const NANOS_PER_SECOND: u32 = 1_000_000_000;

/// The second of its day in which `t` lies, counted from midnight.
pub open spec fn second_of_day(t: Timestamp) -> int {
    t.secs as int % SECONDS_PER_DAY as int
}

/// Whether `t` lies in a leap second.
pub open spec fn in_leap_second(t: Timestamp) -> bool {
    t.nanos >= NANOS_PER_SECOND
}

/// The leap second that the plain difference of two timestamps leaves out:
/// one second more where `earlier` lies in a leap second and `later` at a later
/// second of its day, one second less in the mirrored case, nothing otherwise.
pub open spec fn leap_adjustment(later: Timestamp, earlier: Timestamp) -> int {
    if second_of_day(later) > second_of_day(earlier) && in_leap_second(earlier) {
        1
    } else if second_of_day(later) < second_of_day(earlier) && in_leap_second(later) {
        -1
    } else {
        0
    }
}

/// Nanoseconds from `earlier` to `later`, a leap second counted as a second of
/// its own; negative where `later` comes first. For timestamps that the
/// calendar holds this is the count of chrono's `signed_duration_since`.
pub open spec fn nanos_between(later: Timestamp, earlier: Timestamp) -> int {
    (later.secs - earlier.secs + leap_adjustment(later, earlier)) * NANOS_PER_SECOND as int + (
    later.nanos - earlier.nanos)
}

/// The second of its day in which a timestamp with these seconds lies.
pub fn day_second(secs: i64) -> (second: i64)
    ensures
        second == secs as int % SECONDS_PER_DAY as int,
        0 <= second < SECONDS_PER_DAY,
{
    let rest: i64 = secs % SECONDS_PER_DAY;
    if rest < 0 {
        rest + SECONDS_PER_DAY
    } else {
        rest
    }
}

/// The time from `earlier` to `later`.
pub fn time_between(later: Timestamp, earlier: Timestamp) -> (span: TimeSpan)
    ensures
        span.nanos == nanos_between(later, earlier),
{
    let later_second: i64 = day_second(later.secs);
    let earlier_second: i64 = day_second(earlier.secs);
    let adjustment: i128 = if later_second > earlier_second && earlier.nanos >= NANOS_PER_SECOND {
        1
    } else if later_second < earlier_second && later.nanos >= NANOS_PER_SECOND {
        -1
    } else {
        0
    };
    let secs: i128 = later.secs as i128 - earlier.secs as i128 + adjustment;
    let nanos: i128 = later.nanos as i128 - earlier.nanos as i128;
    TimeSpan { nanos: secs * 1_000_000_000 + nanos }
}

/// A challenge issued at `issued_at` is stale at `now` once more than `ttl`
/// seconds lie between the two.
pub open spec fn expired(issued_at: Timestamp, now: Timestamp, ttl: u64) -> bool {
    nanos_between(now, issued_at) > ttl * NANOS_PER_SECOND as int
}

/// Whether a challenge issued at `issued_at` has outlived `ttl` seconds at `now`.
pub fn is_expired(issued_at: Timestamp, now: Timestamp, ttl: u64) -> (stale: bool)
    ensures
        stale == expired(issued_at, now, ttl),
{
    let limit: i128 = ttl as i128 * 1_000_000_000;
    time_between(now, issued_at).nanos > limit
}

/// The instant that a timestamp in relaxed RFC 3339 form denotes, as seconds
/// since the Unix epoch and nanoseconds past the second; `None` for a text that
/// is no such timestamp.
pub uninterp spec fn parsed_instant(text: Seq<char>) -> Option<(i64, u32)>;

/// `str::parse::<DateTime<Utc>>`, read out with `DateTime::timestamp` and
/// `DateTime::timestamp_subsec_nanos`: the same text always denotes the same
/// instant, and a text that does not parse gives `None`.
#[verifier::external_body]
fn parse_timestamp(text: &str) -> (r: Option<Timestamp>)
    ensures
        match r {
            Some(t) => parsed_instant(text@) == Some((t.secs, t.nanos)),
            None => parsed_instant(text@) is None,
        },
{
    match text.parse::<chrono::DateTime<chrono::Utc>>() {
        Ok(t) => Some(Timestamp { secs: t.timestamp(), nanos: t.timestamp_subsec_nanos() }),
        Err(_) => None,
    }
}

/// `Utc::now`, read out the same way. The clock decides, so nothing is promised.
#[verifier::external_body]
fn current_time() -> (now: Timestamp) {
    let t = chrono::Utc::now();
    Timestamp { secs: t.timestamp(), nanos: t.timestamp_subsec_nanos() }
}

/// Time from the instant that `timestamp` denotes to `now`.
pub fn elapsed_at(now: Timestamp, timestamp: &str) -> (r: Option<TimeSpan>)
    ensures
        match parsed_instant(timestamp@) {
            Some(t) => r == Some(
                TimeSpan {
                    nanos: nanos_between(now, Timestamp { secs: t.0, nanos: t.1 }) as i128,
                },
            ),
            None => r is None,
        },
{
    match parse_timestamp(timestamp) {
        Some(then) => Some(time_between(now, then)),
        None => None,
    }
}

/// Whether `span` is the time from the instant that `timestamp` denotes to some
/// instant: what holds of the elapsed time whatever the clock says.
pub open spec fn elapsed_since(timestamp: Seq<char>, span: TimeSpan) -> bool {
    exists|now: Timestamp|
        span.nanos == nanos_between(
            now,
            Timestamp {
                secs: parsed_instant(timestamp)->Some_0.0,
                nanos: parsed_instant(timestamp)->Some_0.1,
            },
        )
}

/// Time which has elapsed since a specified timestamp, by the system clock.
pub fn elapsed_time(timestamp: String) -> (span: TimeSpan)
    requires
        parsed_instant(timestamp@) is Some,
    ensures
        elapsed_since(timestamp@, span),
{
    let now = current_time();
    let then = parse_timestamp(timestamp.as_str()).unwrap();
    let span = time_between(now, then);
    proof {
        let denoted = Timestamp {
            secs: parsed_instant(timestamp@)->Some_0.0,
            nanos: parsed_instant(timestamp@)->Some_0.1,
        };
        assert(then == denoted);
        assert(span.nanos == nanos_between(now, denoted));
    }
    span
}

/// Time which has elapsed since a specified timestamp, or `None` where the text
/// is no timestamp.
pub fn checked_elapsed_time(timestamp: String) -> (r: Option<TimeSpan>)
    ensures
        r is Some <==> parsed_instant(timestamp@) is Some,
        r matches Some(span) ==> elapsed_since(timestamp@, span),
{
    match parse_timestamp(timestamp.as_str()) {
        Some(_) => Some(elapsed_time(timestamp)),
        None => None,
    }
}

/// The text without the characters `c` that end it.
pub open spec fn without_trailing(text: Seq<char>, c: char) -> Seq<char>
    decreases text.len(),
{
    if text.len() > 0 && text.last() == c {
        without_trailing(text.drop_last(), c)
    } else {
        text
    }
}

/// Removes every `=` that ends `encoded`.
pub fn trim_padding(encoded: &str) -> (trimmed: String)
    ensures
        trimmed@ == without_trailing(encoded@, '='),
{
    let mut end: usize = encoded.unicode_len();
    let mut trimming: bool = true;
    proof {
        assert(encoded@.subrange(0, end as int) =~= encoded@);
    }
    while trimming && end > 0
        invariant
            end <= encoded@.len(),
            !trimming ==> end > 0 && encoded@[end - 1] != '=',
            without_trailing(encoded@, '=') == without_trailing(
                encoded@.subrange(0, end as int),
                '=',
            ),
        decreases end + if trimming { 1nat } else { 0nat },
    {
        if encoded.get_char(end - 1) == '=' {
            proof {
                assert(encoded@.subrange(0, end as int).drop_last() =~= encoded@.subrange(
                    0,
                    end - 1,
                ));
            }
            end = end - 1;
        } else {
            trimming = false;
        }
    }
    encoded.substring_char(0, end).to_owned()
}

/// The symbols of the URL-safe base64 alphabet.
pub open spec fn url_safe_symbol(c: char) -> bool {
    ('A' <= c && c <= 'Z') || ('a' <= c && c <= 'z') || ('0' <= c && c <= '9') || c == '-' || c
        == '_'
}

/// The URL-safe base64 text of `data`, written without padding.
pub uninterp spec fn url_safe_base64(data: Seq<u8>) -> Seq<char>;

/// How many symbols encode `n` bytes without padding: four for every three
/// bytes, and two or three for the one or two bytes that are left over.
pub open spec fn encoded_length(n: nat) -> nat {
    n / 3 * 4 + if n % 3 == 0 {
        0nat
    } else {
        n % 3 + 1
    }
}

/// The encoded length in one formula: four thirds of the input, rounded up.
pub proof fn lemma_encoded_length(n: nat)
    ensures
        encoded_length(n) == (4 * n + 2) / 3,
        n % 3 == 0 ==> encoded_length(n) == 4 * (n / 3),
        n % 3 == 1 ==> encoded_length(n) == 4 * (n / 3) + 2,
        n % 3 == 2 ==> encoded_length(n) == 4 * (n / 3) + 3,
{
}

/// No symbol of the URL-safe alphabet is the padding mark, `+` or `/`.
pub proof fn lemma_symbols_exclude_padding(c: char)
    requires
        url_safe_symbol(c),
    ensures
        c != '=',
        c != '+',
        c != '/',
{
}

/// `base64::encode_config` with `URL_SAFE_NO_PAD`: the text depends on the bytes
/// alone, has the length that the crate computes for this configuration, and is
/// made of symbols of the URL-safe alphabet only, since this configuration
/// writes no padding. The call refuses an input whose encoded size no `usize`
/// holds.
#[verifier::external_body]
fn encode_url_safe(data: &[u8]) -> (text: String)
    requires
        data@.len() / 3 * 4 + 3 <= usize::MAX,
    ensures
        text@ == url_safe_base64(data@),
        text@.len() == encoded_length(data@.len()),
        forall|i: int| 0 <= i < text@.len() ==> url_safe_symbol(#[trigger] text@[i]),
{
    base64::encode_config(data, base64::URL_SAFE_NO_PAD)
}

/// Encode as URL-safe, no padding base64: the text holds no `=` anywhere.
pub fn get_encoded(data: &[u8]) -> (text: String)
    requires
        data@.len() / 3 * 4 + 3 <= usize::MAX,
    ensures
        text@ == url_safe_base64(data@),
        text@.len() == encoded_length(data@.len()),
        forall|i: int| 0 <= i < text@.len() ==> url_safe_symbol(#[trigger] text@[i]),
        forall|i: int| 0 <= i < text@.len() ==> text@[i] != '=',
{
    let encoded: String = encode_url_safe(data);
    proof {
        if encoded@.len() > 0 {
            assert(url_safe_symbol(encoded@[encoded@.len() - 1]));
        }
        assert forall|i: int| 0 <= i < encoded@.len() implies encoded@[i] != '=' by {
            assert(url_safe_symbol(encoded@[i]));
        }
    }
    trim_padding(encoded.as_str())
}

/// How often `byte` occurs in `bytes`.
pub open spec fn occurrences(bytes: Seq<u8>, byte: u8) -> nat
    decreases bytes.len(),
{
    if bytes.len() == 0 {
        0
    } else {
        occurrences(bytes.drop_last(), byte) + if bytes.last() == byte {
            1nat
        } else {
            0nat
        }
    }
}

/// No byte occurs more often than there are bytes.
pub proof fn lemma_occurrences_bound(bytes: Seq<u8>, byte: u8)
    ensures
        occurrences(bytes, byte) <= bytes.len(),
    decreases bytes.len(),
{
    if bytes.len() > 0 {
        lemma_occurrences_bound(bytes.drop_last(), byte);
    }
}

/// The frequency table behind the entropy diagnostic: entry `b` counts the
/// occurrences of byte `b` in `input`.
pub fn byte_frequencies(input: &[u8]) -> (table: Vec<usize>)
    ensures
        table@.len() == 256,
        forall|b: u8| #[trigger] table@[b as int] == occurrences(input@, b),
{
    let mut table: Vec<usize> = Vec::new();
    let mut k: usize = 0;
    while k < 256
        invariant
            k <= 256,
            table@.len() == k,
            forall|j: int| 0 <= j < k ==> table@[j] == 0,
        decreases 256 - k,
    {
        table.push(0);
        k = k + 1;
    }
    let mut i: usize = 0;
    while i < input.len()
        invariant
            i <= input@.len(),
            table@.len() == 256,
            forall|b: u8| #[trigger]
                table@[b as int] == occurrences(input@.subrange(0, i as int), b),
        decreases input@.len() - i,
    {
        let byte: u8 = input[i];
        let slot: usize = byte as usize;
        let ghost before = input@.subrange(0, i as int);
        let ghost after = input@.subrange(0, i + 1);
        proof {
            assert(after.drop_last() =~= before);
            assert(after.last() == byte);
            lemma_occurrences_bound(before, byte);
            assert(table@[byte as int] == occurrences(before, byte));
        }
        let count: usize = table[slot];
        let ghost old_table = table@;
        table.set(slot, count + 1);
        proof {
            assert forall|b: u8| #[trigger] table@[b as int] == occurrences(after, b) by {
                assert(old_table[b as int] == occurrences(before, b));
            }
        }
        i = i + 1;
    }
    proof {
        assert(input@.subrange(0, input@.len() as int) =~= input@);
    }
    table
}

/// A copy of the bytes of `data` from index `from` up to, not including, `to`.
pub fn copy_range(data: &[u8], from: usize, to: usize) -> (out: Vec<u8>)
    requires
        from <= to <= data@.len(),
    ensures
        out@ == data@.subrange(from as int, to as int),
{
    let mut out: Vec<u8> = Vec::new();
    let mut i: usize = from;
    while i < to
        invariant
            from <= i <= to,
            to <= data@.len(),
            out@ == data@.subrange(from as int, i as int),
        decreases to - i,
    {
        out.push(data[i]);
        proof {
            assert(out@ =~= data@.subrange(from as int, i + 1));
        }
        i = i + 1;
    }
    out
}

/// Whether two byte strings are the same, byte for byte.
pub fn same_bytes(a: &[u8], b: &[u8]) -> (same: bool)
    ensures
        same == (a@ == b@),
{
    if a.len() != b.len() {
        return false;
    }
    let mut i: usize = 0;
    while i < a.len()
        invariant
            i <= a@.len(),
            a@.len() == b@.len(),
            forall|j: int| 0 <= j < i ==> a@[j] == b@[j],
        decreases a@.len() - i,
    {
        if a[i] != b[i] {
            return false;
        }
        i = i + 1;
    }
    proof {
        assert(a@ =~= b@);
    }
    true
}

} // verus!
