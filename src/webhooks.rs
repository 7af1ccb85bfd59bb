//! Webhook signatures: reading the signature header and checking a request
//! body against it.

use hmac::digest::MacError;
use hmac::{Hmac, Mac};
use sha2::Sha256;
use vstd::prelude::*;
use vstd::string::*;
use vstd::utf8::*;

use crate::codec::{
    decimal, decimal_text, decode_hex, hex_bytes, hex_text, i64_literal, is_decimal_digit,
    is_hex_string, lemma_decimal_literal, lemma_hex_round_trip, parse_i64, push_decimal,
};
use crate::error::{Error, SignatureError};

verus! {

/// Number of times `c` occurs in `s`.
pub open spec fn occurrences(s: Seq<char>, c: char) -> nat
    decreases s.len(),
{
    if s.len() == 0 {
        0
    } else {
        occurrences(s.drop_last(), c) + if s.last() == c {
            1nat
        } else {
            0nat
        }
    }
}

/// Index of the first `c` in `s`.
pub open spec fn first_index(s: Seq<char>, c: char) -> Option<int>
    decreases s.len(),
{
    if s.len() == 0 {
        None
    } else {
        match first_index(s.drop_last(), c) {
            Some(i) => Some(i),
            None => if s.last() == c {
                Some(s.len() - 1)
            } else {
                None
            },
        }
    }
}

/// What stands before and after `c` in `s`, when `c` occurs there exactly once.
pub open spec fn split_once(s: Seq<char>, c: char) -> Option<(Seq<char>, Seq<char>)> {
    if occurrences(s, c) == 1 {
        let i = first_index(s, c)->0;
        Some((s.take(i), s.skip(i + 1)))
    } else {
        None
    }
}

/// Seconds since the Unix epoch of chrono's earliest `DateTime<Utc>`
/// (`DateTime::<Utc>::MIN_UTC`, January 1 of the year -262143).
pub const MIN_UTC_TIMESTAMP: i64 = -8334601228800;

/// Seconds since the Unix epoch of the last whole second of chrono's latest
/// `DateTime<Utc>` (`DateTime::<Utc>::MAX_UTC`, December 31 of the year 262142).
pub const MAX_UTC_TIMESTAMP: i64 = 8210266876799;

/// Whether a count of seconds since the Unix epoch names an instant that
/// chrono's `DateTime<Utc>` can hold.
pub open spec fn timestamp_representable(secs: int) -> bool {
    MIN_UTC_TIMESTAMP <= secs <= MAX_UTC_TIMESTAMP
}

/// Relies on chrono's `DateTime::from_timestamp`, which returns `None` for a
/// count of seconds outside `MIN_UTC`..=`MAX_UTC`.
#[verifier::external_body]
fn timestamp_in_range(secs: i64) -> (r: bool)
    ensures
        r == timestamp_representable(secs as int),
{
    chrono::DateTime::from_timestamp(secs, 0).is_some()
}

/// The ways in which a signature header can be refused.
pub enum HeaderFault {
    Empty,
    InvalidFormat,
    InvalidPartFormat,
    ParseError,
    /// The timestamp is not a decimal literal, or the MAC is not hex text.
    Integer,
}

/// The kind of header fault that `e` reports, if it reports one.
pub open spec fn fault_of(e: Error) -> Option<HeaderFault> {
    match e {
        Error::PaddleSignature(SignatureError::Empty) => Some(HeaderFault::Empty),
        Error::PaddleSignature(SignatureError::InvalidFormat) => Some(HeaderFault::InvalidFormat),
        Error::PaddleSignature(SignatureError::InvalidPartFormat) => Some(HeaderFault::InvalidPartFormat),
        Error::PaddleSignature(SignatureError::ParseError) => Some(HeaderFault::ParseError),
        Error::ParseIntError(_) => Some(HeaderFault::Integer),
        _ => None,
    }
}

/// The timestamp (when it is representable) and the MAC text that the parts
/// read so far have given; a later part overrides an earlier one.
pub type Found = (Option<i64>, Option<Seq<char>>);

/// Reads one `key=value` part of the header: `ts` gives the timestamp, `h1`
/// the MAC text, and any other key is ignored.
pub open spec fn read_part(part: Seq<char>, found: Found) -> Result<Found, HeaderFault> {
    match split_once(part, '=') {
        None => Err(HeaderFault::InvalidPartFormat),
        Some((key, value)) => if key == seq!['t', 's'] {
            match i64_literal(value) {
                None => Err(HeaderFault::Integer),
                Some(n) => Ok(
                    (if timestamp_representable(n as int) {
                        Some(n)
                    } else {
                        None
                    }, found.1),
                ),
            }
        } else if key == seq!['h', '1'] {
            Ok((found.0, Some(value)))
        } else {
            Ok(found)
        },
    }
}

/// What a signature header holds: its timestamp and MAC bytes, or the first
/// fault met while reading it.
pub open spec fn header_model(s: Seq<char>) -> Result<(i64, Seq<u8>), HeaderFault> {
    if s.len() == 0 {
        Err(HeaderFault::Empty)
    } else {
        match split_once(s, ';') {
            None => Err(HeaderFault::InvalidFormat),
            Some((first, second)) => match read_part(first, (None, None)) {
                Err(f) => Err(f),
                Ok(found) => match read_part(second, found) {
                    Err(f) => Err(f),
                    Ok((Some(ts), Some(mac))) => if is_hex_string(mac) {
                        Ok((ts, hex_bytes(mac)))
                    } else {
                        Err(HeaderFault::Integer)
                    },
                    Ok(_) => Err(HeaderFault::ParseError),
                },
            },
        }
    }
}

pub open spec fn view_str_opt(o: Option<&str>) -> Option<Seq<char>> {
    match o {
        Some(s) => Some(s@),
        None => None,
    }
}

proof fn lemma_first_index(s: Seq<char>, c: char)
    ensures
        (occurrences(s, c) > 0) == (first_index(s, c) is Some),
        first_index(s, c) matches Some(i) ==> 0 <= i < s.len() && s[i] == c,
        first_index(s, c) matches Some(i) ==> occurrences(s.take(i), c) == 0,
    decreases s.len(),
{
    if s.len() > 0 {
        lemma_first_index(s.drop_last(), c);
        if first_index(s.drop_last(), c) is None && s.last() == c {
            assert(s.take(s.len() - 1) =~= s.drop_last());
        }
        if let Some(i) = first_index(s.drop_last(), c) {
            assert(s.take(i) =~= s.drop_last().take(i));
        }
    }
}

proof fn lemma_occurrences_concat(a: Seq<char>, b: Seq<char>, c: char)
    ensures
        occurrences(a + b, c) == occurrences(a, c) + occurrences(b, c),
    decreases b.len(),
{
    if b.len() == 0 {
        assert(a + b =~= a);
    } else {
        assert((a + b).drop_last() =~= a + b.drop_last());
        lemma_occurrences_concat(a, b.drop_last(), c);
    }
}

/// Index of the single `c` in `s`, if `c` occurs there exactly once.
fn find_single(s: &str, c: char) -> (r: Option<usize>)
    ensures
        r is Some <==> occurrences(s@, c) == 1,
        r matches Some(i) ==> first_index(s@, c) == Some(i as int) && i < s@.len() && s@[i as int] == c,
{
    let n = s.unicode_len();
    let mut count: usize = 0;
    let mut first: usize = 0;
    let mut i: usize = 0;
    while i < n
        invariant
            n == s@.len(),
            i <= n,
            count == occurrences(s@.take(i as int), c),
            count <= i,
            count > 0 ==> first_index(s@.take(i as int), c) == Some(first as int),
            count == 0 ==> first_index(s@.take(i as int), c) is None,
        decreases n - i,
    {
        let ch = s.get_char(i);
        assert(s@.take(i + 1).drop_last() =~= s@.take(i as int));
        if ch == c {
            if count == 0 {
                first = i;
            }
            count += 1;
        }
        i += 1;
    }
    assert(s@.take(n as int) =~= s@);
    proof {
        lemma_first_index(s@, c);
    }
    if count == 1 {
        Some(first)
    } else {
        None
    }
}

/// Reads one `key=value` part of a signature header into `ts` and `mac`.
fn read_header_part<'a>(part: &'a str, ts: &mut Option<i64>, mac: &mut Option<&'a str>) -> (r:
    Result<(), Error>)
    ensures
        match read_part(part@, (*old(ts), view_str_opt(*old(mac)))) {
            Ok(found) => r is Ok && *final(ts) == found.0 && view_str_opt(*final(mac)) == found.1,
            Err(f) => r is Err && fault_of(r->Err_0) == Some(f),
        },
{
    match find_single(part, '=') {
        None => Err(Error::PaddleSignature(SignatureError::InvalidPartFormat)),
        Some(eq) => {
            let n = part.unicode_len();
            let key = part.substring_char(0, eq);
            let value = part.substring_char(eq + 1, n);
            assert(split_once(part@, '=') == Some((key@, value@)));
            let (k0, k1) = if eq == 2 {
                (part.get_char(0), part.get_char(1))
            } else {
                (' ', ' ')
            };
            if eq == 2 && k0 == 't' && k1 == 's' {
                assert(key@ =~= seq!['t', 's']);
                match parse_i64(value) {
                    Err(e) => Err(Error::ParseIntError(e)),
                    Ok(v) => {
                        *ts = if timestamp_in_range(v) {
                            Some(v)
                        } else {
                            None
                        };
                        Ok(())
                    },
                }
            } else if eq == 2 && k0 == 'h' && k1 == '1' {
                assert(key@ =~= seq!['h', '1']);
                assert(key@ != seq!['t', 's']) by {
                    assert(key@[0] != seq!['t', 's'][0]);
                }
                *mac = Some(value);
                Ok(())
            } else {
                assert(key@ != seq!['t', 's']) by {
                    if key@ == seq!['t', 's'] {
                        assert(key@.len() == 2);
                        assert(key@[0] == 't' && key@[1] == 's');
                        assert(part@[0] == key@[0] && part@[1] == key@[1]);
                    }
                }
                assert(key@ != seq!['h', '1']) by {
                    if key@ == seq!['h', '1'] {
                        assert(key@.len() == 2);
                        assert(key@[0] == 'h' && key@[1] == '1');
                        assert(part@[0] == key@[0] && part@[1] == key@[1]);
                    }
                }
                Ok(())
            }
        },
    }
}

/// A webhook signature, as read from its header.
pub struct Signature {
    /// When the sender signed, in seconds since the Unix epoch.
    pub timestamp: i64,
    /// The MAC bytes that the header carried.
    pub signature: Vec<u8>,
}

/// Whether `r` is what reading the header `s` gives: the signature it holds,
/// or an error of the kind of the first fault met.
pub open spec fn parsed_as(s: Seq<char>, r: Result<Signature, Error>) -> bool {
    match header_model(s) {
        Ok((ts, mac)) => r is Ok && r->Ok_0.timestamp == ts && r->Ok_0.signature@ == mac,
        Err(f) => r is Err && fault_of(r->Err_0) == Some(f),
    }
}

impl Signature {
    /// Reads a header of the form `ts=<unix seconds>;h1=<hex mac>` (the two
    /// parts in either order).
    pub fn parse(signature: &str) -> (r: Result<Signature, Error>)
        ensures
            parsed_as(signature@, r),
    {
        let n = signature.unicode_len();
        if n == 0 {
            return Err(Error::PaddleSignature(SignatureError::Empty));
        }
        let semi = match find_single(signature, ';') {
            None => {
                return Err(Error::PaddleSignature(SignatureError::InvalidFormat));
            },
            Some(i) => i,
        };
        let first = signature.substring_char(0, semi);
        let second = signature.substring_char(semi + 1, n);
        assert(split_once(signature@, ';') == Some((first@, second@)));
        let mut ts: Option<i64> = None;
        let mut mac: Option<&str> = None;
        match read_header_part(first, &mut ts, &mut mac) {
            Err(e) => {
                return Err(e);
            },
            Ok(()) => {},
        }
        match read_header_part(second, &mut ts, &mut mac) {
            Err(e) => {
                return Err(e);
            },
            Ok(()) => {},
        }
        match (ts, mac) {
            (Some(timestamp), Some(text)) => {
                match decode_hex(text) {
                    Ok(bytes) => Ok(Signature { timestamp, signature: bytes }),
                    Err(e) => Err(Error::ParseIntError(e)),
                }
            },
            _ => Err(Error::PaddleSignature(SignatureError::ParseError)),
        }
    }
}

/// How old a signature may be before it is refused: `None` disables the
/// check, `Some(n)` allows `n` seconds.
#[derive(Clone, Copy, Debug, PartialEq, Eq)]
pub struct MaximumVariance(pub Option<u64>);

impl MaximumVariance {
    /// A bound of `seconds` seconds.
    pub fn seconds(seconds: u64) -> (r: Self)
        ensures
            r.0 == Some(seconds),
    {
        MaximumVariance(Some(seconds))
    }
}

impl Default for MaximumVariance {
    /// A bound of five seconds.
    fn default() -> (r: Self)
        ensures
            r.0 == Some(5u64),
    {
        MaximumVariance(Some(5))
    }
}

/// The HMAC-SHA256 tag of `message` under `key`.
pub uninterp spec fn hmac_sha256(key: Seq<u8>, message: Seq<u8>) -> Seq<u8>;

/// Relies on hmac's `Mac` for `Hmac<Sha256>`: `new_from_slice` accepts a key
/// of any length, `update` feeds the message, and `verify_slice` compares the
/// computed tag with `tag` in constant time, failing also on another length.
#[verifier::external_body]
fn verify_hmac_sha256(key: &[u8], message: &[u8], tag: &[u8]) -> (r: Result<(), MacError>)
    ensures
        r is Ok <==> tag@ == hmac_sha256(key@, message@),
{
    match <Hmac<Sha256> as Mac>::new_from_slice(key) {
        Ok(mut mac) => {
            mac.update(message);
            mac.verify_slice(tag)
        },
        Err(_) => Err(MacError),
    }
}

/// Relies on chrono's `Utc::now`, read as whole seconds since the Unix epoch
/// and the nanoseconds past them.
#[verifier::external_body]
fn unix_now() -> (r: (i64, u32)) {
    let now = chrono::Utc::now();
    (now.timestamp(), now.timestamp_subsec_nanos())
}

/// The bytes that the sender signs: the timestamp in decimal, a colon, then
/// the request body as UTF-8.
pub open spec fn signed_payload(timestamp: int, body: Seq<char>) -> Seq<u8> {
    decimal(timestamp) + seq![58u8] + encode_utf8(body)
}

/// Whether, at the instant `now_seconds` (plus `now_nanos` nanoseconds), a
/// signature made at `timestamp` is older than `variance` allows.
pub open spec fn is_stale(timestamp: i64, variance: Option<u64>, now_seconds: i64, now_nanos: u32) -> bool {
    match variance {
        None => false,
        Some(v) => now_seconds > timestamp + v || (now_seconds == timestamp + v && now_nanos > 0),
    }
}

fn signed_payload_bytes(timestamp: i64, body: &str) -> (r: Vec<u8>)
    ensures
        r@ == signed_payload(timestamp as int, body@),
{
    let mut out: Vec<u8> = Vec::new();
    push_decimal(&mut out, timestamp);
    out.push(58u8);
    let bytes = body.as_bytes();
    let ghost start = out@;
    let mut i: usize = 0;
    while i < bytes.len()
        invariant
            bytes@ == encode_utf8(body@),
            i <= bytes@.len(),
            out@ == start + bytes@.take(i as int),
        decreases bytes@.len() - i,
    {
        out.push(bytes[i]);
        assert(bytes@.take(i + 1) =~= bytes@.take(i as int).push(bytes@[i as int]));
        i += 1;
    }
    assert(bytes@.take(bytes@.len() as int) =~= bytes@);
    assert(out@ =~= signed_payload(timestamp as int, body@));
    out
}

impl Signature {
    /// Whether this signature's MAC is the HMAC-SHA256, under the UTF-8 bytes
    /// of `key`, of the payload signed for `body`.
    pub open spec fn mac_matches(&self, body: Seq<char>, key: Seq<char>) -> bool {
        self.signature@ == hmac_sha256(encode_utf8(key), signed_payload(self.timestamp as int, body))
    }

    /// Checks `request_body` against this signature at the given instant:
    /// first its age, then its MAC.
    pub fn verify_at(
        &self,
        request_body: &str,
        key: &str,
        maximum_variance: MaximumVariance,
        now_seconds: i64,
        now_nanos: u32,
    ) -> (r: Result<(), Error>)
        ensures
            is_stale(self.timestamp, maximum_variance.0, now_seconds, now_nanos) ==> r == Err::<(), Error>(
                Error::PaddleSignature(SignatureError::MaxVarianceExceeded(maximum_variance.0->0)),
            ),
            !is_stale(self.timestamp, maximum_variance.0, now_seconds, now_nanos) ==> (r is Ok
                <==> self.mac_matches(request_body@, key@)),
            !is_stale(self.timestamp, maximum_variance.0, now_seconds, now_nanos) && r is Err
                ==> r->Err_0 is MacError,
    {
        if let Some(variance) = maximum_variance.0 {
            let limit: i128 = self.timestamp as i128 + variance as i128;
            if (now_seconds as i128) > limit || ((now_seconds as i128) == limit && now_nanos > 0) {
                return Err(Error::PaddleSignature(SignatureError::MaxVarianceExceeded(variance)));
            }
        }
        let payload = signed_payload_bytes(self.timestamp, request_body);
        match verify_hmac_sha256(key.as_bytes(), payload.as_slice(), self.signature.as_slice()) {
            Ok(()) => Ok(()),
            Err(e) => Err(Error::MacError(e)),
        }
    }

    /// Checks `request_body` against this signature now.
    pub fn verify(&self, request_body: &str, key: &str, maximum_variance: MaximumVariance) -> (r:
        Result<(), Error>)
        ensures
            r is Ok ==> self.mac_matches(request_body@, key@),
            maximum_variance.0 is None ==> (r is Ok <==> self.mac_matches(request_body@, key@)),
            r is Err ==> r->Err_0 is MacError || r == Err::<(), Error>(
                Error::PaddleSignature(SignatureError::MaxVarianceExceeded(maximum_variance.0->0)),
            ) && maximum_variance.0 is Some,
    {
        let (now_seconds, now_nanos) = unix_now();
        self.verify_at(request_body, key, maximum_variance, now_seconds, now_nanos)
    }
}

impl std::str::FromStr for Signature {
    type Err = Error;

    fn from_str(s: &str) -> Result<Self, Self::Err> {
        Signature::parse(s)
    }
}

/// Whether `r` is the outcome of authenticating `body` with `key` against the
/// header `header` at the given instant.
pub open spec fn authenticated_as(
    body: Seq<char>,
    key: Seq<char>,
    header: Seq<char>,
    variance: Option<u64>,
    now_seconds: i64,
    now_nanos: u32,
    r: Result<(), Error>,
) -> bool {
    match header_model(header) {
        Err(f) => r is Err && fault_of(r->Err_0) == Some(f),
        Ok((ts, mac)) => if is_stale(ts, variance, now_seconds, now_nanos) {
            r == Err::<(), Error>(Error::PaddleSignature(SignatureError::MaxVarianceExceeded(variance->0)))
        } else {
            &&& r is Ok <==> mac == hmac_sha256(encode_utf8(key), signed_payload(ts as int, body))
            &&& r is Err ==> r->Err_0 is MacError
        },
    }
}

/// Reads the signature header of a webhook request and checks its raw body
/// against it at the given instant.
pub fn authenticate_at(
    request_body: &str,
    secret_key: &str,
    signature: &str,
    maximum_variance: MaximumVariance,
    now_seconds: i64,
    now_nanos: u32,
) -> (r: Result<(), Error>)
    ensures
        authenticated_as(request_body@, secret_key@, signature@, maximum_variance.0, now_seconds, now_nanos, r),
{
    let sig = match Signature::parse(signature) {
        Ok(sig) => sig,
        Err(e) => {
            return Err(e);
        },
    };
    sig.verify_at(request_body, secret_key, maximum_variance, now_seconds, now_nanos)
}

/// Reads the signature header of a webhook request and checks its raw body
/// against it now. Only a request that passes may be trusted.
pub fn authenticate(request_body: &str, secret_key: &str, signature: &str, maximum_variance: MaximumVariance) -> (r:
    Result<(), Error>)
    ensures
        exists|now_seconds: i64, now_nanos: u32|
            authenticated_as(request_body@, secret_key@, signature@, maximum_variance.0, now_seconds, now_nanos, r),
{
    let (now_seconds, now_nanos) = unix_now();
    authenticate_at(request_body, secret_key, signature, maximum_variance, now_seconds, now_nanos)
}

proof fn lemma_occurrences_absent(s: Seq<char>, c: char)
    requires
        forall|i: int| 0 <= i < s.len() ==> s[i] != c,
    ensures
        occurrences(s, c) == 0,
    decreases s.len(),
{
    if s.len() > 0 {
        lemma_occurrences_absent(s.drop_last(), c);
    }
}

/// Splitting `a`, `c`, `b` at its single `c`, where neither side holds one.
proof fn lemma_split_once_at(a: Seq<char>, b: Seq<char>, c: char)
    requires
        forall|i: int| 0 <= i < a.len() ==> a[i] != c,
        forall|i: int| 0 <= i < b.len() ==> b[i] != c,
    ensures
        split_once(a + seq![c] + b, c) == Some((a, b)),
{
    let s = a + seq![c] + b;
    lemma_occurrences_absent(a, c);
    lemma_occurrences_absent(b, c);
    lemma_occurrences_concat(a, seq![c], c);
    assert(occurrences(seq![c], c) == 1) by {
        let one = seq![c];
        assert(one.drop_last() =~= Seq::<char>::empty());
        assert(occurrences(one.drop_last(), c) == 0);
        assert(one.last() == c);
    }
    lemma_occurrences_concat(a + seq![c], b, c);
    lemma_first_index(s, c);
    let i = first_index(s, c)->0;
    assert(s[a.len() as int] == c);
    if i > a.len() {
        assert(s.take(i) =~= (a + seq![c]) + s.take(i).skip((a.len() + 1) as int));
        lemma_occurrences_concat(a + seq![c], s.take(i).skip((a.len() + 1) as int), c);
    }
    assert(i == a.len());
    assert(s.take(i) =~= a);
    assert(s.skip(i + 1) =~= b);
}

/// The header `ts=<ts>;h1=<mac in lower-case hex>`.
pub open spec fn header_text(ts: i64, mac: Seq<u8>) -> Seq<char> {
    seq!['t', 's', '='] + decimal_text(ts as int) + seq![';', 'h', '1', '='] + hex_text(mac)
}

/// Reading a well-formed header gives back exactly the timestamp and the MAC
/// bytes that were written into it.
pub proof fn lemma_header_round_trip(ts: i64, mac: Seq<u8>)
    requires
        timestamp_representable(ts as int),
    ensures
        header_model(header_text(ts, mac)) == Ok::<(i64, Seq<u8>), HeaderFault>((ts, mac)),
{
    let d = decimal_text(ts as int);
    let h = hex_text(mac);
    lemma_decimal_literal(ts);
    lemma_hex_round_trip(mac);
    let ts_key = seq!['t', 's'];
    let h1_key = seq!['h', '1'];
    let first = ts_key + seq!['='] + d;
    let second = h1_key + seq!['='] + h;
    assert forall|i: int| 0 <= i < d.len() implies d[i] != ';' && d[i] != '=' by {
        if is_decimal_digit(d[i]) {
        } else {
            assert(d[i] == '-');
        }
    }
    assert forall|i: int| 0 <= i < h.len() implies h[i] != ';' && h[i] != '=' by {
        if is_decimal_digit(h[i]) {
        } else {
            assert(97 <= (h[i] as u32) <= 102);
        }
    }
    assert forall|i: int| 0 <= i < first.len() implies first[i] != ';' by {
        if i >= 3 {
            assert(first[i] == d[i - 3]);
        }
    }
    assert forall|i: int| 0 <= i < second.len() implies second[i] != ';' by {
        if i >= 3 {
            assert(second[i] == h[i - 3]);
        }
    }
    assert(header_text(ts, mac) =~= first + seq![';'] + second);
    lemma_split_once_at(first, second, ';');
    lemma_split_once_at(ts_key, d, '=');
    lemma_split_once_at(h1_key, h, '=');
    assert(h1_key != ts_key) by {
        assert(h1_key[0] != ts_key[0]);
    }
    assert(h.len() % 2 == 0);
}

/// A header without exactly one `;` is refused as malformed; so is one whose
/// first part does not hold exactly one `=`, and, when the first part reads
/// well, one whose second part does not.
pub proof fn lemma_malformed_header(s: Seq<char>)
    requires
        s.len() > 0,
    ensures
        occurrences(s, ';') != 1 ==> header_model(s) == Err::<(i64, Seq<u8>), HeaderFault>(
            HeaderFault::InvalidFormat,
        ),
        split_once(s, ';') matches Some((first, second)) ==> (occurrences(first, '=') != 1
            ==> header_model(s) == Err::<(i64, Seq<u8>), HeaderFault>(HeaderFault::InvalidPartFormat)),
        split_once(s, ';') matches Some((first, second)) ==> (read_part(first, (None, None)) is Ok
            && occurrences(second, '=') != 1 ==> header_model(s) == Err::<(i64, Seq<u8>), HeaderFault>(
            HeaderFault::InvalidPartFormat,
        )),
{
}

/// A signature whose MAC matches a body and key stops matching when any one
/// byte of its MAC is changed.
pub proof fn lemma_changed_mac_rejected(
    timestamp: i64,
    mac: Seq<u8>,
    body: Seq<char>,
    key: Seq<char>,
    i: int,
    b: u8,
)
    requires
        mac == hmac_sha256(encode_utf8(key), signed_payload(timestamp as int, body)),
        0 <= i < mac.len(),
        b != mac[i],
    ensures
        mac.update(i, b) != hmac_sha256(encode_utf8(key), signed_payload(timestamp as int, body)),
{
    assert(mac.update(i, b)[i] != mac[i]);
}

proof fn lemma_decimal_has_no_colon(n: i64)
    ensures
        forall|i: int| 0 <= i < decimal(n as int).len() ==> #[trigger] decimal(n as int)[i] != 58u8,
{
    lemma_decimal_literal(n);
    assert forall|i: int| 0 <= i < decimal(n as int).len() implies #[trigger] decimal(n as int)[i] != 58u8 by {
        let c = decimal_text(n as int)[i];
        assert(c == decimal(n as int)[i] as char);
        assert(is_decimal_digit(c) || c == '-');
    }
}

/// The signed payload determines the timestamp and the body it was made
/// from: changing either of them changes the bytes that the MAC covers.
pub proof fn lemma_signed_payload_injective(t1: i64, b1: Seq<char>, t2: i64, b2: Seq<char>)
    requires
        signed_payload(t1 as int, b1) == signed_payload(t2 as int, b2),
    ensures
        t1 == t2,
        b1 == b2,
{
    let d1 = decimal(t1 as int);
    let d2 = decimal(t2 as int);
    let p = signed_payload(t1 as int, b1);
    lemma_decimal_has_no_colon(t1);
    lemma_decimal_has_no_colon(t2);
    assert(p[d1.len() as int] == 58u8);
    assert(signed_payload(t2 as int, b2)[d2.len() as int] == 58u8);
    if d1.len() < d2.len() {
        assert(p[d1.len() as int] == d2[d1.len() as int]);
    }
    if d2.len() < d1.len() {
        assert(p[d2.len() as int] == d1[d2.len() as int]);
    }
    assert(d1.len() == d2.len());
    assert(d1 =~= p.take(d1.len() as int));
    assert(d2 =~= signed_payload(t2 as int, b2).take(d2.len() as int));
    assert(decimal_text(t1 as int) =~= decimal_text(t2 as int));
    lemma_decimal_literal(t1);
    lemma_decimal_literal(t2);
    assert(encode_utf8(b1) =~= p.skip((d1.len() + 1) as int));
    assert(encode_utf8(b2) =~= signed_payload(t2 as int, b2).skip((d2.len() + 1) as int));
    encode_utf8_decode_utf8(b1);
    encode_utf8_decode_utf8(b2);
}

/// With a bound of `n` seconds, a signature made at `t` is stale exactly
/// when the present instant, counted in nanoseconds, is past `t + n`
/// seconds; without a bound it never is.
pub proof fn lemma_staleness(t: i64, variance: Option<u64>, now_seconds: i64, now_nanos: u32)
    requires
        now_nanos < 1_000_000_000,
    ensures
        variance matches Some(n) ==> (is_stale(t, variance, now_seconds, now_nanos) <==> now_seconds
            * 1_000_000_000 + now_nanos > (t + n) * 1_000_000_000),
        variance is None ==> !is_stale(t, variance, now_seconds, now_nanos),
{
    if let Some(n) = variance {
        let lim: int = t + n;
        let now: int = now_seconds as int;
        let nanos: int = now_nanos as int;
        assert(now > lim ==> now * 1_000_000_000 + nanos > lim * 1_000_000_000) by (nonlinear_arith)
            requires
                0 <= nanos,
        ;
        assert(now < lim ==> now * 1_000_000_000 + nanos < lim * 1_000_000_000) by (nonlinear_arith)
            requires
                0 <= nanos < 1_000_000_000,
        ;
    }
}

} // verus!
