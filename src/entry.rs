//! The bytes kept in the store: a version tag, the creation second and the payload.
//!
//! Layout: 4 bytes of version, 8 bytes of creation second (both little-endian), then the
//! payload as it is.
use vstd::prelude::*;

use crate::value::{CacheState, CachedValue, TtlSettings, classify_spec};

verus! {

/// Bytes before the payload.
pub const HEADER_LEN: usize = 12;

pub open spec fn u32_bytes(x: u32) -> Seq<u8> {
    seq![
        (x & 0xff) as u8,
        ((x >> 8u32) & 0xff) as u8,
        ((x >> 16u32) & 0xff) as u8,
        ((x >> 24u32) & 0xff) as u8,
    ]
}

pub open spec fn u64_bytes(x: u64) -> Seq<u8> {
    seq![
        (x & 0xff) as u8,
        ((x >> 8u64) & 0xff) as u8,
        ((x >> 16u64) & 0xff) as u8,
        ((x >> 24u64) & 0xff) as u8,
        ((x >> 32u64) & 0xff) as u8,
        ((x >> 40u64) & 0xff) as u8,
        ((x >> 48u64) & 0xff) as u8,
        ((x >> 56u64) & 0xff) as u8,
    ]
}

pub open spec fn u32_at(b0: u8, b1: u8, b2: u8, b3: u8) -> u32 {
    (b0 as u32) | ((b1 as u32) << 8u32) | ((b2 as u32) << 16u32) | ((b3 as u32) << 24u32)
}

pub open spec fn u64_at(b: Seq<u8>, at: int) -> u64 {
    (b[at] as u64) | ((b[at + 1] as u64) << 8u64) | ((b[at + 2] as u64) << 16u64) | ((b[at + 3] as u64)
        << 24u64) | ((b[at + 4] as u64) << 32u64) | ((b[at + 5] as u64) << 40u64) | ((b[at + 6] as u64)
        << 48u64) | ((b[at + 7] as u64) << 56u64)
}

/// The stored form of a payload written under `version` at second `created`.
pub open spec fn encoded(version: u32, created: u64, payload: Seq<u8>) -> Seq<u8> {
    u32_bytes(version) + u64_bytes(created) + payload
}

/// A decoded entry: the version it was written under, and the value.
pub struct Envelope {
    pub version: u32,
    pub value: CachedValue<Vec<u8>>,
}

/// What a byte sequence decodes to, if it is long enough to hold a header.
pub open spec fn decoded(b: Seq<u8>) -> Option<(u32, u64, Seq<u8>)> {
    if b.len() < HEADER_LEN {
        None
    } else {
        Some((u32_at(b[0], b[1], b[2], b[3]), u64_at(b, 4), b.subrange(HEADER_LEN as int, b.len() as int)))
    }
}

proof fn lemma_u32_round_trip(x: u32)
    ensures
        u32_at(u32_bytes(x)[0], u32_bytes(x)[1], u32_bytes(x)[2], u32_bytes(x)[3]) == x,
{
    assert(((((x & 0xff) as u8) as u32) | (((((x >> 8u32) & 0xff) as u8) as u32) << 8u32) | (((((x
        >> 16u32) & 0xff) as u8) as u32) << 16u32) | (((((x >> 24u32) & 0xff) as u8) as u32) << 24u32))
        == x) by (bit_vector);
}

proof fn lemma_u64_round_trip(x: u64, b: Seq<u8>, at: int)
    requires
        0 <= at,
        at + 8 <= b.len(),
        b.subrange(at, at + 8) == u64_bytes(x),
    ensures
        u64_at(b, at) == x,
{
    let s = u64_bytes(x);
    assert(b[at] == s[0] && b[at + 1] == s[1] && b[at + 2] == s[2] && b[at + 3] == s[3]);
    assert(b[at + 4] == s[4] && b[at + 5] == s[5] && b[at + 6] == s[6] && b[at + 7] == s[7]);
    assert(((((x & 0xff) as u8) as u64) | (((((x >> 8u64) & 0xff) as u8) as u64) << 8u64) | (((((x
        >> 16u64) & 0xff) as u8) as u64) << 16u64) | (((((x >> 24u64) & 0xff) as u8) as u64) << 24u64)
        | (((((x >> 32u64) & 0xff) as u8) as u64) << 32u64) | (((((x >> 40u64) & 0xff) as u8) as u64)
        << 40u64) | (((((x >> 48u64) & 0xff) as u8) as u64) << 48u64) | (((((x >> 56u64) & 0xff) as u8)
        as u64) << 56u64)) == x) by (bit_vector);
}

/// Decoding what was encoded gives back the version, the creation second and the payload.
pub proof fn lemma_decode_encoded(version: u32, created: u64, payload: Seq<u8>)
    ensures
        decoded(encoded(version, created, payload)) == Some((version, created, payload)),
{
    let b = encoded(version, created, payload);
    lemma_u32_round_trip(version);
    assert(b.subrange(4, 12) =~= u64_bytes(created));
    lemma_u64_round_trip(created, b, 4);
    assert(b.subrange(12, b.len() as int) =~= payload);
}

/// Writes the stored form of a payload.
pub fn encode_entry(version: u32, created: u64, payload: &[u8]) -> (r: Vec<u8>)
    requires
        payload@.len() + HEADER_LEN <= usize::MAX,
    ensures
        r@ == encoded(version, created, payload@),
{
    let mut out: Vec<u8> = Vec::new();
    out.push((version & 0xff) as u8);
    out.push(((version >> 8u32) & 0xff) as u8);
    out.push(((version >> 16u32) & 0xff) as u8);
    out.push(((version >> 24u32) & 0xff) as u8);
    out.push((created & 0xff) as u8);
    out.push(((created >> 8u64) & 0xff) as u8);
    out.push(((created >> 16u64) & 0xff) as u8);
    out.push(((created >> 24u64) & 0xff) as u8);
    out.push(((created >> 32u64) & 0xff) as u8);
    out.push(((created >> 40u64) & 0xff) as u8);
    out.push(((created >> 48u64) & 0xff) as u8);
    out.push(((created >> 56u64) & 0xff) as u8);
    assert(out@ =~= u32_bytes(version) + u64_bytes(created));
    let ghost header = out@;
    let mut i: usize = 0;
    while i < payload.len()
        invariant
            i <= payload@.len(),
            header == u32_bytes(version) + u64_bytes(created),
            out@ == header + payload@.subrange(0, i as int),
        decreases payload@.len() - i,
    {
        out.push(payload[i]);
        i = i + 1;
        assert(out@ =~= header + payload@.subrange(0, i as int));
    }
    assert(payload@.subrange(0, i as int) =~= payload@);
    out
}

/// Reads stored bytes back; `None` when they are too short to hold a header.
pub fn decode_entry(bytes: &[u8]) -> (r: Option<Envelope>)
    ensures
        r is None <==> decoded(bytes@) is None,
        r matches Some(e) ==> decoded(bytes@) == Some((e.version, e.value.expired, e.value.data@)),
{
    if bytes.len() < HEADER_LEN {
        return None;
    }
    let version = (bytes[0] as u32) | ((bytes[1] as u32) << 8u32) | ((bytes[2] as u32) << 16u32) | ((
    bytes[3] as u32) << 24u32);
    let created = (bytes[4] as u64) | ((bytes[5] as u64) << 8u64) | ((bytes[6] as u64) << 16u64) | ((
    bytes[7] as u64) << 24u64) | ((bytes[8] as u64) << 32u64) | ((bytes[9] as u64) << 40u64) | ((
    bytes[10] as u64) << 48u64) | ((bytes[11] as u64) << 56u64);
    let mut data: Vec<u8> = Vec::new();
    let mut i: usize = HEADER_LEN;
    while i < bytes.len()
        invariant
            HEADER_LEN <= i <= bytes@.len(),
            data@ == bytes@.subrange(HEADER_LEN as int, i as int),
        decreases bytes@.len() - i,
    {
        data.push(bytes[i]);
        i = i + 1;
        assert(data@ =~= bytes@.subrange(HEADER_LEN as int, i as int));
    }
    Some(Envelope { version, value: CachedValue { data, expired: created } })
}

/// What a read of the store means for a request of version `version` at second `now`:
/// absent, undecodable, or written under another version is a miss; otherwise the value is
/// classified by age.
pub open spec fn entry_state(bytes: Option<Seq<u8>>, version: u32, now: u64, settings: TtlSettings) -> CacheState<Seq<u8>> {
    match bytes {
        None => CacheState::Miss,
        Some(b) => match decoded(b) {
            None => CacheState::Miss,
            Some((v, created, payload)) => if v != version {
                CacheState::Miss
            } else {
                classify_spec(Some(CachedValue { data: payload, expired: created }), now, settings)
            },
        },
    }
}

/// The byte-level view of a state whose payload is still undecoded.
pub open spec fn bytes_state(s: CacheState<Vec<u8>>) -> CacheState<Seq<u8>> {
    match s {
        CacheState::Actual(v) => CacheState::Actual(CachedValue { data: v.data@, expired: v.expired }),
        CacheState::Stale(v) => CacheState::Stale(CachedValue { data: v.data@, expired: v.expired }),
        CacheState::Miss => CacheState::Miss,
    }
}

/// Interprets what the store returned for a key.
pub fn read_entry(bytes: Option<&[u8]>, version: u32, now: u64, settings: TtlSettings) -> (r: CacheState<Vec<u8>>)
    ensures
        bytes_state(r) == entry_state(
            match bytes {
                None => None,
                Some(b) => Some(b@),
            },
            version,
            now,
            settings,
        ),
{
    match bytes {
        None => CacheState::Miss,
        Some(b) => match decode_entry(b) {
            None => CacheState::Miss,
            Some(e) => {
                if e.version != version {
                    CacheState::Miss
                } else {
                    CacheState::classify(Some(e.value), now, settings)
                }
            },
        },
    }
}

/// Reading back what was just written under the same version, at its creation second,
/// gives an actual value holding the same payload and creation second.
pub proof fn lemma_round_trip(version: u32, created: u64, payload: Seq<u8>, settings: TtlSettings)
    ensures
        entry_state(Some(encoded(version, created, payload)), version, created, settings)
            == CacheState::Actual(CachedValue { data: payload, expired: created }),
{
    lemma_decode_encoded(version, created, payload);
}

/// An entry written under one version reads as a miss, never as an error, for a request of
/// any other version, whatever its age.
pub proof fn lemma_version_invalidation(
    written: u32,
    current: u32,
    created: u64,
    payload: Seq<u8>,
    now: u64,
    settings: TtlSettings,
)
    requires
        written != current,
    ensures
        entry_state(Some(encoded(written, created, payload)), current, now, settings) is Miss,
{
    lemma_decode_encoded(written, created, payload);
}

} // verus!
