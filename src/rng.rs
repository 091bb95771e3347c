use vstd::prelude::*;
use rand_chacha::ChaCha20Rng;

verus! {

#[verifier::external_type_specification]
#[verifier::external_body]
pub struct ExChaCha20Rng(ChaCha20Rng);

/// Generator that rolls are drawn from.
pub type TriangleAgencyRng = ChaCha20Rng;

/// A wall-clock reading: whole seconds since the Unix epoch, and the
/// nanoseconds since the last second boundary.
#[derive(Debug, Clone, Copy, PartialEq, Eq, Structural)]
pub struct ClockReading {
    pub seconds: i64,
    pub subsec_nanos: u32,
}

/// The SHA-256 digest of a byte sequence.
pub uninterp spec fn sha256_of(data: Seq<u8>) -> Seq<u8>;

/// The seed that a ChaCha20 generator was keyed with.
pub uninterp spec fn chacha_seed_of(g: ChaCha20Rng) -> Seq<u8>;

/// The lowest `n` bytes of a number, least significant first.
pub open spec fn le_bytes(v: nat, n: nat) -> Seq<u8>
    decreases n,
{
    if n == 0 {
        seq![]
    } else {
        seq![(v % 256) as u8] + le_bytes(v / 256, (n - 1) as nat)
    }
}

/// A signed 64-bit number as the unsigned number with the same two's
/// complement bits.
pub open spec fn twos_complement(v: i64) -> nat {
    if v < 0 {
        (v + 0x1_0000_0000_0000_0000) as nat
    } else {
        v as nat
    }
}

/// What is hashed into a seed: the feed, then the nanoseconds (4 bytes,
/// little-endian), then the seconds (8 bytes, little-endian, signed).
pub open spec fn seed_bytes(feed: Seq<u8>, now: ClockReading) -> Seq<u8> {
    feed + le_bytes(now.subsec_nanos as nat, 4) + le_bytes(twos_complement(now.seconds), 8)
}

/// Relies on chrono::Utc::now, read through DateTime::timestamp and
/// DateTime::timestamp_subsec_nanos: the current time in UTC.
#[verifier::external_body]
fn wall_clock() -> (r: ClockReading) {
    let now = chrono::Utc::now();
    ClockReading { seconds: now.timestamp(), subsec_nanos: now.timestamp_subsec_nanos() }
}

/// Relies on sha2::Sha256 through Digest::digest: the 32-byte SHA-256 digest.
#[verifier::external_body]
fn sha256(data: &Vec<u8>) -> (r: [u8; 32])
    ensures
        r@ == sha256_of(data@),
{
    <sha2::Sha256 as sha2::Digest>::digest(data.as_slice()).into()
}

/// Relies on rand_chacha's SeedableRng::from_seed for ChaCha20Rng: a
/// generator keyed by the 32 bytes, which ChaCha20Rng::get_seed gives back.
#[verifier::external_body]
fn generator_from_seed(seed: [u8; 32]) -> (r: TriangleAgencyRng)
    ensures
        chacha_seed_of(r) == seed@,
{
    <ChaCha20Rng as rand::SeedableRng>::from_seed(seed)
}

/// Relies on rand::Rng::random_range over `1..=4`: a number from that range,
/// drawn from the generator.
#[verifier::external_body]
pub(crate) fn draw_d4(rng: &mut TriangleAgencyRng) -> (r: u8)
    ensures
        1 <= r <= 4,
{
    rand::Rng::random_range(rng, 1..=4u8)
}

/// Append the lowest `n` bytes of `v`, least significant first.
fn push_le_bytes(out: &mut Vec<u8>, v: u64, n: usize)
    ensures
        final(out)@ == old(out)@ + le_bytes(v as nat, n as nat),
{
    let mut rest: u64 = v;
    let mut k: usize = 0;
    while k < n
        invariant
            k <= n,
            out@ + le_bytes(rest as nat, (n - k) as nat) == old(out)@ + le_bytes(v as nat, n as nat),
        decreases n - k,
    {
        let ghost before = out@;
        out.push((rest % 256) as u8);
        proof {
            assert(before + le_bytes(rest as nat, (n - k) as nat) =~= out@ + le_bytes(
                (rest / 256) as nat,
                (n - k - 1) as nat,
            ));
        }
        rest = rest / 256;
        k = k + 1;
    }
    assert(out@ + le_bytes(rest as nat, 0) =~= out@);
}

/// The bytes to hash for a seed: the feed followed by the clock reading.
pub fn seed_material(seed_feed: Vec<u8>, now: ClockReading) -> (r: Vec<u8>)
    ensures
        r@ == seed_bytes(seed_feed@, now),
{
    let mut bytes = seed_feed;
    push_le_bytes(&mut bytes, now.subsec_nanos as u64, 4);
    let seconds: u64 = if now.seconds < 0 {
        ((now.seconds + i64::MAX + 1) as u64) + 0x8000_0000_0000_0000
    } else {
        now.seconds as u64
    };
    push_le_bytes(&mut bytes, seconds, 8);
    assert(bytes@ =~= seed_bytes(seed_feed@, now));
    bytes
}

/// The 256-bit seed for a feed and a clock reading: the SHA-256 digest of
/// the feed followed by the reading.
pub fn derive_seed(seed_feed: Vec<u8>, now: ClockReading) -> (r: [u8; 32])
    ensures
        r@ == sha256_of(seed_bytes(seed_feed@, now)),
{
    let bytes = seed_material(seed_feed, now);
    sha256(&bytes)
}

/// The generator for a seed feed and a clock reading: ChaCha20 keyed with
/// the SHA-256 digest of the feed followed by the reading.
pub fn create_rng_at(seed_feed: Vec<u8>, now: ClockReading) -> (r: TriangleAgencyRng)
    ensures
        chacha_seed_of(r) == sha256_of(seed_bytes(seed_feed@, now)),
{
    let seed = derive_seed(seed_feed, now);
    generator_from_seed(seed)
}

/// Creates a generator from a seed feed and the current time.
///
/// The feed may have any length; the time is appended to it and the
/// whole is hashed into a seed of the right length.
pub fn create_rng(seed_feed: impl Into<Vec<u8>>) -> (r: TriangleAgencyRng)
    ensures
        exists|feed: Seq<u8>, now: ClockReading|
            #[trigger] sha256_of(seed_bytes(feed, now)) == chacha_seed_of(r),
{
    let seed_feed: Vec<u8> = seed_feed.into();
    let now = wall_clock();
    let ghost feed = seed_feed@;
    let r = create_rng_at(seed_feed, now);
    assert(sha256_of(seed_bytes(feed, now)) == chacha_seed_of(r));
    r
}

} // verus!
