//! The draw engine: a pseudo-random value derived from public inputs, and
//! the stats rolled from it.
//!
//! The value is predictable by anyone who knows the inputs. It spreads draws
//! out; it does not make them fair against a caller who picks the moment.

use vstd::prelude::*;
use crate::clock::Clock;
use crate::identity::Pubkey;

verus! {

/// The SHA-256 digest of a byte string.
pub uninterp spec fn sha256(data: Seq<u8>) -> Seq<u8>;

/// The `width` low-order bytes of `value`, least significant first.
pub open spec fn le_bytes(value: nat, width: nat) -> Seq<u8>
    decreases width,
{
    if width == 0 {
        Seq::empty()
    } else {
        seq![(value % 256) as u8] + le_bytes(value / 256, (width - 1) as nat)
    }
}

/// The number that `bytes` spell, least significant byte first.
pub open spec fn le_value(bytes: Seq<u8>) -> nat
    decreases bytes.len(),
{
    if bytes.len() == 0 {
        0
    } else {
        bytes[0] as nat + 256 * le_value(bytes.drop_first())
    }
}

/// The 64-bit pattern of a signed number, read as an unsigned one.
pub open spec fn twos_complement(value: i64) -> nat {
    if value >= 0 {
        value as nat
    } else {
        (value + 0x1_0000_0000_0000_0000) as nat
    }
}

/// The bytes that are hashed for a draw: the slot, the timestamp, the
/// player's identity and the salt, each number as 8 little-endian bytes.
pub open spec fn random_seed_bytes(clock: Clock, player: Pubkey, salt: u64) -> Seq<u8> {
    le_bytes(clock.slot as nat, 8) + le_bytes(twos_complement(clock.unix_timestamp), 8) + player@
        + le_bytes(salt as nat, 8)
}

/// The value that a digest stands for: its first 8 bytes, little-endian.
pub open spec fn digest_value(digest: Seq<u8>) -> nat {
    le_value(digest.subrange(0, 8))
}

/// The pseudo-random value of a draw.
pub open spec fn random_value(clock: Clock, player: Pubkey, salt: u64) -> nat {
    digest_value(sha256(random_seed_bytes(clock, player, salt)))
}

/// Hashes `data` with `anchor_lang::solana_program::hash::hash` and hands
/// out the digest's bytes. That function returns the 32-byte SHA-256 digest
/// of `data`, computed in place off chain and by the runtime on chain; the
/// contract gives that digest its name and proves nothing of it.
#[verifier::external_body]
fn sha256_digest(data: &Vec<u8>) -> (digest: [u8; 32])
    ensures
        digest@ == sha256(data@),
{
    anchor_lang::solana_program::hash::hash(data.as_slice()).to_bytes()
}

/// Appends the `width` low-order bytes of `value` to `out`, least significant
/// first. Past the eighth, the bytes are zero.
pub fn push_le_bytes(out: &mut Vec<u8>, value: u64, width: usize)
    ensures
        final(out)@ == old(out)@ + le_bytes(value as nat, width as nat),
{
    let ghost start = out@;
    let mut rest: u64 = value;
    let mut i: usize = 0;
    while i < width
        invariant
            i <= width,
            start + le_bytes(value as nat, width as nat) == out@ + le_bytes(
                rest as nat,
                (width - i) as nat,
            ),
        decreases width - i,
    {
        out.push((rest % 256) as u8);
        rest = rest / 256;
        i += 1;
    }
}

/// Little-endian bytes are as many as asked for, and spell the number they
/// were made from where that number fits them.
pub proof fn lemma_le_bytes(value: nat, width: nat)
    ensures
        le_bytes(value, width).len() == width,
        value < pow256(width) ==> le_value(le_bytes(value, width)) == value,
    decreases width,
{
    if width > 0 {
        let rest = le_bytes(value / 256, (width - 1) as nat);
        lemma_le_bytes(value / 256, (width - 1) as nat);
        assert(le_bytes(value, width).drop_first() =~= rest);
    }
}

/// The bytes that are hashed for a draw are 56: three numbers of 8 bytes and
/// an identity of 32.
pub proof fn lemma_seed_len(clock: Clock, player: Pubkey, salt: u64)
    ensures
        random_seed_bytes(clock, player, salt).len() == 56,
{
    lemma_le_bytes(clock.slot as nat, 8);
    lemma_le_bytes(twos_complement(clock.unix_timestamp), 8);
    lemma_le_bytes(salt as nat, 8);
}

/// The bytes that are hashed for a draw.
pub fn random_seed(clock: &Clock, player: &Pubkey, salt: u64) -> (seed: Vec<u8>)
    ensures
        seed@ == random_seed_bytes(*clock, *player, salt),
        seed@.len() == 56,
{
    proof {
        lemma_seed_len(*clock, *player, salt);
    }
    let mut seed: Vec<u8> = Vec::new();
    push_le_bytes(&mut seed, clock.slot, 8);
    let stamp: u64 = clock.unix_timestamp as u64;
    proof {
        let t = clock.unix_timestamp;
        assert(t < 0 ==> t as u64 == t + 0x1_0000_0000_0000_0000) by (bit_vector);
    }
    push_le_bytes(&mut seed, stamp, 8);
    let ghost head = seed@;
    let mut i: usize = 0;
    while i < 32
        invariant
            i <= 32,
            seed@ == head + player@.subrange(0, i as int),
        decreases 32 - i,
    {
        seed.push(player.bytes[i]);
        i += 1;
    }
    push_le_bytes(&mut seed, salt, 8);
    seed
}

/// The value that a digest stands for: its first 8 bytes, little-endian.
pub fn random_from_digest(digest: &[u8; 32]) -> (value: u64)
    ensures
        value == digest_value(digest@),
{
    let ghost head = digest@.subrange(0, 8);
    let mut value: u64 = 0;
    let mut i: usize = 8;
    while i > 0
        invariant
            i <= 8,
            head == digest@.subrange(0, 8),
            value == le_value(head.subrange(i as int, 8)),
            value < pow256((8 - i) as nat),
        decreases i,
    {
        i -= 1;
        proof {
            let suffix = head.subrange(i as int, 8);
            assert(suffix.drop_first() =~= head.subrange(i + 1, 8));
            lemma_pow256_step((8 - i - 1) as nat);
            lemma_pow256_bound((8 - i) as nat);
        }
        value = value * 256 + digest[i] as u64;
    }
    assert(head.subrange(0, 8) =~= head);
    value
}

/// 256 to the power `n`.
pub open spec fn pow256(n: nat) -> nat
    decreases n,
{
    if n == 0 {
        1
    } else {
        256 * pow256((n - 1) as nat)
    }
}

proof fn lemma_pow256_step(n: nat)
    ensures
        pow256(n + 1) == 256 * pow256(n),
{
}

proof fn lemma_pow256_bound(n: nat)
    requires
        n <= 8,
    ensures
        pow256(n) <= 0x1_0000_0000_0000_0000,
        pow256(n) >= 1,
{
    reveal_with_fuel(pow256, 9);
}

/// Derives the pseudo-random value of a draw: the slot, the timestamp, the
/// player's identity and the salt are hashed, and the first 8 bytes of the
/// digest are read as a little-endian number.
pub fn generate_random_u64(clock: &Clock, player: &Pubkey, salt: u64) -> (value: u64)
    ensures
        value == random_value(*clock, *player, salt),
{
    let seed = random_seed(clock, player, salt);
    let digest = sha256_digest(&seed);
    random_from_digest(&digest)
}

/// Number of values in the range from `min` to `max`; 1 for an inverted
/// range.
pub open spec fn stat_span(min: u16, max: u16) -> int {
    if max >= min {
        max - min + 1
    } else {
        1
    }
}

/// The attack rolled from `random_value`: the low end of the range plus the
/// value reduced modulo the range's size.
pub open spec fn rolled_attack(min_attack: u16, max_attack: u16, random_value: u64) -> int {
    min_attack + random_value as int % stat_span(min_attack, max_attack)
}

/// The health rolled from `random_value`: as the attack, but from the upper
/// 32 bits of the value.
pub open spec fn rolled_health(min_health: u16, max_health: u16, random_value: u64) -> int {
    min_health + (random_value as int / 0x1_0000_0000) % stat_span(min_health, max_health)
}

/// Rolls attack and health inside the given ranges from one random value.
///
/// Each stat lies in its range where the range is not inverted; a range of
/// one value always yields that value.
pub fn roll_card_stats(
    min_attack: u16,
    max_attack: u16,
    min_health: u16,
    max_health: u16,
    random_value: u64,
) -> (stats: (u16, u16))
    ensures
        stats.0 == rolled_attack(min_attack, max_attack, random_value),
        stats.1 == rolled_health(min_health, max_health, random_value),
        min_attack <= max_attack ==> min_attack <= stats.0 <= max_attack,
        min_health <= max_health ==> min_health <= stats.1 <= max_health,
        min_attack >= max_attack ==> stats.0 == min_attack,
        min_health >= max_health ==> stats.1 == min_health,
{
    let attack_range: u64 = max_attack.saturating_sub(min_attack) as u64 + 1;
    let health_range: u64 = max_health.saturating_sub(min_health) as u64 + 1;
    let upper: u64 = random_value >> 32;
    assert(random_value >> 32 == random_value / 0x1_0000_0000) by (bit_vector);
    let actual_attack: u16 = min_attack + ((random_value % attack_range) as u16);
    let actual_health: u16 = min_health + ((upper % health_range) as u16);
    (actual_attack, actual_health)
}

} // verus!
