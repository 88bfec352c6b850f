//! The rollout gate: which entities a percentage lets in.
//!
//! An entity is placed by the 32-bit MurmurHash3 (x86 variant, seed 0) of its
//! id, a colon and the resource's id, each as UTF-8 bytes. A percentage `p`
//! lets in the entities whose hash `h` has `h / 2^32 * 100 < p`.
use vstd::prelude::*;
use vstd::utf8::encode_scalar;
use vstd::utf8::encode_utf8;

verus! {

pub open spec fn rotate_left(x: u32, by: u32) -> u32 {
    (x << by) | (x >> ((32 - by) as u32))
}

/// What a block of four bytes, or the bytes left over, adds to the hash.
pub open spec fn scramble(k: u32) -> u32 {
    rotate_left(k.wrapping_mul(0xcc9e_2d51), 15).wrapping_mul(0x1b87_3593)
}

/// The hash after one more block.
pub open spec fn mix(h: u32, k: u32) -> u32 {
    rotate_left(h ^ scramble(k), 13).wrapping_mul(5).wrapping_add(0xe654_6b64)
}

/// The four bytes from `at` on, the first of them lowest.
pub open spec fn block_at(bytes: Seq<u8>, at: int) -> u32 {
    (bytes[at] as u32) | ((bytes[at + 1] as u32) << 8) | ((bytes[at + 2] as u32) << 16) | ((
    bytes[at + 3] as u32) << 24)
}

/// The hash after the first `blocks` blocks of four bytes.
pub open spec fn blocks_hash(bytes: Seq<u8>, blocks: nat, seed: u32) -> u32
    decreases blocks,
{
    if blocks == 0 {
        seed
    } else {
        mix(blocks_hash(bytes, (blocks - 1) as nat, seed), block_at(bytes, 4 * (blocks - 1)))
    }
}

/// The one to three bytes after the last whole block, the first of them
/// lowest; 0 where there is none.
pub open spec fn tail_of(bytes: Seq<u8>) -> u32 {
    let at = bytes.len() - bytes.len() % 4;
    if bytes.len() % 4 == 1 {
        bytes[at] as u32
    } else if bytes.len() % 4 == 2 {
        (bytes[at] as u32) | ((bytes[at + 1] as u32) << 8)
    } else if bytes.len() % 4 == 3 {
        (bytes[at] as u32) | ((bytes[at + 1] as u32) << 8) | ((bytes[at + 2] as u32) << 16)
    } else {
        0
    }
}

/// The final avalanche.
pub open spec fn finish(h: u32) -> u32 {
    let a = (h ^ (h >> 16)).wrapping_mul(0x85eb_ca6b);
    let b = (a ^ (a >> 13)).wrapping_mul(0xc2b2_ae35);
    b ^ (b >> 16)
}

/// MurmurHash3, x86 variant, 32 bits.
pub open spec fn murmur3_32(bytes: Seq<u8>, seed: u32) -> u32 {
    let body = blocks_hash(bytes, bytes.len() / 4, seed);
    finish((body ^ scramble(tail_of(bytes))) ^ (bytes.len() as u32))
}

/// The bytes that place an entity for a resource.
pub open spec fn rollout_tag(entity_id: Seq<char>, resource_id: Seq<char>) -> Seq<u8> {
    encode_utf8(entity_id) + seq![0x3au8] + encode_utf8(resource_id)
}

/// The bytes of two texts joined are the bytes of the first followed by the
/// bytes of the second.
pub proof fn lemma_bytes_of_joined(a: Seq<char>, b: Seq<char>)
    ensures
        encode_utf8(a + b) == encode_utf8(a) + encode_utf8(b),
    decreases a.len(),
{
    if a.len() == 0 {
        assert(a + b == b);
    } else {
        lemma_bytes_of_joined(a.drop_first(), b);
        assert((a + b).drop_first() == a.drop_first() + b);
    }
}

/// The tag is the text of the entity's id, a colon and the resource's id,
/// as UTF-8.
pub proof fn law_rollout_tag_is_the_joined_text(entity_id: Seq<char>, resource_id: Seq<char>)
    ensures
        rollout_tag(entity_id, resource_id) == encode_utf8(entity_id + ":"@ + resource_id),
{
    reveal_strlit(":");
    let colon = ":"@;
    assert(encode_utf8(colon) == seq![0x3au8]) by {
        assert(colon[0] as u32 == 0x3a);
        assert((0x3au32 & 0x7F) as u8 == 0x3au8) by (bit_vector);
        assert(encode_scalar(0x3a) == seq![0x3au8]);
        assert(encode_utf8(colon.drop_first()) == Seq::<u8>::empty());
        assert(encode_utf8(colon) =~= encode_scalar(0x3a) + encode_utf8(colon.drop_first()));
    }
    lemma_bytes_of_joined(entity_id, colon);
    lemma_bytes_of_joined(entity_id + colon, resource_id);
}

/// The place of an entity for a resource.
pub open spec fn rollout_hash(entity_id: Seq<char>, resource_id: Seq<char>) -> u32 {
    murmur3_32(rollout_tag(entity_id, resource_id), 0)
}

/// Whether `percentage` lets the entity in for the resource.
pub open spec fn in_rollout(entity_id: Seq<char>, resource_id: Seq<char>, percentage: nat) -> bool {
    rollout_hash(entity_id, resource_id) * 100 < percentage * 0x1_0000_0000
}

fn rotate(x: u32, by: u32) -> (r: u32)
    requires
        0 < by < 32,
    ensures
        r == rotate_left(x, by),
{
    (x << by) | (x >> (32 - by))
}

fn scrambled(k: u32) -> (r: u32)
    ensures
        r == scramble(k),
{
    rotate(k.wrapping_mul(0xcc9e_2d51), 15).wrapping_mul(0x1b87_3593)
}

/// Computes MurmurHash3 (x86, 32 bits) of `bytes`.
pub fn hash(bytes: &[u8], seed: u32) -> (r: u32)
    ensures
        r == murmur3_32(bytes@, seed),
{
    let len: usize = bytes.len();
    let blocks: usize = len / 4;
    let mut h: u32 = seed;
    let mut j: usize = 0;
    while j < blocks
        invariant
            j <= blocks,
            blocks == len / 4,
            len == bytes@.len(),
            h == blocks_hash(bytes@, j as nat, seed),
        decreases blocks - j,
    {
        let at: usize = 4 * j;
        let k: u32 = (bytes[at] as u32) | ((bytes[at + 1] as u32) << 8) | ((bytes[at + 2] as u32)
            << 16) | ((bytes[at + 3] as u32) << 24);
        h = rotate(h ^ scrambled(k), 13).wrapping_mul(5).wrapping_add(0xe654_6b64);
        j += 1;
    }
    let at: usize = len - len % 4;
    let tail: u32 = if len % 4 == 1 {
        bytes[at] as u32
    } else if len % 4 == 2 {
        (bytes[at] as u32) | ((bytes[at + 1] as u32) << 8)
    } else if len % 4 == 3 {
        (bytes[at] as u32) | ((bytes[at + 1] as u32) << 8) | ((bytes[at + 2] as u32) << 16)
    } else {
        0
    };
    let length: u32 = #[verifier::truncate] (len as u32);
    let mixed: u32 = (h ^ scrambled(tail)) ^ length;
    let a: u32 = (mixed ^ (mixed >> 16)).wrapping_mul(0x85eb_ca6b);
    let b: u32 = (a ^ (a >> 13)).wrapping_mul(0xc2b2_ae35);
    b ^ (b >> 16)
}

/// Decides whether `percentage` lets the entity in for the resource.
///
/// No entity is in at 0; every entity is in at 100 and above; in between the
/// same two ids are in or out whenever asked.
pub fn should_rollout(percentage: u64, entity_id: &str, resource_id: &str) -> (r: bool)
    ensures
        r == in_rollout(entity_id@, resource_id@, percentage as nat),
        percentage == 0 ==> !r,
        percentage >= 100 ==> r,
{
    let mut tag: Vec<u8> = Vec::new();
    tag.extend_from_slice(entity_id.as_bytes());
    tag.push(0x3a);
    tag.extend_from_slice(resource_id.as_bytes());
    assert(tag@ == rollout_tag(entity_id@, resource_id@));
    let h: u32 = hash(tag.as_slice(), 0);
    if percentage >= 100 {
        true
    } else {
        (h as u64) * 100 < percentage * 0x1_0000_0000
    }
}

/// Whoever is let in by a percentage is let in by every larger one.
pub proof fn law_rollout_grows(
    entity_id: Seq<char>,
    resource_id: Seq<char>,
    smaller: nat,
    larger: nat,
)
    requires
        smaller <= larger,
        in_rollout(entity_id, resource_id, smaller),
    ensures
        in_rollout(entity_id, resource_id, larger),
{
}

/// Asked twice about the same entity, resource and percentage, the answer
/// is the same.
pub proof fn law_rollout_is_deterministic(
    percentage: u64,
    entity_id: &str,
    resource_id: &str,
    first: bool,
    second: bool,
)
    requires
        call_ensures(should_rollout, (percentage, entity_id, resource_id), first),
        call_ensures(should_rollout, (percentage, entity_id, resource_id), second),
    ensures
        first == second,
{
}

} // verus!
