//! The colour of a group of ranks.
use fxhash::FxHasher32;
use std::hash::Hasher;
use vstd::prelude::*;

verus! {

/// The 32-bit Fx hasher.
#[verifier::external_type_specification]
#[verifier::external_body]
pub struct ExFxHasher32(FxHasher32);

/// The hash that an `FxHasher32` has reached.
pub uninterp spec fn hash_so_far(hasher: FxHasher32) -> u32;

/// The hash after one more word: the hash so far, rotated left by five bits, is
/// combined with the word by exclusive or and multiplied by a constant.
pub open spec fn hash_word(hash: u32, word: u32) -> u32 {
    let rotated: u32 = (hash << 5u32) | (hash >> 27u32);
    (((rotated ^ word) as nat * 0x2722_0a95) % 0x1_0000_0000) as u32
}

/// The hash of a sequence of numbers, each taken as the word of its bits.
pub open spec fn hash_words(words: Seq<i32>) -> u32
    decreases words.len(),
{
    if words.len() == 0 {
        0
    } else {
        hash_word(hash_words(words.drop_last()), words.last() as u32)
    }
}

/// `FxHasher32::default` starts from zero.
#[verifier::external_body]
fn new_hasher() -> (hasher: FxHasher32)
    ensures
        hash_so_far(hasher) == 0,
{
    FxHasher32::default()
}

/// `FxHasher32::write_u32` adds one word.
#[verifier::external_body]
fn write_word(hasher: &mut FxHasher32, word: u32)
    ensures
        hash_so_far(*final(hasher)) == hash_word(hash_so_far(*old(hasher)), word),
{
    hasher.write_u32(word)
}

/// `FxHasher32::finish` gives the hash, widened to 64 bits.
#[verifier::external_body]
fn finish(hasher: &FxHasher32) -> (hash: u64)
    ensures
        hash == hash_so_far(*hasher),
{
    hasher.finish()
}

/// The colour of a group: the hash of its ranks in order, reduced to a
/// non-negative `i32`.
pub open spec fn color_of(ranks: Seq<i32>) -> i32 {
    (hash_words(ranks) % 0x7fff_ffff) as i32
}

/// Computes the colour of a group of ranks.
pub fn calculate_color(ranks: &[i32]) -> (color: i32)
    ensures
        color == color_of(ranks@),
        0 <= color < i32::MAX,
{
    let mut hasher = new_hasher();
    let mut i: usize = 0;
    assert(ranks@.take(0) =~= Seq::empty());
    while i < ranks.len()
        invariant
            i <= ranks@.len(),
            hash_so_far(hasher) == hash_words(ranks@.take(i as int)),
        decreases ranks@.len() - i,
    {
        write_word(&mut hasher, ranks[i] as u32);
        assert(ranks@.take(i + 1).drop_last() =~= ranks@.take(i as int));
        i = i + 1;
    }
    assert(ranks@.take(ranks@.len() as int) =~= ranks@);
    (finish(&hasher) % (i32::MAX as u64)) as i32
}

/// A colour is the hash of the ranks less a multiple of the largest `i32`, and is below
/// that and not negative.
pub proof fn law_colour_is_the_hash_reduced(ranks: Seq<i32>)
    ensures
        0 <= color_of(ranks) < 0x7fff_ffff,
        (hash_words(ranks) - color_of(ranks)) % 0x7fff_ffff == 0,
        color_of(ranks) <= hash_words(ranks),
{
}

/// The hash takes the ranks one by one: one more rank is one more word, and no rank
/// gives zero.
pub proof fn law_hash_takes_every_rank(ranks: Seq<i32>, rank: i32)
    ensures
        hash_words(ranks.push(rank)) == hash_word(hash_words(ranks), rank as u32),
        hash_words(Seq::empty()) == 0,
{
    assert(ranks.push(rank).drop_last() =~= ranks);
}

} // verus!
