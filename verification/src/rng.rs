//! Seeded pseudo-random utility: a generator derived deterministically
//! from the process-wide seed, fully reseeded whenever the seed changes,
//! so that every draw of a round is reproducible from the seed alone.

use vstd::prelude::*;
use crate::common::GameSeed;

verus! {

/// Declares rand_chacha's generator type so values of it can stand in
/// fields; its internal state stays opaque to the verifier.
#[verifier::external_type_specification]
#[verifier::external_body]
pub struct ExChaCha8Rng(rand_chacha::ChaCha8Rng);

/// The word at position `index` of the 64-bit draw stream of a ChaCha8
/// generator seeded from `seed`: the stream is a function of the seed
/// alone.
pub uninterp spec fn chacha_word(seed: u64, index: nat) -> u64;

/// The index a uniform choice over `n` candidates picks when the
/// generator's draws start at position `drawn` of the stream for `seed`.
pub uninterp spec fn chacha_pick(seed: u64, drawn: nat, n: nat) -> nat;

/// The pseudo-random generator of a round: a ChaCha8 generator together
/// with the seed it was derived from and (as ghost state) how far into
/// its stream it has drawn.
///
/// Every value of this type is built by [`GlobalRng::seeded`], so the
/// held generator is always the one `seed_value`'s stream describes,
/// positioned `drawn` 64-bit words in — as long as `aligned` holds.  A
/// uniform choice samples the stream in 32-bit halves, so after one the
/// generator may sit in the middle of a word: `aligned` is then no
/// longer known, and word positions are not spoken of again until the
/// next reseed.
pub struct GlobalRng {
    rng: rand_chacha::ChaCha8Rng,
    seed_value: u64,
    drawn: Ghost<nat>,
    aligned: Ghost<bool>,
}

/// Relies on `rand_chacha::ChaCha8Rng::seed_from_u64` (rand_core's
/// `SeedableRng`): the returned generator is a function of the seed
/// alone and the call never panics.
#[verifier::external_body]
fn chacha_from_seed(seed: u64) -> rand_chacha::ChaCha8Rng {
    <rand_chacha::ChaCha8Rng as rand::SeedableRng>::seed_from_u64(seed)
}

impl GlobalRng {
    /// The seed this generator was derived from.
    pub closed spec fn seed(&self) -> u64 {
        self.seed_value
    }

    /// How many words have been drawn since the generator was derived.
    pub closed spec fn drawn(&self) -> nat {
        self.drawn@
    }

    /// The generator sits on a whole-word boundary of its stream, so its
    /// position is the word count `drawn`.
    pub closed spec fn word_aligned(&self) -> bool {
        self.aligned@
    }

    /// Derives the generator for `seed`, its stream starting at the
    /// beginning.
    pub fn seeded(seed: u64) -> (r: GlobalRng)
        ensures
            r.seed() == seed,
            r.drawn() == 0,
            r.word_aligned(),
    {
        GlobalRng {
            rng: chacha_from_seed(seed),
            seed_value: seed,
            drawn: Ghost(0nat),
            aligned: Ghost(true),
        }
    }

    /// Relies on `rand::RngCore::next_u64` for `ChaCha8Rng`: each call
    /// yields the next word of the seed-determined stream, advances the
    /// generator by one whole word and never panics.  The word is the
    /// one at position `drawn` only while the generator is known to sit
    /// on a word boundary.
    #[verifier::external_body]
    fn raw_next_u64(&mut self) -> (r: u64)
        ensures
            final(self).seed() == old(self).seed(),
            final(self).drawn() == old(self).drawn() + 1,
            final(self).word_aligned() == old(self).word_aligned(),
            old(self).word_aligned() ==> r == chacha_word(old(self).seed(), old(self).drawn()),
    {
        rand::RngCore::next_u64(&mut self.rng)
    }

    /// Relies on `rand::seq::IndexedRandom::choose`: `None` exactly on
    /// an empty slice, otherwise `Some` of an element of the slice, at
    /// an index picked from the generator's draws and the length alone.
    /// The choice samples the stream in 32-bit halves, so afterwards the
    /// generator may sit mid-word: nothing more is said of its position.
    #[verifier::external_body]
    fn raw_choose(&mut self, pool: &Vec<u16>) -> (r: Option<u16>)
        ensures
            final(self).seed() == old(self).seed(),
            (pool@.len() == 0) <==> (r is None),
            r is Some && old(self).word_aligned() ==> chacha_pick(
                old(self).seed(),
                old(self).drawn(),
                pool@.len(),
            ) < pool@.len(),
            r is Some && old(self).word_aligned() ==> r == Some(
                pool@[chacha_pick(old(self).seed(), old(self).drawn(), pool@.len()) as int],
            ),
            r is Some ==> exists|i: int| 0 <= i < pool@.len() && r == Some(pool@[i]),
    {
        rand::seq::IndexedRandom::choose(pool.as_slice(), &mut self.rng).copied()
    }

    /// The seed this generator was derived from.
    pub fn current_seed(&self) -> (r: u64)
        ensures
            r == self.seed(),
    {
        self.seed_value
    }

    /// Draws the next 64-bit word: while the generator sits on a word
    /// boundary, the word at its current position of the stream its
    /// seed determines.
    pub fn next_u64(&mut self) -> (r: u64)
        ensures
            final(self).seed() == old(self).seed(),
            final(self).drawn() == old(self).drawn() + 1,
            final(self).word_aligned() == old(self).word_aligned(),
            old(self).word_aligned() ==> r == chacha_word(old(self).seed(), old(self).drawn()),
    {
        self.raw_next_u64()
    }
}

/// The first `n` words of the draw stream for `seed`.
pub open spec fn stream_prefix(seed: u64, n: nat) -> Seq<u64> {
    Seq::new(n, |i: int| chacha_word(seed, i as nat))
}

/// Draws `n` words in order: while the generator sits on a word
/// boundary, exactly the stream words at the positions it passes
/// through.
pub fn draw_words(rng: &mut GlobalRng, n: usize) -> (r: Vec<u64>)
    ensures
        final(rng).seed() == old(rng).seed(),
        final(rng).drawn() == old(rng).drawn() + n,
        final(rng).word_aligned() == old(rng).word_aligned(),
        r@.len() == n,
        old(rng).word_aligned() ==> forall|i: int|
            0 <= i < n ==> r@[i] == chacha_word(old(rng).seed(), (old(rng).drawn() + i) as nat),
        old(rng).word_aligned() && old(rng).drawn() == 0 ==> r@ == stream_prefix(
            old(rng).seed(),
            n as nat,
        ),
{
    let mut r: Vec<u64> = Vec::new();
    let mut i: usize = 0;
    while i < n
        invariant
            i <= n,
            rng.seed() == old(rng).seed(),
            rng.drawn() == old(rng).drawn() + i,
            rng.word_aligned() == old(rng).word_aligned(),
            r@.len() == i,
            old(rng).word_aligned() ==> forall|j: int|
                0 <= j < i ==> r@[j] == chacha_word(old(rng).seed(), (old(rng).drawn() + j) as nat),
        decreases n - i,
    {
        let w = rng.next_u64();
        r.push(w);
        i = i + 1;
    }
    proof {
        if old(rng).word_aligned() && old(rng).drawn() == 0 {
            assert(r@ =~= stream_prefix(old(rng).seed(), n as nat));
        }
    }
    r
}

/// Reseeding with the same value is reproducible: two generators derived
/// from equal seeds yield the same draw stream, word for word.
pub proof fn lemma_reseed_deterministic(a: GlobalRng, b: GlobalRng, n: nat)
    requires
        a.seed() == b.seed(),
        a.drawn() == 0,
        b.drawn() == 0,
    ensures
        stream_prefix(a.seed(), n) == stream_prefix(b.seed(), n),
{
}

/// Relies on `rand::random` for a fresh seed drawn from the
/// thread-local entropy source; nothing is promised of its value.
#[verifier::external_body]
pub fn gen_game_seed() -> u64 {
    rand::random::<u64>()
}

/// Draws a fresh seed from entropy and publishes it as the seed
/// resource.
pub fn initialize_game_seed() -> GameSeed {
    GameSeed(gen_game_seed())
}

/// Draws a fresh seed from entropy, publishes it, and derives the
/// round's generator from that same seed, its stream untouched.
pub fn initialize_rng() -> (r: (GameSeed, GlobalRng))
    ensures
        r.1.seed() == r.0.0,
        r.1.drawn() == 0,
        r.1.word_aligned(),
{
    let seed = gen_game_seed();
    (GameSeed(seed), GlobalRng::seeded(seed))
}

/// Brings the generator in line with the published seed: a seed the
/// generator was not derived from causes a full reseed — never an
/// incremental perturbation — restarting the stream; a matching seed
/// leaves the generator untouched mid-stream.
pub fn sync_rng_with_seed(game_seed: &GameSeed, rng: &mut GlobalRng)
    ensures
        final(rng).seed() == game_seed.0,
        old(rng).seed() != game_seed.0 ==> final(rng).drawn() == 0 && final(rng).word_aligned(),
        old(rng).seed() == game_seed.0 ==> *final(rng) == *old(rng),
{
    if rng.current_seed() != game_seed.0 {
        *rng = GlobalRng::seeded(game_seed.0);
    }
}

/// Picks the host's card id uniformly from `cards`; an empty pool yields
/// the sentinel id `0`, which callers treat as "no selection".  From a
/// generator on a word boundary the pick is the one its seed, position
/// and the pool size determine; the result is an element of the pool
/// either way.
pub fn get_host_card_id(rng: &mut GlobalRng, cards: &Vec<u16>) -> (r: u16)
    ensures
        final(rng).seed() == old(rng).seed(),
        cards@.len() == 0 ==> r == 0,
        cards@.len() > 0 && old(rng).word_aligned() ==> {
            &&& chacha_pick(old(rng).seed(), old(rng).drawn(), cards@.len()) < cards@.len()
            &&& r == cards@[chacha_pick(old(rng).seed(), old(rng).drawn(), cards@.len()) as int]
        },
        cards@.len() > 0 ==> exists|i: int| 0 <= i < cards@.len() && r == cards@[i],
{
    match rng.raw_choose(cards) {
        Some(id) => id,
        None => 0,
    }
}

} // verus!
