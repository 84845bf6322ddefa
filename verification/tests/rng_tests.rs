use guess_who::{
    GameSeed, GlobalRng, draw_words, gen_game_seed, get_host_card_id, initialize_game_seed,
    initialize_rng, sync_rng_with_seed,
};
use rand::RngCore;
use rand::SeedableRng;
use rand::seq::IndexedRandom;
use rand_chacha::ChaCha8Rng;

#[test]
fn reseeding_with_the_same_seed_replays_the_stream() {
    let mut a = GlobalRng::seeded(42);
    let mut b = GlobalRng::seeded(42);
    let wa = draw_words(&mut a, 8);
    let wb = draw_words(&mut b, 8);
    assert_eq!(wa, wb);
}

#[test]
fn different_seeds_give_different_streams() {
    let mut a = GlobalRng::seeded(42);
    let mut b = GlobalRng::seeded(43);
    assert_ne!(draw_words(&mut a, 8), draw_words(&mut b, 8));
}

#[test]
fn wrapper_draws_match_the_underlying_generator() {
    // The library's generator must replay exactly what a ChaCha8
    // generator seeded the same way produces.
    let mut ours = GlobalRng::seeded(42);
    let mut reference = ChaCha8Rng::seed_from_u64(42);
    for _ in 0..5 {
        assert_eq!(ours.next_u64(), reference.next_u64());
    }
}

#[test]
fn sync_reseeds_on_a_changed_seed() {
    let mut rng = GlobalRng::seeded(1);
    let before = draw_words(&mut rng, 4);
    sync_rng_with_seed(&GameSeed(1), &mut rng);
    // Same seed: untouched mid-stream, so the next words continue where
    // a fresh generator's words 4.. would.
    let mut fresh = GlobalRng::seeded(1);
    let fresh_words = draw_words(&mut fresh, 8);
    assert_eq!(before, fresh_words[..4]);
    assert_eq!(draw_words(&mut rng, 4), fresh_words[4..]);
    // Changed seed: a full reseed, restarting the stream.
    sync_rng_with_seed(&GameSeed(2), &mut rng);
    assert_eq!(rng.current_seed(), 2);
    let mut fresh2 = GlobalRng::seeded(2);
    assert_eq!(draw_words(&mut rng, 4), draw_words(&mut fresh2, 4));
}

#[test]
fn host_card_choice_is_deterministic_for_a_seed() {
    let pool = vec![7u16, 3, 9];
    let mut a = GlobalRng::seeded(42);
    let mut b = GlobalRng::seeded(42);
    let ca = get_host_card_id(&mut a, &pool);
    let cb = get_host_card_id(&mut b, &pool);
    assert_eq!(ca, cb);
    assert!(pool.contains(&ca));
}

#[test]
fn host_card_choice_matches_the_underlying_choose() {
    let pool = vec![7u16, 3, 9];
    let mut ours = GlobalRng::seeded(42);
    let mut reference = ChaCha8Rng::seed_from_u64(42);
    let expected = *pool.as_slice().choose(&mut reference).unwrap();
    assert_eq!(get_host_card_id(&mut ours, &pool), expected);
}

#[test]
fn empty_pool_yields_the_sentinel() {
    let mut rng = GlobalRng::seeded(42);
    assert_eq!(get_host_card_id(&mut rng, &Vec::new()), 0);
}

#[test]
fn initialize_rng_derives_the_generator_from_the_published_seed() {
    let (seed, mut rng) = initialize_rng();
    assert_eq!(rng.current_seed(), seed.0);
    // Draws are reproducible from the published seed alone.
    let words = draw_words(&mut rng, 4);
    let mut replay = GlobalRng::seeded(seed.0);
    assert_eq!(words, draw_words(&mut replay, 4));
}

#[test]
fn fresh_seeds_are_published_as_drawn() {
    let seed = initialize_game_seed();
    let mut rng = GlobalRng::seeded(seed.0);
    sync_rng_with_seed(&seed, &mut rng);
    assert_eq!(rng.current_seed(), seed.0);
    // Two entropy draws almost surely differ; equality here would mean
    // the source is stuck on a constant.
    assert_ne!(gen_game_seed(), gen_game_seed());
}
