//! The ChaCha stream: known answers, refills, seeding and counter
//! jumps.

use enclave_rt::chacha::{chacha_core, ChaChaRng, STATE_WORDS};

#[test]
fn unseeded_stream_begins_with_known_words() {
    let mut rng = ChaChaRng::new_unseeded();
    assert_eq!(rng.next_u32(), 2917185654);
    assert_eq!(rng.next_u32(), 2419978656);
}

#[test]
fn unseeded_runs_are_identical() {
    let mut a = ChaChaRng::new_unseeded();
    let mut b = ChaChaRng::new_unseeded();
    for _ in 0..64 {
        assert_eq!(a.next_u32(), b.next_u32());
    }
}

#[test]
fn stream_crosses_buffer_refills() {
    // Drawing more than one buffer's worth forces refills; the stream
    // stays deterministic and the 33rd word differs from the 1st.
    let mut a = ChaChaRng::new_unseeded();
    let mut b = ChaChaRng::new_unseeded();
    let first = a.next_u32();
    let mut last = first;
    for _ in 0..32 {
        last = a.next_u32();
    }
    let mut expect = 0u32;
    for _ in 0..33 {
        expect = b.next_u32();
    }
    assert_eq!(last, expect);
    assert_ne!(first, last);
}

#[test]
fn core_block_of_zero_key_matches_stream_head() {
    // The first buffer of the unseeded stream is exactly one block
    // computed from the initial state: constants, zero key, zero
    // counter.
    let input: [u32; 16] = [
        0x61707865, 0x3320646E, 0x79622D32, 0x6B206574, 0, 0, 0, 0, 0, 0, 0, 0, 0, 0, 0, 0,
    ];
    let mut output: [u32; 16] = [0; 16];
    chacha_core(&mut output, &input);
    assert_eq!(output[0], 2917185654);
    assert_eq!(output[1], 2419978656);

    let mut rng = ChaChaRng::new_unseeded();
    for word in output.iter() {
        assert_eq!(rng.next_u32(), *word);
    }
}

#[test]
fn set_counter_jumps_to_the_second_block() {
    // Words 16..32 of the unseeded stream form the block at counter 1;
    // jumping the counter there replays them.
    let mut plain = ChaChaRng::new_unseeded();
    for _ in 0..STATE_WORDS {
        plain.next_u32();
    }
    let mut jumped = ChaChaRng::new_unseeded();
    jumped.set_counter(1, 0);
    for _ in 0..STATE_WORDS {
        assert_eq!(jumped.next_u32(), plain.next_u32());
    }
}

#[test]
fn set_counter_rewinds_the_stream() {
    let mut rng = ChaChaRng::new_unseeded();
    let first = rng.next_u32();
    for _ in 0..40 {
        rng.next_u32();
    }
    rng.set_counter(0, 0);
    assert_eq!(rng.next_u32(), first);
}

#[test]
fn seeded_stream_differs_from_unseeded() {
    let mut seeded = ChaChaRng::from_seed(&[1, 2, 3, 4, 5, 6, 7, 8]);
    let mut unseeded = ChaChaRng::new_unseeded();
    assert_ne!(seeded.next_u32(), unseeded.next_u32());
}

#[test]
fn short_seed_pads_with_zero_words() {
    // A short seed uses the given words and leaves the rest zero, so
    // it equals the full eight-word seed with explicit zeros.
    let mut short = ChaChaRng::from_seed(&[9, 9]);
    let mut full = ChaChaRng::from_seed(&[9, 9, 0, 0, 0, 0, 0, 0]);
    for _ in 0..32 {
        assert_eq!(short.next_u32(), full.next_u32());
    }
}

#[test]
fn empty_seed_equals_zero_key() {
    let mut empty = ChaChaRng::from_seed(&[]);
    let mut unseeded = ChaChaRng::new_unseeded();
    for _ in 0..16 {
        assert_eq!(empty.next_u32(), unseeded.next_u32());
    }
}

#[test]
fn reseed_restarts_the_stream() {
    let mut rng = ChaChaRng::from_seed(&[5, 4, 3]);
    let head: Vec<u32> = (0..8).map(|_| rng.next_u32()).collect();
    for _ in 0..25 {
        rng.next_u32();
    }
    rng.reseed(&[5, 4, 3]);
    let again: Vec<u32> = (0..8).map(|_| rng.next_u32()).collect();
    assert_eq!(head, again);
}

#[test]
fn rand_seeds_from_eight_draws_of_another_generator() {
    let mut source = ChaChaRng::new_unseeded();
    let derived = ChaChaRng::rand(&mut source);

    let mut source_again = ChaChaRng::new_unseeded();
    let mut key: [u32; 8] = [0; 8];
    for word in key.iter_mut() {
        *word = source_again.next_u32();
    }
    let mut expected = ChaChaRng::from_seed(&key);
    let mut derived = derived;
    for _ in 0..32 {
        assert_eq!(derived.next_u32(), expected.next_u32());
    }
}
