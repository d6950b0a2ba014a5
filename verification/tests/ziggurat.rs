use probability::Sampler;
use probability::ziggurat::{classify, thresholds_fit_in_24_bits, Step, LAYER_COUNT, TAIL_LAYER, THRESHOLDS};

fn word(layer: u64, fraction: u64, positive: bool) -> u64 {
    (fraction << 8) | (if positive { 0x80 } else { 0 }) | layer
}

#[test]
fn fast_path_accepts_small_fraction() {
    let u = word(1, 100, true);
    assert_eq!(
        classify(u),
        Step::Accept { positive: true, layer: 1, fraction: 100 },
    );
}

#[test]
fn threshold_boundary_is_strict() {
    assert_eq!(THRESHOLDS[1], 12590644);
    assert_eq!(
        classify(word(1, 12590643, false)),
        Step::Accept { positive: false, layer: 1, fraction: 12590643 },
    );
    assert_eq!(
        classify(word(1, 12590644, false)),
        Step::Wedge { positive: false, layer: 1, fraction: 12590644 },
    );
}

#[test]
fn base_layer_never_accepts_fast() {
    assert_eq!(
        classify(0),
        Step::Wedge { positive: false, layer: 0, fraction: 0 },
    );
    assert_eq!(
        classify(word(0, 0xABCDEF, true)),
        Step::Wedge { positive: true, layer: 0, fraction: 0xABCDEF },
    );
}

#[test]
fn tail_layer_with_large_fraction_goes_to_tail() {
    assert_eq!(classify(u64::MAX), Step::Tail { positive: true });
    assert_eq!(
        classify(word(TAIL_LAYER as u64, 0xFFFFFF, false)),
        Step::Tail { positive: false },
    );
}

#[test]
fn tail_layer_still_has_a_fast_path() {
    assert_eq!(THRESHOLDS[TAIL_LAYER], 15472926);
    assert_eq!(
        classify(word(TAIL_LAYER as u64, 0, false)),
        Step::Accept { positive: false, layer: TAIL_LAYER, fraction: 0 },
    );
    assert_eq!(
        classify(word(TAIL_LAYER as u64, 15472925, true)),
        Step::Accept { positive: true, layer: TAIL_LAYER, fraction: 15472925 },
    );
}

#[test]
fn sign_bit_flips_only_the_sign() {
    for &u in &[0u64, 0x7F, word(5, 123456, true), word(93, 16600000, false), u64::MAX] {
        let a = classify(u);
        let b = classify(u ^ 0x80);
        match (a, b) {
            (
                Step::Accept { positive: p, layer: l, fraction: f },
                Step::Accept { positive: q, layer: m, fraction: g },
            ) => {
                assert_eq!(p, !q);
                assert_eq!(l, m);
                assert_eq!(f, g);
            }
            (
                Step::Wedge { positive: p, layer: l, fraction: f },
                Step::Wedge { positive: q, layer: m, fraction: g },
            ) => {
                assert_eq!(p, !q);
                assert_eq!(l, m);
                assert_eq!(f, g);
            }
            (Step::Tail { positive: p }, Step::Tail { positive: q }) => {
                assert_eq!(p, !q);
            }
            _ => panic!("sign flip changed the kind of step"),
        }
    }
}

#[test]
fn high_bits_of_the_word_are_ignored() {
    let low = word(17, 0x123456, true);
    let high = low | 0xDEADBEEF_00000000;
    assert_eq!(classify(low), classify(high));
}

#[test]
fn thresholds_are_24_bit() {
    assert_eq!(THRESHOLDS.len(), LAYER_COUNT);
    assert!(thresholds_fit_in_24_bits());
    assert_eq!(THRESHOLDS[0], 0);
}

#[test]
fn sampler_carries_its_pair() {
    let sampler = Sampler(3u8, 7u16);
    assert_eq!(sampler.0, 3);
    assert_eq!(sampler.1, 7);
}
