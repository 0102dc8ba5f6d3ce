use mystery_soup::GenState;

#[test]
fn float_reference_vector() {
    // Exact trace of the synthesizer from state 1, increment 1.
    let (bits, succ) = mystery_soup::next_float_bits(GenState { state: 1, increment: 1 });
    assert_eq!(bits, 0x3d9c6516);
    assert_eq!(succ.state, 0xcbb5f646404a560c);
    assert_eq!(succ.increment, 1);
    let f = f32::from_bits(bits);
    assert!(f > 0.07 && f < 0.08);
}

#[test]
fn float_reference_vector_second_seed() {
    let (bits, _) = mystery_soup::next_float_bits(GenState { state: 42, increment: 1 });
    assert_eq!(bits, 0x3e6c0038);
}

#[test]
fn float_is_deterministic() {
    let s = GenState { state: 0x9e3779b97f4a7c15, increment: 0xda3e39cb94b95bdb };
    assert_eq!(mystery_soup::next_float_bits(s), mystery_soup::next_float_bits(s));
}

#[test]
fn distribution_sanity() {
    // 10^5 draws from a fixed seed: every value in [0,1), none equal to
    // 1.0, and the empirical mean close to 0.5.
    let mut s = GenState { state: 42, increment: 1 };
    let mut sum: f64 = 0.0;
    let n = 100_000;
    for _ in 0..n {
        let (bits, succ) = mystery_soup::next_float_bits(s);
        s = succ;
        let f = f32::from_bits(bits);
        assert!(f >= 0.0);
        assert!(f < 1.0);
        sum += f as f64;
    }
    let mean = sum / (n as f64);
    assert!((mean - 0.5).abs() < 0.005, "mean was {mean}");
}

#[test]
fn small_value_resolution() {
    // This state's first two supply words are all zero, so the geometric
    // search walks at least 62 binades down and the result lies strictly
    // below 2^-32 — unreachable for a naive `word / 2^32` conversion.
    let s = GenState { state: 4568919932995229531, increment: 1 };
    let (bits, _) = mystery_soup::next_float_bits(s);
    assert_eq!(bits >> 23, 61);
    let f = f32::from_bits(bits);
    assert!(f > 0.0);
    assert!((f as f64) < 2.0f64.powi(-32));
}

#[test]
fn boundary_correction_rounds_up_only_on_one_bit() {
    // A zero mantissa rounds the binade boundary up exactly when the
    // designated follow-up bit is 1.
    assert_eq!(mystery_soup::float::correct_exponent(100, 0, 1), 101);
    assert_eq!(mystery_soup::float::correct_exponent(100, 0, 0), 100);
    assert_eq!(mystery_soup::float::correct_exponent(100, 5, 1), 100);
    assert_eq!(mystery_soup::float::correct_exponent(126, 0, 1), 127);
    assert_eq!(mystery_soup::float::correct_exponent(0, 0, 0), 0);
}

#[test]
fn bit_supply_serves_low_bits_first() {
    // A synthetic supply word: bits come out least-significant first and
    // the generator is not consulted while bits remain.
    let mut s = GenState { state: 9, increment: 7 };
    let mut word: u32 = 0b101;
    let mut avail: u32 = 3;
    assert_eq!(mystery_soup::float::get_bit(&mut s, &mut word, &mut avail), 1);
    assert_eq!(mystery_soup::float::get_bit(&mut s, &mut word, &mut avail), 0);
    assert_eq!(mystery_soup::float::get_bit(&mut s, &mut word, &mut avail), 1);
    assert_eq!(avail, 0);
    assert_eq!(s, GenState { state: 9, increment: 7 });
}

#[test]
fn bit_supply_refills_when_empty() {
    // With no bits on hand the supply draws a fresh word and offers 31 of
    // its bits; state 1 yields the all-zero output word.
    let mut s = GenState { state: 1, increment: 1 };
    let mut word: u32 = 0xffff_ffff;
    let mut avail: u32 = 0;
    let bit = mystery_soup::float::get_bit(&mut s, &mut word, &mut avail);
    assert_eq!(bit, 0);
    assert_eq!(avail, 30);
    assert_eq!(s.state, 6364136223846793006);
}
