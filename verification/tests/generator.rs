use mystery_soup::GenState;

#[test]
fn advance_reference_vector() {
    // The PCG XSH-RR 64/32 reference output for state 1, increment 1.
    let (out, succ) = mystery_soup::next(GenState { state: 1, increment: 1 });
    assert_eq!(out, 0);
    assert_eq!(succ.state, 6364136223846793006);
    assert_eq!(succ.increment, 1);
}

#[test]
fn advance_is_deterministic() {
    let s = GenState { state: 0x853c49e6748fea9b, increment: 0xda3e39cb94b95bdb };
    let first = mystery_soup::next(s);
    let second = mystery_soup::next(s);
    assert_eq!(first, second);
}

#[test]
fn advance_keeps_input_usable() {
    let s = GenState { state: 777, increment: 3 };
    let before = s;
    let (out, succ) = mystery_soup::next(s);
    // The input value is untouched and can be advanced again independently.
    assert_eq!(s, before);
    let (out2, succ2) = mystery_soup::next(s);
    assert_eq!(out, out2);
    assert_eq!(succ, succ2);
    assert_ne!(succ.state, s.state);
}

#[test]
fn advance_carries_increment() {
    let s = GenState { state: 0xdeadbeef, increment: 0x1234567 };
    let (_, succ) = mystery_soup::next(s);
    assert_eq!(succ.increment, s.increment);
}

#[test]
fn advance_matches_outside_pcg() {
    let cases: [(u64, u64); 4] = [
        (1, 1),
        (0x853c49e6748fea9b, 0xda3e39cb94b95bdb),
        (42, 12345),
        (u64::MAX, 987654321),
    ];
    for (state, inc) in cases {
        let mut reference = randomize::PCG32::new(state, inc);
        let expect = reference.next_u32();
        let (out, succ) = mystery_soup::next(GenState { state, increment: inc });
        assert_eq!(out, expect);
        assert_eq!(succ.state, reference.state);
        assert_eq!(succ.increment, inc);
    }
}
