use guessing_game::generate_secret;

#[test]
fn secret_within_bounds() {
    for max in [1u32, 2, 10, 100, 500] {
        let s = generate_secret(max);
        assert!(s >= 1 && s <= max);
    }
}

#[test]
fn secret_with_bound_one_is_one() {
    for _ in 0..50 {
        assert_eq!(generate_secret(1), 1);
    }
}

#[test]
fn secret_within_widest_bounds() {
    for _ in 0..200 {
        let s = generate_secret(u32::MAX);
        assert!(s >= 1);
    }
}

#[test]
fn secrets_are_drawn_not_fixed() {
    let first = generate_secret(u32::MAX);
    let mut differs = false;
    for _ in 0..64 {
        if generate_secret(u32::MAX) != first {
            differs = true;
        }
    }
    assert!(differs);
}

#[test]
fn secrets_reach_both_values_of_a_pair() {
    let mut ones = 0u32;
    let mut twos = 0u32;
    for _ in 0..400 {
        match generate_secret(2) {
            1 => ones += 1,
            2 => twos += 1,
            other => panic!("secret {} outside 1..=2", other),
        }
    }
    assert!(ones > 0);
    assert!(twos > 0);
    assert_eq!(ones + twos, 400);
}
