use counter_machine::u256::U256;

#[test]
fn zero_max_and_from_u64() {
    assert!(U256::zero().is_zero());
    assert!(!U256::max().is_zero());
    assert_eq!(U256::from_u64(0), U256::zero());
    assert_eq!(
        U256::from_limbs([u64::MAX, u64::MAX, u64::MAX, u64::MAX]),
        U256::max()
    );
}

#[test]
fn limbs_round_trip() {
    let limbs = [1u64, 2, 3, 4];
    assert_eq!(limbs, U256::from_limbs(limbs).to_limbs());
    assert_eq!([7, 0, 0, 0], U256::from_u64(7).to_limbs());
}

#[test]
fn checked_add_exact_values() {
    let a = U256::from_u64(40);
    let b = U256::from_u64(2);
    assert_eq!(Some(U256::from_u64(42)), a.checked_add(&b));
    // Carries ripple through every limb.
    let low_full = U256::from_limbs([u64::MAX, u64::MAX, u64::MAX, 0]);
    assert_eq!(
        Some(U256::from_limbs([0, 0, 0, 1])),
        low_full.checked_add(&U256::from_u64(1))
    );
}

#[test]
fn checked_add_overflow_boundary() {
    assert_eq!(Some(U256::max()), U256::max().checked_add(&U256::zero()));
    assert_eq!(None, U256::max().checked_add(&U256::from_u64(1)));
    assert_eq!(None, U256::max().checked_add(&U256::max()));
}

#[test]
fn checked_mul_exact_values() {
    let a = U256::from_u64(6);
    let b = U256::from_u64(7);
    assert_eq!(Some(U256::from_u64(42)), a.checked_mul(&b));
    assert_eq!(Some(U256::zero()), U256::max().checked_mul(&U256::zero()));
    assert_eq!(Some(U256::max()), U256::max().checked_mul(&U256::from_u64(1)));
    // (2^64 + 1) * (2^64 - 1) == 2^128 - 1.
    let a = U256::from_limbs([1, 1, 0, 0]);
    let b = U256::from_u64(u64::MAX);
    assert_eq!(
        Some(U256::from_limbs([u64::MAX, u64::MAX, 0, 0])),
        a.checked_mul(&b)
    );
}

#[test]
fn checked_mul_overflow_boundary() {
    // 2^255 doubled is exactly 2^256.
    let half = U256::from_limbs([0, 0, 0, 0x8000_0000_0000_0000]);
    assert_eq!(None, half.checked_mul(&U256::from_u64(2)));
    assert_eq!(None, U256::max().checked_mul(&U256::from_u64(2)));
    assert_eq!(None, U256::max().checked_mul(&U256::max()));
    // One below the boundary still fits: (2^255 - 1) * 2 == 2^256 - 2.
    let below = U256::from_limbs([u64::MAX, u64::MAX, u64::MAX, 0x7fff_ffff_ffff_ffff]);
    assert_eq!(
        Some(U256::from_limbs([
            u64::MAX - 1,
            u64::MAX,
            u64::MAX,
            u64::MAX
        ])),
        below.checked_mul(&U256::from_u64(2))
    );
}
