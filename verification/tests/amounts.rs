use ethers::types::U256;
use transfer_executor::amount::Wei;
use transfer_executor::fee::{FeeEstimate, DEFAULT_PRIORITY_FEE, TRANSFER_GAS_LIMIT};

fn sample_limbs() -> Vec<[u64; 4]> {
    vec![
        [0, 0, 0, 0],
        [1, 0, 0, 0],
        [u64::MAX, 0, 0, 0],
        [0, 1, 0, 0],
        [u64::MAX, u64::MAX, 0, 0],
        [0x0123_4567_89ab_cdef, 0xfedc_ba98_7654_3210, 0x0f0f_0f0f_0f0f_0f0f, 0x7000_0000_0000_0001],
        [5, 4, 3, 0x8000_0000_0000_0000],
        [u64::MAX, u64::MAX, u64::MAX, 0x0000_0000_0000_ffff],
        [u64::MAX, u64::MAX, u64::MAX, u64::MAX],
    ]
}

#[test]
fn zero_is_zero() {
    assert!(Wei::zero().is_zero());
    assert_eq!(Wei::zero(), Wei::from_u64(0));
    assert_eq!(Wei::zero().to_limbs(), [0, 0, 0, 0]);
    assert!(!Wei::from_u64(1).is_zero());
    assert!(!Wei::from_limbs([0, 0, 0, 1]).is_zero());
}

#[test]
fn from_u64_fills_the_lowest_limb() {
    assert_eq!(Wei::from_u64(21_000).to_limbs(), [21_000, 0, 0, 0]);
    assert_eq!(Wei::from_u64(u64::MAX).to_limbs(), [u64::MAX, 0, 0, 0]);
}

#[test]
fn limbs_round_trip() {
    for limbs in sample_limbs() {
        assert_eq!(Wei::from_limbs(limbs).to_limbs(), limbs);
    }
}

#[test]
fn lt_orders_by_value() {
    assert!(Wei::from_u64(100).lt(&Wei::from_u64(150)));
    assert!(!Wei::from_u64(150).lt(&Wei::from_u64(100)));
    assert!(!Wei::from_u64(100).lt(&Wei::from_u64(100)));
    assert!(Wei::from_limbs([u64::MAX, 0, 0, 0]).lt(&Wei::from_limbs([0, 1, 0, 0])));
    assert!(Wei::from_limbs([u64::MAX, u64::MAX, u64::MAX, 0]).lt(&Wei::from_limbs([0, 0, 0, 1])));
    assert!(!Wei::from_limbs([0, 0, 1, 0]).lt(&Wei::from_limbs([u64::MAX, u64::MAX, 0, 0])));
}

#[test]
fn lt_agrees_with_u256() {
    for a in sample_limbs() {
        for b in sample_limbs() {
            assert_eq!(Wei::from_limbs(a).lt(&Wei::from_limbs(b)), U256(a) < U256(b));
        }
    }
}

#[test]
fn checked_add_is_exact() {
    assert_eq!(Wei::from_u64(100).checked_add(&Wei::from_u64(150)), Some(Wei::from_u64(250)));
    assert_eq!(
        Wei::from_u64(u64::MAX).checked_add(&Wei::from_u64(1)),
        Some(Wei::from_limbs([0, 1, 0, 0]))
    );
    assert_eq!(
        Wei::from_limbs([u64::MAX, u64::MAX, u64::MAX, 0]).checked_add(&Wei::from_u64(1)),
        Some(Wei::from_limbs([0, 0, 0, 1]))
    );
}

#[test]
fn checked_add_refuses_what_does_not_fit() {
    let max = Wei::from_limbs([u64::MAX, u64::MAX, u64::MAX, u64::MAX]);
    assert_eq!(max.checked_add(&Wei::from_u64(1)), None);
    assert_eq!(max.checked_add(&max), None);
    assert_eq!(max.checked_add(&Wei::zero()), Some(max));
}

#[test]
fn checked_add_agrees_with_u256() {
    for a in sample_limbs() {
        for b in sample_limbs() {
            let ours = Wei::from_limbs(a).checked_add(&Wei::from_limbs(b)).map(|w| w.to_limbs());
            let theirs = U256(a).checked_add(U256(b)).map(|u| u.0);
            assert_eq!(ours, theirs);
        }
    }
}

#[test]
fn checked_mul_u64_is_exact() {
    assert_eq!(Wei::from_u64(100).checked_mul_u64(21_000), Some(Wei::from_u64(2_100_000)));
    assert_eq!(Wei::from_u64(7).checked_mul_u64(0), Some(Wei::zero()));
    assert_eq!(
        Wei::from_u64(u64::MAX).checked_mul_u64(u64::MAX),
        Some(Wei::from_limbs([1, u64::MAX - 1, 0, 0]))
    );
    assert_eq!(
        Wei::from_limbs([0, 0, 0, 1]).checked_mul_u64(u64::MAX),
        Some(Wei::from_limbs([0, 0, 0, u64::MAX]))
    );
}

#[test]
fn checked_mul_u64_refuses_what_does_not_fit() {
    let max = Wei::from_limbs([u64::MAX, u64::MAX, u64::MAX, u64::MAX]);
    assert_eq!(max.checked_mul_u64(2), None);
    assert_eq!(max.checked_mul_u64(1), Some(max));
    assert_eq!(Wei::from_limbs([0, 0, 0, 2]).checked_mul_u64(u64::MAX), None);
}

#[test]
fn checked_mul_u64_agrees_with_u256() {
    let factors: [u64; 6] = [0, 1, 2, 21_000, 1_000_000_000, u64::MAX];
    for a in sample_limbs() {
        for factor in factors {
            let ours = Wei::from_limbs(a).checked_mul_u64(factor).map(|w| w.to_limbs());
            let theirs = U256(a).checked_mul(U256::from(factor)).map(|u| u.0);
            assert_eq!(ours, theirs);
        }
    }
}

#[test]
fn protocol_constants() {
    assert_eq!(TRANSFER_GAS_LIMIT, 21_000);
    assert_eq!(DEFAULT_PRIORITY_FEE, 1_000_000_000);
}

#[test]
fn fee_is_price_times_gas_limit() {
    let price = Wei::from_u64(3_000_000_000);
    let estimate = FeeEstimate::quote(price).unwrap();
    assert_eq!(estimate.gas_price, price);
    assert_eq!(estimate.gas_limit, 21_000);
    assert_eq!(estimate.fee, Wei::from_u64(63_000_000_000_000));
}

#[test]
fn fee_at_price_zero_is_zero() {
    let estimate = FeeEstimate::quote(Wei::zero()).unwrap();
    assert_eq!(estimate.fee, Wei::zero());
    assert_eq!(estimate.gas_limit, 21_000);
}

#[test]
fn fee_spills_into_higher_limbs() {
    let estimate = FeeEstimate::quote(Wei::from_u64(u64::MAX)).unwrap();
    assert_eq!(estimate.fee.to_limbs(), [u64::MAX - 20_999, 20_999, 0, 0]);
    assert_eq!(
        U256(estimate.fee.to_limbs()),
        U256::from(u64::MAX) * U256::from(21_000u64)
    );
}

#[test]
fn fee_that_does_not_fit_is_not_quoted() {
    let max = Wei::from_limbs([u64::MAX, u64::MAX, u64::MAX, u64::MAX]);
    assert_eq!(FeeEstimate::quote(max), None);
    let largest = U256::MAX / U256::from(21_000u64);
    assert!(FeeEstimate::quote(Wei::from_limbs(largest.0)).is_some());
    assert_eq!(FeeEstimate::quote(Wei::from_limbs((largest + U256::one()).0)), None);
}

/// A small deterministic generator, so that every run sees the same amounts.
fn next_limb(state: &mut u64) -> u64 {
    *state ^= *state << 13;
    *state ^= *state >> 7;
    *state ^= *state << 17;
    match *state % 5 {
        0 => 0,
        1 => u64::MAX,
        _ => *state,
    }
}

#[test]
fn arithmetic_agrees_with_u256_on_generated_amounts() {
    let mut state: u64 = 0x9e37_79b9_7f4a_7c15;
    let mut refused = 0;
    for _ in 0..5000 {
        let a = [
            next_limb(&mut state),
            next_limb(&mut state),
            next_limb(&mut state),
            next_limb(&mut state),
        ];
        let b = [
            next_limb(&mut state),
            next_limb(&mut state),
            next_limb(&mut state),
            next_limb(&mut state),
        ];
        let factor = next_limb(&mut state);
        let (x, y) = (Wei::from_limbs(a), Wei::from_limbs(b));
        assert_eq!(x.lt(&y), U256(a) < U256(b));
        assert_eq!(x.is_zero(), U256(a).is_zero());
        let sum = x.checked_add(&y).map(|w| w.to_limbs());
        assert_eq!(sum, U256(a).checked_add(U256(b)).map(|u| u.0));
        let product = x.checked_mul_u64(factor).map(|w| w.to_limbs());
        assert_eq!(product, U256(a).checked_mul(U256::from(factor)).map(|u| u.0));
        if sum.is_none() || product.is_none() {
            refused += 1;
        }
    }
    assert!(refused > 100);
}
