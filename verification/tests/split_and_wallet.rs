use orchestrator_mocks::{MockFamilyWallet, MockRemittanceSplit};
use soroban_sdk::Env;

#[test]
fn split_of_ten_thousand_is_forty_thirty_twenty_ten() {
    let shares = MockRemittanceSplit::split_amounts(10000);
    assert_eq!(shares, [4000, 3000, 2000, 1000]);
    assert_eq!(shares.iter().sum::<i128>(), 10000);
}

#[test]
fn calculate_split_returns_host_vector_of_the_four_shares() {
    let env = Env::default();
    let shares = MockRemittanceSplit::calculate_split(env.clone(), 10000);
    assert_eq!(shares.len(), 4);
    assert_eq!(shares.get(0), Some(4000));
    assert_eq!(shares.get(1), Some(3000));
    assert_eq!(shares.get(2), Some(2000));
    assert_eq!(shares.get(3), Some(1000));
}

#[test]
fn calculate_split_host_vector_keeps_rounding_and_sign() {
    let env = Env::default();
    let shares = MockRemittanceSplit::calculate_split(env.clone(), -1009);
    let items: std::vec::Vec<i128> = shares.iter().collect();
    assert_eq!(items, vec![-403, -302, -201, -100]);
}

#[test]
fn split_shares_are_nonnegative_and_sum_to_a_multiple_of_ten() {
    for total in [0i128, 10, 20, 1230, 999_990] {
        let shares = MockRemittanceSplit::split_amounts(total);
        assert_eq!(shares.len(), 4);
        assert!(shares.iter().all(|s| *s >= 0));
        assert_eq!(shares.iter().sum::<i128>(), total);
    }
}

#[test]
fn split_rounds_each_share_down() {
    assert_eq!(MockRemittanceSplit::split_amounts(1), [0, 0, 0, 0]);
    let shares = MockRemittanceSplit::split_amounts(5);
    assert_eq!(shares, [2, 1, 1, 0]);
    assert_eq!(shares.iter().sum::<i128>(), 4);
    let shares = MockRemittanceSplit::split_amounts(1009);
    assert_eq!(shares, [403, 302, 201, 100]);
    assert_eq!(1009 - shares.iter().sum::<i128>(), 3);
}

#[test]
fn split_of_negative_total_rounds_toward_zero() {
    assert_eq!(MockRemittanceSplit::split_amounts(-5), [-2, -1, -1, 0]);
    assert_eq!(MockRemittanceSplit::split_amounts(-10000), [-4000, -3000, -2000, -1000]);
}

#[test]
fn split_of_largest_total_that_fits() {
    let total = i128::MAX / 40;
    let shares = MockRemittanceSplit::split_amounts(total);
    assert_eq!(shares[0], total * 40 / 100);
    assert_eq!(shares[3], total / 10);
}

#[test]
fn spending_limit_admits_the_limit_itself() {
    assert!(MockFamilyWallet::check_spending_limit(10000));
    assert!(MockFamilyWallet::check_spending_limit(5000));
    assert!(MockFamilyWallet::check_spending_limit(0));
    assert!(MockFamilyWallet::check_spending_limit(-500));
    assert!(MockFamilyWallet::check_spending_limit(i128::MIN));
}

#[test]
fn spending_limit_refuses_one_above() {
    assert!(!MockFamilyWallet::check_spending_limit(10001));
    assert!(!MockFamilyWallet::check_spending_limit(15000));
    assert!(!MockFamilyWallet::check_spending_limit(i128::MAX));
}
