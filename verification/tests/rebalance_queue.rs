use fyde::primitives::{Address, SignedAmount};
use fyde::rebalance::proxies_to_rebalance;

fn address(tag: u8) -> Address {
    Address { bytes: [tag; 20] }
}

fn delta(value: i64) -> SignedAmount {
    let fill = if value < 0 { u64::MAX } else { 0 };
    SignedAmount { raw: [value as u64, fill, fill, fill] }
}

#[test]
fn rebalance_filters_and_orders() {
    let users = vec![address(0xA), address(0xB), address(0xC), address(0xD)];
    let unbalance = vec![delta(5), delta(-3), delta(0), delta(-10)];
    let queue = proxies_to_rebalance(&users, &unbalance);
    assert_eq!(queue, vec![address(0xD), address(0xB), address(0xA)]);
}

#[test]
fn rebalance_ties_keep_the_order_of_the_list() {
    let users = vec![address(1), address(2), address(3), address(4), address(5)];
    let unbalance = vec![delta(7), delta(-2), delta(7), delta(-2), delta(7)];
    let queue = proxies_to_rebalance(&users, &unbalance);
    assert_eq!(queue, vec![address(2), address(4), address(1), address(3), address(5)]);
}

#[test]
fn rebalance_of_nobody() {
    let queue = proxies_to_rebalance(&vec![], &vec![]);
    assert_eq!(queue, Vec::<Address>::new());
    let queue = proxies_to_rebalance(&vec![address(1), address(2)], &vec![delta(0), delta(0)]);
    assert_eq!(queue, Vec::<Address>::new());
}

#[test]
fn rebalance_compares_by_the_signed_value() {
    // Most negative and most positive numbers of 256 bits, and numbers whose
    // limbs would order otherwise if read as unsigned.
    let lowest = SignedAmount { raw: [0, 0, 0, 1 << 63] };
    let highest = SignedAmount { raw: [u64::MAX, u64::MAX, u64::MAX, u64::MAX >> 1] };
    let wide_negative = SignedAmount { raw: [0, 0, u64::MAX, u64::MAX] };
    let wide_positive = SignedAmount { raw: [0, 1, 0, 0] };
    let users = vec![address(1), address(2), address(3), address(4), address(5), address(6)];
    let unbalance = vec![highest, delta(-1), wide_positive, lowest, delta(1), wide_negative];
    let queue = proxies_to_rebalance(&users, &unbalance);
    assert_eq!(
        queue,
        vec![address(4), address(6), address(2), address(5), address(3), address(1)]
    );
}

#[test]
fn rebalance_leaves_out_users_without_an_imbalance() {
    let users = vec![address(1), address(2), address(3)];
    let unbalance = vec![delta(4), delta(-4)];
    assert_eq!(proxies_to_rebalance(&users, &unbalance), vec![address(2), address(1)]);
    let users = vec![address(1)];
    let unbalance = vec![delta(4), delta(-4)];
    assert_eq!(proxies_to_rebalance(&users, &unbalance), vec![address(1)]);
}

#[test]
fn rebalance_of_a_reversed_list() {
    let users: Vec<Address> = (1..=20).map(address).collect();
    let unbalance: Vec<SignedAmount> = (1..=20).map(|k| delta(21 - k)).collect();
    let queue = proxies_to_rebalance(&users, &unbalance);
    let expected: Vec<Address> = (1..=20).rev().map(address).collect();
    assert_eq!(queue, expected);
}
