use fyde::history::{DepositSettled, SettlementEvent, SwapSettled, WithdrawSettled};
use fyde::primitives::{Address, Amount};
use fyde::vault::{
    burned_trsy_by_swap, management_fees, settlements_of, tally_events, tax_fees, total_fees,
    trsy_value, Tally, Transfer, VaultEvent,
};

const VAULT: Address = Address { bytes: [0xAA; 20] };
const ZERO: Address = Address { bytes: [0; 20] };
const USER: Address = Address { bytes: [0x01; 20] };

fn amount(value: u64) -> Amount {
    Amount { limbs: [value, 0, 0, 0] }
}

fn transfer(from: Address, to: Address, value: u64) -> VaultEvent {
    VaultEvent::Transfer(Transfer { from, to, amount: amount(value) })
}

fn log() -> Vec<VaultEvent> {
    vec![
        transfer(ZERO, VAULT, 10),
        transfer(ZERO, USER, 1_000),
        VaultEvent::ManagementFeeCollected { fee_to_mint: amount(4) },
        VaultEvent::Other,
        transfer(VAULT, ZERO, 70),
        transfer(USER, ZERO, 5_000),
        transfer(ZERO, VAULT, 25),
        transfer(VAULT, USER, 300),
        VaultEvent::ManagementFeeCollected { fee_to_mint: amount(6) },
        transfer(VAULT, ZERO, 1),
        VaultEvent::Swap(SwapSettled { request_id: 3, amount_out: amount(9) }),
    ]
}

#[test]
fn fees_are_the_mints_to_the_vault() {
    assert_eq!(total_fees(&log(), &VAULT), Some(amount(35)));
    assert_eq!(total_fees(&log(), &USER), Some(amount(1_000)));
    assert_eq!(total_fees(&vec![], &VAULT), Some(amount(0)));
}

#[test]
fn management_fees_are_summed() {
    assert_eq!(management_fees(&log()), Some(amount(10)));
    assert_eq!(management_fees(&vec![VaultEvent::Other]), Some(amount(0)));
}

#[test]
fn burns_of_the_vault_are_summed() {
    assert_eq!(burned_trsy_by_swap(&log(), &VAULT), Some(amount(71)));
    assert_eq!(burned_trsy_by_swap(&log(), &USER), Some(amount(5_000)));
}

#[test]
fn tally_goes_by_its_kind() {
    assert_eq!(tally_events(&log(), Tally::TotalFees { vault: VAULT }), Some(amount(35)));
    assert_eq!(tally_events(&log(), Tally::ManagementFees), Some(amount(10)));
    assert_eq!(tally_events(&log(), Tally::BurnedBySwap { vault: VAULT }), Some(amount(71)));
    assert_eq!(tally_events(&log(), Tally::BurnedBySwap { vault: ZERO }), Some(amount(0)));
}

#[test]
fn sums_carry_across_limbs() {
    let events = vec![
        VaultEvent::ManagementFeeCollected { fee_to_mint: Amount { limbs: [u64::MAX, 0, 0, 0] } },
        VaultEvent::ManagementFeeCollected { fee_to_mint: Amount { limbs: [1, u64::MAX, 0, 0] } },
    ];
    assert_eq!(management_fees(&events), Some(Amount { limbs: [0, 0, 1, 0] }));
}

#[test]
fn sum_beyond_256_bits_is_none() {
    let most = Amount { limbs: [u64::MAX; 4] };
    let events = vec![
        VaultEvent::ManagementFeeCollected { fee_to_mint: most },
        VaultEvent::ManagementFeeCollected { fee_to_mint: amount(0) },
    ];
    assert_eq!(management_fees(&events), Some(most));
    let events = vec![
        VaultEvent::ManagementFeeCollected { fee_to_mint: most },
        VaultEvent::ManagementFeeCollected { fee_to_mint: amount(1) },
        VaultEvent::Other,
    ];
    assert_eq!(management_fees(&events), None);
}

#[test]
fn tax_fees_are_what_is_left_of_the_fees() {
    assert_eq!(tax_fees(&amount(35), &amount(10)), Some(amount(25)));
    assert_eq!(tax_fees(&amount(10), &amount(10)), Some(amount(0)));
    assert_eq!(tax_fees(&amount(9), &amount(10)), None);
    assert_eq!(
        tax_fees(&Amount { limbs: [0, 1, 0, 0] }, &amount(1)),
        Some(Amount { limbs: [u64::MAX, 0, 0, 0] })
    );
}

#[test]
fn share_value_is_a_rounded_down_quotient() {
    assert_eq!(trsy_value(&amount(100), &amount(7)), Some(amount(14)));
    assert_eq!(trsy_value(&amount(6), &amount(7)), Some(amount(0)));
    assert_eq!(trsy_value(&amount(0), &amount(7)), Some(amount(0)));
    assert_eq!(trsy_value(&amount(100), &amount(0)), None);
    assert_eq!(
        trsy_value(&Amount { limbs: [0, 0, 4, 0] }, &Amount { limbs: [0, 2, 0, 0] }),
        Some(Amount { limbs: [0, 2, 0, 0] })
    );
}

#[test]
fn settlements_are_taken_in_the_order_of_the_log() {
    let deposit = DepositSettled {
        request_id: 1,
        trsy_price: amount(1),
        usd_deposit_value: amount(2),
        trsy_minted: amount(3),
    };
    let withdraw = WithdrawSettled {
        request_id: 2,
        trsy_price: amount(1),
        usd_withdraw_value: amount(2),
        trsy_burned: amount(3),
    };
    let swap = SwapSettled { request_id: 3, amount_out: amount(9) };
    let events = vec![
        VaultEvent::Other,
        VaultEvent::Swap(swap),
        transfer(ZERO, VAULT, 10),
        VaultEvent::Deposit(deposit),
        VaultEvent::ManagementFeeCollected { fee_to_mint: amount(4) },
        VaultEvent::Withdraw(withdraw),
    ];
    assert_eq!(
        settlements_of(&events),
        vec![
            SettlementEvent::Swap(swap),
            SettlementEvent::Deposit(deposit),
            SettlementEvent::Withdraw(withdraw)
        ]
    );
    assert_eq!(settlements_of(&vec![VaultEvent::Other]), vec![]);
}
