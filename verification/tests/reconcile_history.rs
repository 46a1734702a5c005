use fyde::history::{
    ActionKind, Deposit, DepositSettled, IntegrityError, MetaFromBlock, RelayerEvent, RelayerRequest,
    RequestEvent, SettlementEvent, Swap, SwapSettled, UserAction, Withdraw, WithdrawSettled,
};
use fyde::primitives::{Address, Amount, TxHash};
use fyde::reconcile::reconcile;

fn address(tag: u8) -> Address {
    Address { bytes: [tag; 20] }
}

fn amount(value: u64) -> Amount {
    Amount { limbs: [value, 0, 0, 0] }
}

fn request(id: u32, block: u32) -> RequestEvent {
    RequestEvent {
        kind: ActionKind::Deposit,
        tx_hash: TxHash { bytes: [id as u8; 32] },
        block_number: block,
        timestamp: 1_700_000_000 + block as u64,
        request_id: id,
        requestor: address(id as u8),
        asset_in: vec![address(0x11), address(0x12)],
        asset_out: vec![address(0x21), address(0x22)],
        amount_in: vec![amount(100 + id as u64), amount(200 + id as u64)],
        amount_out: vec![amount(300 + id as u64), amount(400 + id as u64)],
        keep_gov_rights: id % 2 == 0,
    }
}

fn withdraw_request(id: u32, block: u32) -> RequestEvent {
    let mut r = request(id, block);
    r.kind = ActionKind::Withdraw;
    r
}

fn swap_request(id: u32, block: u32) -> RequestEvent {
    let mut r = request(id, block);
    r.kind = ActionKind::Swap;
    r.asset_in = vec![address(0x11)];
    r.asset_out = vec![address(0x21)];
    r.amount_in = vec![amount(100 + id as u64)];
    r.amount_out = vec![amount(0)];
    r
}

fn wide_swap(id: u32) -> RequestEvent {
    let mut r = swap_request(id, 1);
    r.asset_out = vec![];
    r
}

fn deposit_settled(id: u32) -> SettlementEvent {
    SettlementEvent::Deposit(DepositSettled {
        request_id: id,
        trsy_price: amount(1_000 + id as u64),
        usd_deposit_value: amount(2_000 + id as u64),
        trsy_minted: amount(3_000 + id as u64),
    })
}

fn withdraw_settled(id: u32) -> SettlementEvent {
    SettlementEvent::Withdraw(WithdrawSettled {
        request_id: id,
        trsy_price: amount(4_000 + id as u64),
        usd_withdraw_value: amount(5_000 + id as u64),
        trsy_burned: amount(6_000 + id as u64),
    })
}

fn swap_settled(id: u32) -> SettlementEvent {
    SettlementEvent::Swap(SwapSettled { request_id: id, amount_out: amount(7_000 + id as u64) })
}

fn ids(actions: &[UserAction]) -> Vec<u32> {
    actions
        .iter()
        .map(|a| match a {
            UserAction::Deposit { request_id, .. } => *request_id,
            UserAction::Withdraw { request_id, .. } => *request_id,
            UserAction::Swap { request_id, .. } => *request_id,
        })
        .collect()
}

#[test]
fn reconciliation_is_complete() {
    let requests = vec![request(7, 10), withdraw_request(3, 11), swap_request(9, 12)];
    let settlements = vec![deposit_settled(7), withdraw_settled(3), swap_settled(9)];
    let actions = reconcile(&requests, &settlements).unwrap();
    assert_eq!(actions.len(), 3);
    match &actions[0] {
        UserAction::Deposit {
            tx_hash,
            block_number,
            timestamp,
            request_id,
            user,
            asset_in,
            amount_in,
            keep_gov_rights,
            minted_at_trsy_price,
            usd_value_deposited,
            trsy_minted,
        } => {
            assert_eq!(*tx_hash, TxHash { bytes: [7; 32] });
            assert_eq!(*block_number, 10);
            assert_eq!(*timestamp, 1_700_000_010);
            assert_eq!(*request_id, 7);
            assert_eq!(*user, address(7));
            assert_eq!(*asset_in, vec![address(0x11), address(0x12)]);
            assert_eq!(*amount_in, vec![amount(107), amount(207)]);
            assert!(!*keep_gov_rights);
            assert_eq!(*minted_at_trsy_price, amount(1_007));
            assert_eq!(*usd_value_deposited, amount(2_007));
            assert_eq!(*trsy_minted, amount(3_007));
        }
        other => panic!("not a deposit: {:?}", other),
    }
    match &actions[1] {
        UserAction::Withdraw {
            tx_hash,
            block_number,
            timestamp,
            request_id,
            user,
            asset_out,
            amount_out,
            burned_at_trsy_price,
            usd_value_withdrawn,
            trsy_burned,
        } => {
            assert_eq!(*tx_hash, TxHash { bytes: [3; 32] });
            assert_eq!(*block_number, 11);
            assert_eq!(*timestamp, 1_700_000_011);
            assert_eq!(*request_id, 3);
            assert_eq!(*user, address(3));
            assert_eq!(*asset_out, vec![address(0x21), address(0x22)]);
            assert_eq!(*amount_out, vec![amount(303), amount(403)]);
            assert_eq!(*burned_at_trsy_price, amount(4_003));
            assert_eq!(*usd_value_withdrawn, amount(5_003));
            assert_eq!(*trsy_burned, amount(6_003));
        }
        other => panic!("not a withdrawal: {:?}", other),
    }
    match &actions[2] {
        UserAction::Swap {
            tx_hash,
            block_number,
            timestamp,
            request_id,
            user,
            asset_in,
            asset_out,
            amount_in,
            amount_out,
        } => {
            assert_eq!(*tx_hash, TxHash { bytes: [9; 32] });
            assert_eq!(*block_number, 12);
            assert_eq!(*timestamp, 1_700_000_012);
            assert_eq!(*request_id, 9);
            assert_eq!(*user, address(9));
            assert_eq!(*asset_in, address(0x11));
            assert_eq!(*asset_out, address(0x21));
            assert_eq!(*amount_in, amount(109));
            assert_eq!(*amount_out, amount(7_009));
        }
        other => panic!("not a swap: {:?}", other),
    }
}

#[test]
fn reconciliation_follows_the_requests() {
    let requests = vec![request(5, 1), request(1, 2), withdraw_request(4, 2), request(2, 3)];
    let in_order = vec![deposit_settled(5), deposit_settled(1), withdraw_settled(4), deposit_settled(2)];
    let shuffled = vec![deposit_settled(2), withdraw_settled(4), deposit_settled(5), deposit_settled(1)];
    let first = reconcile(&requests, &in_order).unwrap();
    let second = reconcile(&requests, &shuffled).unwrap();
    assert_eq!(ids(&first), vec![5, 1, 4, 2]);
    assert_eq!(ids(&second), vec![5, 1, 4, 2]);
    assert_eq!(format!("{:?}", first), format!("{:?}", second));
}

#[test]
fn reconciliation_is_repeatable() {
    let requests = vec![request(1, 1), swap_request(2, 2), withdraw_request(3, 3)];
    let settlements = vec![withdraw_settled(3), swap_settled(2), deposit_settled(1)];
    let first = reconcile(&requests, &settlements);
    let second = reconcile(&requests, &settlements);
    assert_eq!(format!("{:?}", first), format!("{:?}", second));
    assert_eq!(ids(&first.unwrap()), vec![1, 2, 3]);
    let broken = vec![withdraw_settled(3), swap_settled(2)];
    let first = reconcile(&requests, &broken);
    let second = reconcile(&requests, &broken);
    assert_eq!(format!("{:?}", first), format!("{:?}", second));
}

#[test]
fn reconciliation_of_nothing() {
    let actions = reconcile(&vec![], &vec![]).unwrap();
    assert!(actions.is_empty());
}

#[test]
fn orphan_settlement_is_reported() {
    let requests = vec![request(1, 1), request(2, 2)];
    let settlements = vec![deposit_settled(1), deposit_settled(77), deposit_settled(2)];
    let outcome = reconcile(&requests, &settlements);
    assert_eq!(outcome.unwrap_err(), IntegrityError::OrphanSettlement { request_id: 77 });
}

#[test]
fn first_orphan_settlement_is_named() {
    let requests = vec![request(1, 1)];
    let settlements = vec![deposit_settled(50), deposit_settled(1), deposit_settled(40)];
    let outcome = reconcile(&requests, &settlements);
    assert_eq!(outcome.unwrap_err(), IntegrityError::OrphanSettlement { request_id: 50 });
    let outcome = reconcile(&vec![], &vec![swap_settled(8)]);
    assert_eq!(outcome.unwrap_err(), IntegrityError::OrphanSettlement { request_id: 8 });
}

#[test]
fn orphan_is_reported_before_a_duplicate() {
    let requests = vec![request(1, 1)];
    let settlements = vec![deposit_settled(1), deposit_settled(1), deposit_settled(9)];
    let outcome = reconcile(&requests, &settlements);
    assert_eq!(outcome.unwrap_err(), IntegrityError::OrphanSettlement { request_id: 9 });
}

#[test]
fn duplicate_settlement_is_reported() {
    let requests = vec![request(1, 1), request(2, 2)];
    let settlements = vec![deposit_settled(1), deposit_settled(2), withdraw_settled(1)];
    let outcome = reconcile(&requests, &settlements);
    assert_eq!(outcome.unwrap_err(), IntegrityError::DuplicateSettlement { request_id: 1 });
}

#[test]
fn duplicate_is_reported_before_a_missing_settlement() {
    let requests = vec![request(1, 1), request(2, 2)];
    let settlements = vec![deposit_settled(2), deposit_settled(2)];
    let outcome = reconcile(&requests, &settlements);
    assert_eq!(outcome.unwrap_err(), IntegrityError::DuplicateSettlement { request_id: 2 });
}

#[test]
fn missing_settlement_is_reported() {
    let requests = vec![request(1, 1), request(2, 2), request(3, 3)];
    let settlements = vec![deposit_settled(3), deposit_settled(1)];
    let outcome = reconcile(&requests, &settlements);
    assert_eq!(outcome.unwrap_err(), IntegrityError::MissingSettlement { request_id: 2 });
    let outcome = reconcile(&requests, &vec![]);
    assert_eq!(outcome.unwrap_err(), IntegrityError::MissingSettlement { request_id: 1 });
}

#[test]
fn swap_settlement_of_a_deposit_request_is_rejected() {
    let requests = vec![request(1, 1), request(2, 2)];
    let settlements = vec![deposit_settled(1), swap_settled(2)];
    let outcome = reconcile(&requests, &settlements);
    assert_eq!(outcome.unwrap_err(), IntegrityError::KindMismatch { request_id: 2 });
}

#[test]
fn settlement_of_another_kind_is_rejected() {
    let outcome = reconcile(&vec![request(1, 1)], &vec![withdraw_settled(1)]);
    assert_eq!(outcome.unwrap_err(), IntegrityError::KindMismatch { request_id: 1 });
    let outcome = reconcile(&vec![withdraw_request(1, 1)], &vec![deposit_settled(1)]);
    assert_eq!(outcome.unwrap_err(), IntegrityError::KindMismatch { request_id: 1 });
    let outcome = reconcile(&vec![swap_request(1, 1)], &vec![deposit_settled(1)]);
    assert_eq!(outcome.unwrap_err(), IntegrityError::KindMismatch { request_id: 1 });
}

#[test]
fn swap_of_several_assets_is_rejected() {
    let mut several = swap_request(2, 2);
    several.asset_in = vec![address(0x11), address(0x12)];
    let requests = vec![request(1, 1), several];
    let settlements = vec![deposit_settled(1), swap_settled(2)];
    let outcome = reconcile(&requests, &settlements);
    assert_eq!(outcome.unwrap_err(), IntegrityError::ShapeMismatch { request_id: 2 });
}

#[test]
fn swap_without_assets_is_rejected() {
    let mut empty = swap_request(4, 1);
    empty.asset_in = vec![];
    let outcome = reconcile(&vec![empty], &vec![swap_settled(4)]);
    assert_eq!(outcome.unwrap_err(), IntegrityError::ShapeMismatch { request_id: 4 });
    let mut no_amount = swap_request(4, 1);
    no_amount.amount_in = vec![];
    let outcome = reconcile(&vec![no_amount], &vec![swap_settled(4)]);
    assert_eq!(outcome.unwrap_err(), IntegrityError::ShapeMismatch { request_id: 4 });
    let mut two_out = swap_request(4, 1);
    two_out.asset_out = vec![address(1), address(2)];
    let outcome = reconcile(&vec![two_out], &vec![swap_settled(4)]);
    assert_eq!(outcome.unwrap_err(), IntegrityError::ShapeMismatch { request_id: 4 });
}

#[test]
fn first_faulty_request_is_named() {
    let requests = vec![request(1, 1), request(2, 2), wide_swap(3)];
    let settlements = vec![swap_settled(3), swap_settled(2), deposit_settled(1)];
    let outcome = reconcile(&requests, &settlements);
    assert_eq!(outcome.unwrap_err(), IntegrityError::KindMismatch { request_id: 2 });
    let requests = vec![request(1, 1), swap_request(2, 2), wide_swap(3)];
    let outcome = reconcile(&requests, &settlements);
    assert_eq!(outcome.unwrap_err(), IntegrityError::ShapeMismatch { request_id: 3 });
}

#[test]
fn requests_sharing_an_identifier_share_the_settlement() {
    let requests = vec![request(6, 1), request(6, 2)];
    let actions = reconcile(&requests, &vec![deposit_settled(6)]).unwrap();
    assert_eq!(ids(&actions), vec![6, 6]);
}

#[test]
fn merging_a_pair_with_different_identifiers_fails() {
    let r = request(1, 1);
    let mismatch = IntegrityError::RequestIdMismatch { request_id: 1, settlement_id: 2 };
    let settled = DepositSettled {
        request_id: 2,
        trsy_price: amount(1),
        usd_deposit_value: amount(2),
        trsy_minted: amount(3),
    };
    assert_eq!(Deposit::from_events(&r, &settled).unwrap_err(), mismatch);
    let settled = WithdrawSettled {
        request_id: 2,
        trsy_price: amount(1),
        usd_withdraw_value: amount(2),
        trsy_burned: amount(3),
    };
    assert_eq!(Withdraw::from_events(&withdraw_request(1, 1), &settled).unwrap_err(), mismatch);
    let settled = SwapSettled { request_id: 2, amount_out: amount(1) };
    assert_eq!(Swap::from_events(&swap_request(1, 1), &settled).unwrap_err(), mismatch);
    assert_eq!(UserAction::merge(&r, &deposit_settled(2)).unwrap_err(), mismatch);
}

#[test]
fn merging_a_pair() {
    let r = request(4, 9);
    let settled = DepositSettled {
        request_id: 4,
        trsy_price: amount(10),
        usd_deposit_value: amount(20),
        trsy_minted: amount(30),
    };
    let d = Deposit::from_events(&r, &settled).unwrap();
    assert_eq!(d.request_id, 4);
    assert_eq!(d.block_number, 9);
    assert_eq!(d.user, address(4));
    assert_eq!(d.asset_in, r.asset_in);
    assert_eq!(d.amount_in, r.amount_in);
    assert_eq!(d.keep_gov_rights, true);
    assert_eq!(d.minted_at_trsy_price, amount(10));
    assert_eq!(d.usd_value_deposited, amount(20));
    assert_eq!(d.trsy_minted, amount(30));
    let settled = WithdrawSettled {
        request_id: 4,
        trsy_price: amount(11),
        usd_withdraw_value: amount(21),
        trsy_burned: amount(31),
    };
    let kind = IntegrityError::KindMismatch { request_id: 4 };
    assert_eq!(Withdraw::from_events(&r, &settled).unwrap_err(), kind);
    assert_eq!(
        Swap::from_events(&r, &SwapSettled { request_id: 4, amount_out: amount(55) })
            .unwrap_err(),
        kind
    );
    let r = withdraw_request(4, 9);
    assert_eq!(
        Deposit::from_events(
            &r,
            &DepositSettled {
                request_id: 4,
                trsy_price: amount(10),
                usd_deposit_value: amount(20),
                trsy_minted: amount(30),
            }
        )
        .unwrap_err(),
        kind
    );
    let w = Withdraw::from_events(&r, &settled).unwrap();
    assert_eq!(w.asset_out, r.asset_out);
    assert_eq!(w.amount_out, r.amount_out);
    assert_eq!(w.burned_at_trsy_price, amount(11));
    assert_eq!(w.usd_value_withdrawn, amount(21));
    assert_eq!(w.trsy_burned, amount(31));
    let s = Swap::from_events(
        &swap_request(4, 9),
        &SwapSettled { request_id: 4, amount_out: amount(55) },
    )
    .unwrap();
    assert_eq!(s.asset_in, address(0x11));
    assert_eq!(s.asset_out, address(0x21));
    assert_eq!(s.amount_in, amount(104));
    assert_eq!(s.amount_out, amount(55));
    match UserAction::from_swap(s) {
        UserAction::Swap { amount_out, request_id, .. } => {
            assert_eq!(amount_out, amount(55));
            assert_eq!(request_id, 4);
        }
        other => panic!("not a swap: {:?}", other),
    }
}

#[test]
fn a_logged_request_takes_the_sender_as_requestor() {
    let event = RelayerRequest {
        request_id: 12,
        asset_in: vec![address(1)],
        asset_out: vec![address(2)],
        amount_in: vec![amount(3)],
        amount_out: vec![amount(4)],
        keep_gov_rights: true,
    };
    let meta = MetaFromBlock {
        tx_hash: TxHash { bytes: [0xEE; 32] },
        block_number: 19_000_000,
        timestamp: 1_710_000_000,
        from: address(0x77),
    };
    let request = RequestEvent::from_log(ActionKind::Withdraw, event, meta);
    assert_eq!(request.kind, ActionKind::Withdraw);
    assert_eq!(request.tx_hash, TxHash { bytes: [0xEE; 32] });
    assert_eq!(request.block_number, 19_000_000);
    assert_eq!(request.timestamp, 1_710_000_000);
    assert_eq!(request.request_id, 12);
    assert_eq!(request.requestor, address(0x77));
    assert_eq!(request.asset_in, vec![address(1)]);
    assert_eq!(request.asset_out, vec![address(2)]);
    assert_eq!(request.amount_in, vec![amount(3)]);
    assert_eq!(request.amount_out, vec![amount(4)]);
    assert!(request.keep_gov_rights);
}

#[test]
fn only_request_kinds_hold_a_request() {
    let make = |id: u32| RelayerRequest {
        request_id: id,
        asset_in: vec![],
        asset_out: vec![],
        amount_in: vec![],
        amount_out: vec![],
        keep_gov_rights: false,
    };
    let (kind, request) = RelayerEvent::Deposit(make(1)).into_request().unwrap();
    assert_eq!((kind, request.request_id), (ActionKind::Deposit, 1));
    let (kind, request) = RelayerEvent::Withdraw(make(2)).into_request().unwrap();
    assert_eq!((kind, request.request_id), (ActionKind::Withdraw, 2));
    let (kind, request) = RelayerEvent::Swap(make(3)).into_request().unwrap();
    assert_eq!((kind, request.request_id), (ActionKind::Swap, 3));
    assert!(RelayerEvent::Other.into_request().is_none());
}

#[test]
fn settlement_knows_its_request() {
    assert_eq!(deposit_settled(5).request_id(), 5);
    assert_eq!(withdraw_settled(6).request_id(), 6);
    assert_eq!(swap_settled(7).request_id(), 7);
    assert_eq!(deposit_settled(5).kind(), ActionKind::Deposit);
    assert_eq!(withdraw_settled(6).kind(), ActionKind::Withdraw);
    assert_eq!(swap_settled(7).kind(), ActionKind::Swap);
}
