use fyde::decay::Checkpoint;
use fyde::history::MetaFromBlock;
use fyde::metadata::{block_to_fetch, resolve, BlockInfo, MetadataError, TransactionInfo};
use fyde::primitives::{Address, Amount, TxHash};
use fyde::user::{
    governance_reads, pair_results, proxy_of, AssetAmount, GovernanceData, GovernanceField,
    GovernanceRead,
};
use fyde::ve_fyde::{contains_address, holders_of, EscrowEvent, LockPosition, VeFydeUser};

fn address(tag: u8) -> Address {
    Address { bytes: [tag; 20] }
}

fn amount(value: u64) -> Amount {
    Amount { limbs: [value, 0, 0, 0] }
}

fn pair(tag: u8, value: u64) -> AssetAmount {
    AssetAmount { asset: address(tag), amount: amount(value) }
}

#[test]
fn holders_are_listed_once_in_order_of_first_lock() {
    let events = vec![
        EscrowEvent::UpdateLock { user: address(3) },
        EscrowEvent::Other,
        EscrowEvent::UpdateLock { user: address(1) },
        EscrowEvent::UpdateLock { user: address(3) },
        EscrowEvent::UpdateLock { user: address(2) },
        EscrowEvent::UpdateLock { user: address(1) },
    ];
    assert_eq!(holders_of(&events), vec![address(3), address(1), address(2)]);
    assert_eq!(holders_of(&vec![]), vec![]);
    assert_eq!(holders_of(&vec![EscrowEvent::Other]), vec![]);
}

#[test]
fn address_is_found_in_a_list() {
    let list = vec![address(1), address(2)];
    assert!(contains_address(&list, &address(2)));
    assert!(!contains_address(&list, &address(3)));
    assert!(!contains_address(&vec![], &address(1)));
}

#[test]
fn empty_position_shows_blank() {
    let checkpoint = Checkpoint { bias: 5, slope: 1, timestamp: 9 };
    for position in [
        LockPosition { ve_fyde_balance: 7, fyde_locked: 8, expiry: 100, history_length: 0 },
        LockPosition { ve_fyde_balance: 7, fyde_locked: 8, expiry: 0, history_length: 3 },
    ] {
        assert_eq!(position.last_checkpoint_index(), None);
        let user = VeFydeUser::describe(&position, checkpoint, true);
        assert_eq!(user.ve_fyde_balance, 0);
        assert_eq!(user.fyde_locked, 0);
        assert_eq!(user.last_locking_date, 0);
        assert_eq!(user.history_length, 0);
        assert_eq!(user.lock_duration_in_days, 0);
        assert_eq!(user.unlock_date, 0);
        assert!(user.ve_balance_chart.is_none());
    }
    let blank = VeFydeUser::default();
    assert_eq!(blank.unlock_date, 0);
    assert!(blank.ve_balance_chart.is_none());
}

#[test]
fn position_is_shown_with_its_chart() {
    let position =
        LockPosition { ve_fyde_balance: 70, fyde_locked: 80, expiry: 200_000, history_length: 4 };
    assert_eq!(position.last_checkpoint_index(), Some(3));
    let checkpoint = Checkpoint { bias: 1_000_000, slope: 2, timestamp: 1_000 };
    let user = VeFydeUser::describe(&position, checkpoint, true);
    assert_eq!(user.ve_fyde_balance, 70);
    assert_eq!(user.fyde_locked, 80);
    assert_eq!(user.last_locking_date, 1_000);
    assert_eq!(user.history_length, 4);
    assert_eq!(user.lock_duration_in_days, 199_000);
    assert_eq!(user.unlock_date, 200_000);
    let chart = user.ve_balance_chart.unwrap();
    assert_eq!(chart.ts, vec![1_000, 87_400, 173_800, 200_000]);
    assert_eq!(chart.ve_balance, vec![998_000, 825_200, 652_400, 600_000]);
    let user = VeFydeUser::describe(&position, checkpoint, false);
    assert!(user.ve_balance_chart.is_none());
    assert_eq!(user.lock_duration_in_days, 199_000);
}

#[test]
fn lock_that_ended_before_its_checkpoint_has_no_length() {
    let position =
        LockPosition { ve_fyde_balance: 1, fyde_locked: 2, expiry: 500, history_length: 1 };
    let checkpoint = Checkpoint { bias: 1_000, slope: 1, timestamp: 900 };
    let user = VeFydeUser::describe(&position, checkpoint, true);
    assert_eq!(user.lock_duration_in_days, 0);
    assert_eq!(user.last_locking_date, 900);
    assert_eq!(user.unlock_date, 500);
    assert_eq!(user.ve_balance_chart.unwrap().ts, vec![500]);
}

#[test]
fn governance_reads_are_three_per_asset() {
    let reads = governance_reads(&vec![address(1), address(2)]);
    let read = |field, tag| GovernanceRead { field, asset: address(tag) };
    assert_eq!(
        reads,
        vec![
            read(GovernanceField::StrsyBalance, 1),
            read(GovernanceField::ProxyBalance, 1),
            read(GovernanceField::UserGtAllowance, 1),
            read(GovernanceField::StrsyBalance, 2),
            read(GovernanceField::ProxyBalance, 2),
            read(GovernanceField::UserGtAllowance, 2),
        ]
    );
    assert_eq!(governance_reads(&vec![]), vec![]);
}

#[test]
fn governance_results_are_laid_out_by_figure() {
    let assets = vec![address(1), address(2)];
    let res: Vec<Amount> = (10..16).map(amount).collect();
    let data = GovernanceData::from_results(&assets, &res).unwrap();
    assert_eq!(data.st_trsy_balance, vec![pair(1, 10), pair(2, 13)]);
    assert_eq!(data.current_governance_rights, vec![pair(1, 11), pair(2, 14)]);
    assert_eq!(data.total_voting_rights, vec![pair(1, 12), pair(2, 15)]);
}

#[test]
fn governance_results_that_fall_short_give_nothing() {
    let assets = vec![address(1), address(2)];
    let res: Vec<Amount> = (10..15).map(amount).collect();
    assert!(GovernanceData::from_results(&assets, &res).is_none());
    assert!(GovernanceData::from_results(&assets, &vec![]).is_none());
    let data = GovernanceData::from_results(&vec![], &vec![]).unwrap();
    assert!(data.st_trsy_balance.is_empty());
    assert!(data.current_governance_rights.is_empty());
    assert!(data.total_voting_rights.is_empty());
}

#[test]
fn results_are_paired_with_their_assets() {
    let assets = vec![address(1), address(2), address(3)];
    let results = vec![amount(5), amount(6), amount(7)];
    assert_eq!(pair_results(&assets, &results), Some(vec![pair(1, 5), pair(2, 6), pair(3, 7)]));
    assert_eq!(pair_results(&assets, &results[..2].to_vec()), None);
    let longer = vec![amount(5), amount(6), amount(7), amount(8)];
    assert_eq!(pair_results(&assets, &longer), Some(vec![pair(1, 5), pair(2, 6), pair(3, 7)]));
    assert_eq!(pair_results(&vec![], &vec![]), Some(vec![]));
}

#[test]
fn zero_address_is_no_proxy() {
    assert_eq!(proxy_of(Address::zero()), None);
    assert_eq!(proxy_of(address(9)), Some(address(9)));
}

#[test]
fn block_data_is_put_together() {
    let hash = TxHash { bytes: [5; 32] };
    let transaction = Some(TransactionInfo { block_number: Some(19_000_000), from: address(4) });
    let block = Some(BlockInfo { number: Some(19_000_000), timestamp: 1_710_000_000 });
    assert_eq!(block_to_fetch(&transaction), Ok(19_000_000));
    assert_eq!(
        resolve(hash, &transaction, &block),
        Ok(MetaFromBlock {
            tx_hash: hash,
            block_number: 19_000_000,
            timestamp: 1_710_000_000,
            from: address(4),
        })
    );
}

#[test]
fn missing_block_data_is_reported() {
    let hash = TxHash { bytes: [5; 32] };
    let found = Some(TransactionInfo { block_number: Some(7), from: address(4) });
    let pending = Some(TransactionInfo { block_number: None, from: address(4) });
    let block = Some(BlockInfo { number: Some(7), timestamp: 1 });
    assert_eq!(block_to_fetch(&None), Err(MetadataError::TransactionNotFound));
    assert_eq!(block_to_fetch(&pending), Err(MetadataError::TransactionNotFound));
    assert_eq!(resolve(hash, &None, &block), Err(MetadataError::TransactionNotFound));
    assert_eq!(resolve(hash, &pending, &block), Err(MetadataError::TransactionNotFound));
    assert_eq!(resolve(hash, &found, &None), Err(MetadataError::BlockNotFound));
    let numberless = Some(BlockInfo { number: None, timestamp: 1 });
    assert_eq!(resolve(hash, &found, &numberless), Err(MetadataError::BlockNotFound));
    let huge = Some(BlockInfo { number: Some(1 << 32), timestamp: 1 });
    assert_eq!(resolve(hash, &found, &huge), Err(MetadataError::BlockNumberTooLarge));
    let edge = Some(BlockInfo { number: Some(u32::MAX as u64), timestamp: 1 });
    assert_eq!(resolve(hash, &found, &edge).unwrap().block_number, u32::MAX);
}
