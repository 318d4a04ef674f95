use mining_pool::id::Id;
use mining_pool::miner::{workers_of_wallet, MinerDao};
use mining_pool::store::StoreError;
use mining_pool::wallet::{
    create_new_wallet, fetch_all_wallets, fetch_wallet_by_id, new_wallet_dao, NewWalletRequest,
    Wallet, WalletDAO,
};

const W1: u128 = 0x936DA01F9ABD4D9D80C702AF85C822A8;
const W2: u128 = 0x11111111222233334444555555555555;

fn wallet(address: u128, club: &str) -> WalletDAO {
    WalletDAO { address: Id { value: address }, club_name: club.to_string() }
}

fn miner(id: u128, address: u128, nick: &str, hash_rate: i32, shares_mined: i32) -> MinerDao {
    MinerDao {
        id: Id { value: id },
        address: Id { value: address },
        nickname: nick.to_string(),
        hash_rate,
        shares_mined,
    }
}

fn tables() -> (Vec<WalletDAO>, Vec<MinerDao>) {
    (
        vec![wallet(W1, "RedTeam"), wallet(W2, "BlueTeam")],
        vec![miner(1, W1, "m1", 30, 5), miner(2, W2, "b1", 50, 9), miner(3, W1, "m2", 70, 15)],
    )
}

#[test]
fn red_team_totals() {
    let (ws, ms) = tables();
    let w = fetch_wallet_by_id(Id { value: W1 }, Ok(ws), Ok(ms)).unwrap();
    assert_eq!(w.club_name, "RedTeam");
    assert_eq!(w.address, "936da01f-9abd-4d9d-80c7-02af85c822a8");
    assert_eq!(w.total_hash_rate, 100);
    assert_eq!(w.total_shares_mined, 20);
    assert_eq!(w.total_workers_online, 2);
    let nicks: Vec<&str> = w.workers_online.iter().map(|m| m.nickname.as_str()).collect();
    assert_eq!(nicks, vec!["m1", "m2"]);
}

#[test]
fn to_wallet_with_no_miners_has_zero_totals() {
    let w = wallet(W2, "Empty").to_wallet(vec![]);
    assert_eq!((w.total_hash_rate, w.total_shares_mined, w.total_workers_online), (0, 0, 0));
    assert!(w.workers_online.is_empty());
}

#[test]
fn to_wallet_sums_extreme_values_exactly() {
    let w = wallet(W1, "Big");
    let ms = vec![miner(1, W1, "a", i32::MAX, i32::MIN), miner(2, W1, "b", i32::MAX, i32::MIN)];
    let workers = workers_of_wallet(&w, &ms);
    let total = w.to_wallet(workers);
    assert_eq!(total.total_hash_rate, 2 * (i32::MAX as i128));
    assert_eq!(total.total_shares_mined, 2 * (i32::MIN as i128));
}

#[test]
fn to_wallet_dao_parses_address() {
    let w = wallet(W1, "RedTeam").to_wallet(vec![]);
    let d = w.to_wallet_dao().unwrap();
    assert_eq!(d.address, Id { value: W1 });
    assert_eq!(d.club_name, "RedTeam");
}

#[test]
fn to_wallet_dao_rejects_malformed_address() {
    let w = Wallet {
        address: "xyz".to_string(),
        club_name: "RedTeam".to_string(),
        total_hash_rate: 0,
        total_shares_mined: 0,
        total_workers_online: 0,
        workers_online: vec![],
    };
    assert!(w.to_wallet_dao().is_none());
}

#[test]
fn list_all_wallets_groups_miners() {
    let (ws, ms) = tables();
    let all = fetch_all_wallets(Ok(ws), Ok(ms));
    assert_eq!(all.len(), 2);
    assert_eq!((all[0].club_name.as_str(), all[0].total_workers_online), ("RedTeam", 2));
    assert_eq!((all[1].club_name.as_str(), all[1].total_workers_online), ("BlueTeam", 1));
    assert_eq!(all[1].total_hash_rate, 50);
    assert_eq!(all[1].workers_online[0].club_name, "BlueTeam");
}

#[test]
fn list_all_wallets_miner_error_shows_no_miners() {
    let (ws, _) = tables();
    let all = fetch_all_wallets(Ok(ws), Err(StoreError::Failed("down".to_string())));
    assert_eq!(all.len(), 2);
    assert!(all.iter().all(|w| w.workers_online.is_empty() && w.total_hash_rate == 0));
}

#[test]
fn list_all_wallets_wallet_error_is_empty() {
    let (_, ms) = tables();
    assert!(fetch_all_wallets(Err(StoreError::NotFound), Ok(ms)).is_empty());
}

#[test]
fn get_wallet_unknown_is_none() {
    let (ws, ms) = tables();
    assert!(fetch_wallet_by_id(Id { value: 7 }, Ok(ws), Ok(ms)).is_none());
    let r = fetch_wallet_by_id(Id { value: W1 }, Err(StoreError::NotFound), Ok(vec![]));
    assert!(r.is_none());
}

#[test]
fn get_wallet_partial_failure_read() {
    let (ws, _) = tables();
    let w = fetch_wallet_by_id(Id { value: W1 }, Ok(ws), Err(StoreError::Failed("x".to_string())))
        .unwrap();
    assert_eq!(w.club_name, "RedTeam");
    assert!(w.workers_online.is_empty());
    assert_eq!((w.total_hash_rate, w.total_shares_mined, w.total_workers_online), (0, 0, 0));
}

#[test]
fn create_wallet_round_trip() {
    let (mut ws, ms) = tables();
    let d = new_wallet_dao(NewWalletRequest { club_name: "Acme".to_string() });
    let created = create_new_wallet(&d, Ok(1)).unwrap();
    assert_eq!(created.club_name, "Acme");
    assert!(created.workers_online.is_empty());
    ws.push(d.clone());
    let read = fetch_wallet_by_id(d.address, Ok(ws), Ok(ms)).unwrap();
    assert_eq!(read.club_name, "Acme");
    assert!(read.workers_online.is_empty());
    assert_eq!(read.address, created.address);
}

#[test]
fn create_wallet_insert_error_is_passed_on() {
    let d = wallet(W1, "Acme");
    let r = create_new_wallet(&d, Err(StoreError::Failed("dup".to_string())));
    assert!(matches!(r, Err(StoreError::Failed(ref s)) if s == "dup"));
}
