use mining_pool::id::Id;
use mining_pool::miner::{
    create_new_miner, fetch_all_miners, get_miner_by_id, new_miner_dao, Miner, MinerDao,
    NewMinerRequest,
};
use mining_pool::store::StoreError;
use mining_pool::wallet::WalletDAO;

const W1: u128 = 0x936DA01F9ABD4D9D80C702AF85C822A8;
const W2: u128 = 0x11111111222233334444555555555555;

fn wallet(address: u128, club: &str) -> WalletDAO {
    WalletDAO { address: Id { value: address }, club_name: club.to_string() }
}

fn miner(id: u128, address: u128, nick: &str, hash_rate: i32, shares_mined: i32) -> MinerDao {
    MinerDao {
        id: Id { value: id },
        address: Id { value: address },
        nickname: nick.to_string(),
        hash_rate,
        shares_mined,
    }
}

fn tables() -> (Vec<WalletDAO>, Vec<MinerDao>) {
    (
        vec![wallet(W1, "RedTeam"), wallet(W2, "BlueTeam")],
        vec![miner(1, W1, "m1", 30, 5), miner(2, W2, "b1", 50, 9), miner(3, W1, "m2", 70, 15)],
    )
}

#[test]
fn to_miner_writes_hyphenated_ids() {
    let m = miner(W2, W1, "nick", 42, 7).to_miner("RedTeam".to_string());
    assert_eq!(m.id, "11111111-2222-3333-4444-555555555555");
    assert_eq!(m.address, "936da01f-9abd-4d9d-80c7-02af85c822a8");
    assert_eq!(m.club_name, "RedTeam");
    assert_eq!(m.nickname, "nick");
    assert_eq!((m.hash_rate, m.shares_mined), (42, 7));
}

#[test]
fn to_miner_dao_parses_ids() {
    let m = Miner {
        id: "00000000-0000-0000-0000-000000000001".to_string(),
        address: "936DA01F-9ABD-4D9D-80C7-02AF85C822A8".to_string(),
        club_name: "RedTeam".to_string(),
        nickname: "m1".to_string(),
        hash_rate: 30,
        shares_mined: 5,
    };
    let d = m.to_miner_dao().unwrap();
    assert_eq!(d.id, Id { value: 1 });
    assert_eq!(d.address, Id { value: W1 });
    assert_eq!(d.nickname, "m1");
    assert_eq!((d.hash_rate, d.shares_mined), (30, 5));
}

#[test]
fn to_miner_dao_rejects_malformed_id() {
    let m = Miner {
        id: "not-an-id".to_string(),
        address: "936da01f-9abd-4d9d-80c7-02af85c822a8".to_string(),
        club_name: String::new(),
        nickname: String::new(),
        hash_rate: 0,
        shares_mined: 0,
    };
    assert!(m.to_miner_dao().is_none());
}

#[test]
fn list_all_miners_carries_wallet_club() {
    let (ws, ms) = tables();
    let all = fetch_all_miners(Ok(ws), Ok(ms));
    let seen: Vec<(String, String)> =
        all.iter().map(|m| (m.nickname.clone(), m.club_name.clone())).collect();
    assert_eq!(
        seen,
        vec![
            ("m1".to_string(), "RedTeam".to_string()),
            ("m2".to_string(), "RedTeam".to_string()),
            ("b1".to_string(), "BlueTeam".to_string()),
        ]
    );
}

#[test]
fn list_all_miners_skips_orphans() {
    let (ws, mut ms) = tables();
    ms.push(miner(9, 77, "orphan", 20, 1));
    assert_eq!(fetch_all_miners(Ok(ws), Ok(ms)).len(), 3);
}

#[test]
fn list_all_miners_swallows_storage_error() {
    let (ws, _) = tables();
    let all = fetch_all_miners(Ok(ws), Err(StoreError::Failed("down".to_string())));
    assert!(all.is_empty());
}

#[test]
fn get_miner_by_id_finds_joined_miner() {
    let (ws, ms) = tables();
    let m = get_miner_by_id(Id { value: 2 }, Ok(ws), Ok(ms)).unwrap();
    assert_eq!(m.nickname, "b1");
    assert_eq!(m.club_name, "BlueTeam");
    assert_eq!(m.address, "11111111-2222-3333-4444-555555555555");
}

#[test]
fn get_miner_by_id_unknown_is_none() {
    let (ws, ms) = tables();
    assert!(get_miner_by_id(Id { value: 12345 }, Ok(ws), Ok(ms)).is_none());
    assert!(get_miner_by_id(Id { value: 12345 }, Ok(vec![]), Ok(vec![])).is_none());
}

#[test]
fn get_miner_by_id_storage_error_is_none() {
    let (_, ms) = tables();
    let r = get_miner_by_id(Id { value: 1 }, Err(StoreError::NotFound), Ok(ms));
    assert!(r.is_none());
}

#[test]
fn new_miner_gets_placeholder_activity_in_range() {
    for _ in 0..200 {
        let d = new_miner_dao(NewMinerRequest { nickname: "nick".to_string() }, Id { value: W1 });
        assert!(20 <= d.hash_rate && d.hash_rate < 100);
        assert!(1 <= d.shares_mined && d.shares_mined < 40);
        assert_eq!(d.address, Id { value: W1 });
        assert_eq!(d.nickname, "nick");
    }
}

#[test]
fn new_miners_get_distinct_ids() {
    let a = new_miner_dao(NewMinerRequest { nickname: "a".to_string() }, Id { value: W1 });
    let b = new_miner_dao(NewMinerRequest { nickname: "b".to_string() }, Id { value: W1 });
    assert_ne!(a.id, b.id);
}

#[test]
fn create_miner_round_trip() {
    let (ws, mut ms) = tables();
    let d = new_miner_dao(NewMinerRequest { nickname: "nick".to_string() }, Id { value: W2 });
    ms.push(d.clone());
    let m = create_new_miner(&d, Ok(1), Ok(ws), Ok(ms)).unwrap();
    assert_eq!(m.club_name, "BlueTeam");
    assert_eq!(m.nickname, "nick");
    assert!(20 <= m.hash_rate && m.hash_rate < 100);
    assert!(1 <= m.shares_mined && m.shares_mined < 40);
}

#[test]
fn create_miner_insert_error_is_passed_on() {
    let (ws, ms) = tables();
    let d = miner(50, W1, "x", 20, 1);
    let r = create_new_miner(&d, Err(StoreError::Failed("unique".to_string())), Ok(ws), Ok(ms));
    assert!(matches!(r, Err(StoreError::Failed(ref s)) if s == "unique"));
}

#[test]
fn create_miner_missing_after_insert_is_not_found() {
    let (ws, ms) = tables();
    let d = miner(50, W1, "x", 20, 1);
    let r = create_new_miner(&d, Ok(1), Ok(ws), Ok(ms));
    assert!(matches!(r, Err(StoreError::NotFound)));
}
