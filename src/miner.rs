use vstd::prelude::*;
use crate::id::{fresh_id, hyphenated_text, id_text, parse_id, parsed_id, Id};
use crate::store::StoreError;
use crate::wallet::WalletDAO;

verus! {

/// Lowest hash rate given to a new miner.
pub const HASH_RATE_LOW: i32 = 20;
/// Bound, not reached, of the hash rate given to a new miner.
pub const HASH_RATE_HIGH: i32 = 100;
/// Lowest share count given to a new miner.
pub const SHARES_LOW: i32 = 1;
/// Bound, not reached, of the share count given to a new miner.
pub const SHARES_HIGH: i32 = 40;

/// A miner as it is exposed to clients, with the club name of its wallet.
#[derive(Clone, Debug)]
pub struct Miner {
    pub id: String,
    pub address: String,
    pub club_name: String,
    pub nickname: String,
    pub hash_rate: i32,
    pub shares_mined: i32,
}

/// What a `Miner` holds, with its texts as character sequences.
pub struct MinerView {
    pub id: Seq<char>,
    pub address: Seq<char>,
    pub club_name: Seq<char>,
    pub nickname: Seq<char>,
    pub hash_rate: i32,
    pub shares_mined: i32,
}

impl View for Miner {
    type V = MinerView;

    open spec fn view(&self) -> MinerView {
        MinerView {
            id: self.id@,
            address: self.address@,
            club_name: self.club_name@,
            nickname: self.nickname@,
            hash_rate: self.hash_rate,
            shares_mined: self.shares_mined,
        }
    }
}

/// The body of a request to create a miner.
#[derive(Clone, Debug)]
pub struct NewMinerRequest {
    pub nickname: String,
}

/// A row of the miners table.
#[derive(Clone, Debug)]
pub struct MinerDao {
    pub id: Id,
    pub address: Id,
    pub nickname: String,
    pub hash_rate: i32,
    pub shares_mined: i32,
}

/// The client record of miner row `m`, under the club name `club`.
pub open spec fn miner_view_of(m: MinerDao, club: Seq<char>) -> MinerView {
    MinerView {
        id: hyphenated_text(m.id.value),
        address: hyphenated_text(m.address.value),
        club_name: club,
        nickname: m.nickname@,
        hash_rate: m.hash_rate,
        shares_mined: m.shares_mined,
    }
}

/// The views of a sequence of miners.
pub open spec fn views_of(ms: Seq<Miner>) -> Seq<MinerView> {
    ms.map_values(|m: Miner| m@)
}

/// The miners of wallet `w` among rows `ms`, in row order, under its club name.
pub open spec fn workers_of(w: WalletDAO, ms: Seq<MinerDao>) -> Seq<MinerView>
    decreases ms.len(),
{
    if ms.len() == 0 {
        seq![]
    } else {
        let rest = workers_of(w, ms.drop_last());
        if ms.last().address == w.address {
            rest.push(miner_view_of(ms.last(), w.club_name@))
        } else {
            rest
        }
    }
}

/// The inner join of wallet rows `ws` with miner rows `ms` on the address,
/// wallet by wallet.
pub open spec fn joined_miners(ws: Seq<WalletDAO>, ms: Seq<MinerDao>) -> Seq<MinerView>
    decreases ws.len(),
{
    if ws.len() == 0 {
        seq![]
    } else {
        joined_miners(ws.drop_last(), ms) + workers_of(ws.last(), ms)
    }
}

/// The rows of `ms` whose identifier is `id`, in row order.
pub open spec fn rows_with_id(ms: Seq<MinerDao>, id: Id) -> Seq<MinerDao>
    decreases ms.len(),
{
    if ms.len() == 0 {
        seq![]
    } else {
        let rest = rows_with_id(ms.drop_last(), id);
        if ms.last().id == id {
            rest.push(ms.last())
        } else {
            rest
        }
    }
}

/// Every miner that the join of two table reads gives; nothing if either failed.
pub open spec fn listed_miners(
    wallets: Result<Vec<WalletDAO>, StoreError>,
    miners: Result<Vec<MinerDao>, StoreError>,
) -> Seq<MinerView> {
    match (wallets, miners) {
        (Ok(ws), Ok(ms)) => joined_miners(ws@, ms@),
        _ => seq![],
    }
}

/// The first joined miner with identifier `id`; none if there is none or a
/// read failed.
pub open spec fn found_miner(
    id: Id,
    wallets: Result<Vec<WalletDAO>, StoreError>,
    miners: Result<Vec<MinerDao>, StoreError>,
) -> Option<MinerView> {
    match (wallets, miners) {
        (Ok(ws), Ok(ms)) => {
            let hits = joined_miners(ws@, rows_with_id(ms@, id));
            if hits.len() > 0 {
                Some(hits[0])
            } else {
                None
            }
        },
        _ => None,
    }
}

impl Miner {
    /// The row that this record stands for; none where its identifier or
    /// address is not a well-formed identifier.
    pub fn to_miner_dao(&self) -> (r: Option<MinerDao>)
        ensures
            r is Some <==> (parsed_id(self.id@) is Some && parsed_id(self.address@) is Some),
            r matches Some(d) ==> {
                &&& Some(d.id) == parsed_id(self.id@)
                &&& Some(d.address) == parsed_id(self.address@)
                &&& d.nickname@ == self.nickname@
                &&& d.hash_rate == self.hash_rate
                &&& d.shares_mined == self.shares_mined
            },
    {
        let id = parse_id(self.id.as_str());
        let address = parse_id(self.address.as_str());
        match (id, address) {
            (Some(id), Some(address)) => Some(
                MinerDao {
                    id,
                    address,
                    nickname: self.nickname.clone(),
                    hash_rate: self.hash_rate,
                    shares_mined: self.shares_mined,
                },
            ),
            _ => None,
        }
    }
}

impl MinerDao {
    /// The client record of this row, under the club name `other_club_name`.
    pub fn to_miner(&self, other_club_name: String) -> (r: Miner)
        ensures
            r@ == miner_view_of(*self, other_club_name@),
    {
        Miner {
            id: id_text(self.id),
            address: id_text(self.address),
            club_name: other_club_name,
            nickname: self.nickname.clone(),
            hash_rate: self.hash_rate,
            shares_mined: self.shares_mined,
        }
    }

    /// A copy of this row.
    pub(crate) fn duplicate(&self) -> (r: MinerDao)
        ensures
            r == *self,
    {
        MinerDao {
            id: self.id,
            address: self.address,
            nickname: self.nickname.clone(),
            hash_rate: self.hash_rate,
            shares_mined: self.shares_mined,
        }
    }
}

/// Relies on `rand::Rng::gen_range` over `rand::thread_rng()`: a value in
/// `[low, high)`; it panics on an empty range, which `requires` rules out.
#[verifier::external_body]
fn random_in(low: i32, high: i32) -> (r: i32)
    requires
        low < high,
    ensures
        low <= r < high,
{
    rand::Rng::gen_range(&mut rand::thread_rng(), low..high)
}

/// The miners of wallet `w` among rows `ms`, under the wallet's club name.
pub fn workers_of_wallet(w: &WalletDAO, ms: &Vec<MinerDao>) -> (r: Vec<Miner>)
    ensures
        views_of(r@) == workers_of(*w, ms@),
{
    let mut out: Vec<Miner> = Vec::new();
    let mut i: usize = 0;
    while i < ms.len()
        invariant
            i <= ms.len(),
            views_of(out@) == workers_of(*w, ms@.take(i as int)),
        decreases ms.len() - i,
    {
        let m = &ms[i];
        proof {
            assert(ms@.take(i as int + 1).drop_last() == ms@.take(i as int));
        }
        if m.address == w.address {
            out.push(m.to_miner(w.club_name.clone()));
        }
        i = i + 1;
        proof {
            assert(views_of(out@) == workers_of(*w, ms@.take(i as int)));
        }
    }
    proof {
        assert(ms@.take(ms.len() as int) == ms@);
    }
    out
}

/// The inner join of wallet rows `ws` with miner rows `ms` on the address.
pub fn join_rows(ws: &Vec<WalletDAO>, ms: &Vec<MinerDao>) -> (r: Vec<Miner>)
    ensures
        views_of(r@) == joined_miners(ws@, ms@),
{
    let mut out: Vec<Miner> = Vec::new();
    let mut i: usize = 0;
    while i < ws.len()
        invariant
            i <= ws.len(),
            views_of(out@) == joined_miners(ws@.take(i as int), ms@),
        decreases ws.len() - i,
    {
        let mut part = workers_of_wallet(&ws[i], ms);
        proof {
            assert(ws@.take(i as int + 1).drop_last() == ws@.take(i as int));
            assert(views_of(out@ + part@) == views_of(out@) + views_of(part@));
        }
        out.append(&mut part);
        i = i + 1;
    }
    proof {
        assert(ws@.take(ws.len() as int) == ws@);
    }
    out
}

/// The rows of `ms` whose identifier is `id`.
fn select_by_id(ms: &Vec<MinerDao>, id: Id) -> (r: Vec<MinerDao>)
    ensures
        r@ == rows_with_id(ms@, id),
{
    let mut out: Vec<MinerDao> = Vec::new();
    let mut i: usize = 0;
    while i < ms.len()
        invariant
            i <= ms.len(),
            out@ == rows_with_id(ms@.take(i as int), id),
        decreases ms.len() - i,
    {
        proof {
            assert(ms@.take(i as int + 1).drop_last() == ms@.take(i as int));
        }
        if ms[i].id == id {
            out.push(ms[i].duplicate());
        }
        i = i + 1;
    }
    proof {
        assert(ms@.take(ms.len() as int) == ms@);
    }
    out
}

/// Every miner with the club name of its wallet, from the reads of the
/// wallets table and of the miners table; a failed read gives no miners.
pub fn fetch_all_miners(
    wallets: Result<Vec<WalletDAO>, StoreError>,
    miners: Result<Vec<MinerDao>, StoreError>,
) -> (r: Vec<Miner>)
    ensures
        views_of(r@) == listed_miners(wallets, miners),
{
    match (wallets, miners) {
        (Ok(ws), Ok(ms)) => join_rows(&ws, &ms),
        _ => Vec::new(),
    }
}

/// The miner with identifier `_id`, with the club name of its wallet; none
/// where no joined row has it or a read failed.
pub fn get_miner_by_id(
    _id: Id,
    wallets: Result<Vec<WalletDAO>, StoreError>,
    miners: Result<Vec<MinerDao>, StoreError>,
) -> (r: Option<Miner>)
    ensures
        r is Some <==> found_miner(_id, wallets, miners) is Some,
        r matches Some(m) ==> found_miner(_id, wallets, miners) == Some(m@),
{
    match (wallets, miners) {
        (Ok(ws), Ok(ms)) => {
            let chosen = select_by_id(&ms, _id);
            let mut hits = join_rows(&ws, &chosen);
            if hits.len() > 0 {
                proof {
                    assert(views_of(hits@)[0] == hits@[0]@);
                }
                Some(hits.swap_remove(0))
            } else {
                None
            }
        },
        _ => None,
    }
}

/// A new row for a miner of wallet `address`, with a fresh identifier and
/// placeholder activity drawn at random.
pub fn new_miner_dao(new_miner_request: NewMinerRequest, address: Id) -> (r: MinerDao)
    ensures
        r.address == address,
        r.nickname@ == new_miner_request.nickname@,
        HASH_RATE_LOW <= r.hash_rate < HASH_RATE_HIGH,
        SHARES_LOW <= r.shares_mined < SHARES_HIGH,
{
    MinerDao {
        id: fresh_id(),
        address,
        nickname: new_miner_request.nickname,
        hash_rate: random_in(HASH_RATE_LOW, HASH_RATE_HIGH),
        shares_mined: random_in(SHARES_LOW, SHARES_HIGH),
    }
}

/// The outcome of creating miner row `new_miner`: the insert's error if it
/// failed, else the miner read back through the join (`NotFound` if absent).
pub fn create_new_miner(
    new_miner: &MinerDao,
    inserted: Result<usize, StoreError>,
    wallets: Result<Vec<WalletDAO>, StoreError>,
    miners: Result<Vec<MinerDao>, StoreError>,
) -> (r: Result<Miner, StoreError>)
    ensures
        inserted matches Err(e) ==> r == Err::<Miner, StoreError>(e),
        inserted is Ok ==> (r is Ok <==> found_miner(new_miner.id, wallets, miners) is Some),
        inserted is Ok && r is Err ==> r == Err::<Miner, StoreError>(StoreError::NotFound),
        r matches Ok(m) ==> found_miner(new_miner.id, wallets, miners) == Some(m@),
{
    match inserted {
        Ok(_) => match get_miner_by_id(new_miner.id, wallets, miners) {
            Some(m) => Ok(m),
            None => Err(StoreError::NotFound),
        },
        Err(e) => Err(e),
    }
}

} // verus!
