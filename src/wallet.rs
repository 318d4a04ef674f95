use vstd::prelude::*;
use crate::id::{fresh_id, hyphenated_text, id_text, parse_id, parsed_id, Id};
use crate::miner::{views_of, workers_of, workers_of_wallet, Miner, MinerDao, MinerView};
use crate::store::StoreError;

verus! {

/// A wallet as it is exposed to clients: its club, its miners and their totals.
#[derive(Clone, Debug)]
pub struct Wallet {
    pub address: String,
    pub club_name: String,
    pub total_hash_rate: i128,
    pub total_shares_mined: i128,
    pub total_workers_online: usize,
    pub workers_online: Vec<Miner>,
}

/// What a `Wallet` holds, with its texts as character sequences.
pub struct WalletView {
    pub address: Seq<char>,
    pub club_name: Seq<char>,
    pub total_hash_rate: int,
    pub total_shares_mined: int,
    pub total_workers_online: nat,
    pub workers_online: Seq<MinerView>,
}

impl View for Wallet {
    type V = WalletView;

    open spec fn view(&self) -> WalletView {
        WalletView {
            address: self.address@,
            club_name: self.club_name@,
            total_hash_rate: self.total_hash_rate as int,
            total_shares_mined: self.total_shares_mined as int,
            total_workers_online: self.total_workers_online as nat,
            workers_online: views_of(self.workers_online@),
        }
    }
}

/// The body of a request to create a wallet.
#[derive(Clone, Debug)]
pub struct NewWalletRequest {
    pub club_name: String,
}

/// A row of the wallets table.
#[derive(Clone, Debug)]
pub struct WalletDAO {
    pub address: Id,
    pub club_name: String,
}

/// The sum of the hash rates of `ms`.
pub open spec fn sum_hash_rate(ms: Seq<MinerView>) -> int
    decreases ms.len(),
{
    if ms.len() == 0 {
        0
    } else {
        sum_hash_rate(ms.drop_last()) + ms.last().hash_rate
    }
}

/// The sum of the share counts of `ms`.
pub open spec fn sum_shares_mined(ms: Seq<MinerView>) -> int
    decreases ms.len(),
{
    if ms.len() == 0 {
        0
    } else {
        sum_shares_mined(ms.drop_last()) + ms.last().shares_mined
    }
}

/// The client record of wallet row `w` with miners `workers`.
pub open spec fn wallet_view_of(w: WalletDAO, workers: Seq<MinerView>) -> WalletView {
    WalletView {
        address: hyphenated_text(w.address.value),
        club_name: w.club_name@,
        total_hash_rate: sum_hash_rate(workers),
        total_shares_mined: sum_shares_mined(workers),
        total_workers_online: workers.len(),
        workers_online: workers,
    }
}

/// Every wallet of `ws`, in order, each with its miners among `ms`.
pub open spec fn wallets_with_workers(ws: Seq<WalletDAO>, ms: Seq<MinerDao>) -> Seq<WalletView> {
    ws.map_values(|w: WalletDAO| wallet_view_of(w, workers_of(w, ms)))
}

/// Every wallet, from the reads of both tables; a failed read counts as no rows.
pub open spec fn listed_wallets(
    wallets: Result<Vec<WalletDAO>, StoreError>,
    miners: Result<Vec<MinerDao>, StoreError>,
) -> Seq<WalletView> {
    let ws = match wallets {
        Ok(v) => v@,
        Err(_) => seq![],
    };
    let ms = match miners {
        Ok(v) => v@,
        Err(_) => seq![],
    };
    wallets_with_workers(ws, ms)
}

/// The first row of `ws` with address `a`.
pub open spec fn first_with_address(ws: Seq<WalletDAO>, a: Id) -> Option<WalletDAO>
    decreases ws.len(),
{
    if ws.len() == 0 {
        None
    } else {
        match first_with_address(ws.drop_last(), a) {
            Some(w) => Some(w),
            None => if ws.last().address == a {
                Some(ws.last())
            } else {
                None
            },
        }
    }
}

/// The wallet with address `a`: none if the wallet read failed or found no
/// row; with no miners if only the miner read failed.
pub open spec fn found_wallet(
    a: Id,
    wallets: Result<Vec<WalletDAO>, StoreError>,
    miners: Result<Vec<MinerDao>, StoreError>,
) -> Option<WalletView> {
    match wallets {
        Ok(ws) => match first_with_address(ws@, a) {
            Some(w) => match miners {
                Ok(ms) => Some(wallet_view_of(w, workers_of(w, ms@))),
                Err(_) => Some(wallet_view_of(w, seq![])),
            },
            None => None,
        },
        Err(_) => None,
    }
}

impl Wallet {
    /// The row that this record stands for; none where its address is not a
    /// well-formed identifier.
    pub fn to_wallet_dao(&self) -> (r: Option<WalletDAO>)
        ensures
            r is Some <==> parsed_id(self.address@) is Some,
            r matches Some(d) ==> Some(d.address) == parsed_id(self.address@) && d.club_name@
                == self.club_name@,
    {
        match parse_id(self.address.as_str()) {
            Some(address) => Some(WalletDAO { address, club_name: self.club_name.clone() }),
            None => None,
        }
    }
}

impl WalletDAO {
    /// The client record of this row with miners `workers_online`, its totals
    /// summed over them.
    pub fn to_wallet(&self, workers_online: Vec<Miner>) -> (r: Wallet)
        ensures
            r@ == wallet_view_of(*self, views_of(workers_online@)),
    {
        let ghost ws = views_of(workers_online@);
        let mut hash: i128 = 0;
        let mut shares: i128 = 0;
        let mut i: usize = 0;
        while i < workers_online.len()
            invariant
                i <= workers_online.len(),
                ws == views_of(workers_online@),
                hash == sum_hash_rate(ws.take(i as int)),
                shares == sum_shares_mined(ws.take(i as int)),
                -0x8000_0000 * (i as int) <= hash <= 0x7fff_ffff * (i as int),
                -0x8000_0000 * (i as int) <= shares <= 0x7fff_ffff * (i as int),
            decreases workers_online.len() - i,
        {
            proof {
                assert(ws.take(i as int + 1).drop_last() == ws.take(i as int));
                assert(i < 0x1_0000_0000_0000_0000);
            }
            hash = hash + workers_online[i].hash_rate as i128;
            shares = shares + workers_online[i].shares_mined as i128;
            i = i + 1;
        }
        proof {
            assert(ws.take(workers_online.len() as int) == ws);
        }
        Wallet {
            address: id_text(self.address),
            club_name: self.club_name.clone(),
            total_hash_rate: hash,
            total_shares_mined: shares,
            total_workers_online: workers_online.len(),
            workers_online,
        }
    }
}

/// The views of a sequence of wallets.
pub open spec fn wallet_views(ws: Seq<Wallet>) -> Seq<WalletView> {
    ws.map_values(|w: Wallet| w@)
}

/// Every wallet with its miners and totals, from the reads of the wallets
/// table and of the miners table; a failed read counts as no rows.
pub fn fetch_all_wallets(
    wallets: Result<Vec<WalletDAO>, StoreError>,
    miners: Result<Vec<MinerDao>, StoreError>,
) -> (r: Vec<Wallet>)
    ensures
        wallet_views(r@) == listed_wallets(wallets, miners),
{
    let all_wallets = match wallets {
        Ok(result) => result,
        Err(_) => Vec::new(),
    };
    let all_miners = match miners {
        Ok(result) => result,
        Err(_) => Vec::new(),
    };
    let ghost ms = all_miners@;
    let mut out: Vec<Wallet> = Vec::new();
    let mut i: usize = 0;
    while i < all_wallets.len()
        invariant
            i <= all_wallets.len(),
            ms == all_miners@,
            wallet_views(out@) == wallets_with_workers(all_wallets@.take(i as int), ms),
        decreases all_wallets.len() - i,
    {
        let w = &all_wallets[i];
        let workers = workers_of_wallet(w, &all_miners);
        let ghost before = out@;
        out.push(w.to_wallet(workers));
        proof {
            assert(all_wallets@.take(i as int + 1) =~= all_wallets@.take(i as int).push(*w));
            assert(wallet_views(out@) =~= wallet_views(before).push(out@[i as int]@));
        }
        i = i + 1;
        proof {
            assert(wallet_views(out@) =~= wallets_with_workers(all_wallets@.take(i as int), ms));
        }
    }
    proof {
        assert(all_wallets@.take(all_wallets.len() as int) == all_wallets@);
    }
    out
}

/// The wallet with address `_address`, with its miners and totals: none if
/// the wallet read failed or found no row; with no miners if only the miner
/// read failed.
pub fn fetch_wallet_by_id(
    _address: Id,
    wallets: Result<Vec<WalletDAO>, StoreError>,
    miners: Result<Vec<MinerDao>, StoreError>,
) -> (r: Option<Wallet>)
    ensures
        r is Some <==> found_wallet(_address, wallets, miners) is Some,
        r matches Some(w) ==> found_wallet(_address, wallets, miners) == Some(w@),
{
    let ws = match wallets {
        Ok(result) => result,
        Err(_) => {
            return None;
        },
    };
    let mut i: usize = 0;
    while i < ws.len()
        invariant
            i <= ws.len(),
            wallets == Ok::<Vec<WalletDAO>, StoreError>(ws),
            first_with_address(ws@.take(i as int), _address) is None,
        decreases ws.len() - i,
    {
        proof {
            assert(ws@.take(i as int + 1).drop_last() == ws@.take(i as int));
        }
        if ws[i].address == _address {
            proof {
                lemma_first_in_prefix(ws@, i as int + 1, _address);
            }
            let matched = &ws[i];
            let workers = match miners {
                Ok(result) => workers_of_wallet(matched, &result),
                Err(_) => {
                    let none: Vec<Miner> = Vec::new();
                    proof {
                        assert(views_of(none@) =~= Seq::<MinerView>::empty());
                    }
                    none
                },
            };
            return Some(matched.to_wallet(workers));
        }
        i = i + 1;
    }
    proof {
        assert(ws@.take(ws.len() as int) == ws@);
    }
    None
}

/// Once a prefix of `ws` holds a row with address `a`, the whole sequence has
/// the same first such row.
proof fn lemma_first_in_prefix(ws: Seq<WalletDAO>, n: int, a: Id)
    requires
        0 <= n <= ws.len(),
        first_with_address(ws.take(n), a) is Some,
    ensures
        first_with_address(ws, a) == first_with_address(ws.take(n), a),
    decreases ws.len() - n,
{
    if n < ws.len() {
        assert(ws.take(n + 1).drop_last() == ws.take(n));
        lemma_first_in_prefix(ws, n + 1, a);
    } else {
        assert(ws.take(n) == ws);
    }
}

/// A new row for a wallet of the requested club, with a fresh address.
pub fn new_wallet_dao(new_wallet_request: NewWalletRequest) -> (r: WalletDAO)
    ensures
        r.club_name@ == new_wallet_request.club_name@,
{
    WalletDAO { address: fresh_id(), club_name: new_wallet_request.club_name }
}

/// The outcome of creating wallet row `new_wallet`: the insert's error if it
/// failed, else the new wallet, which has no miners yet.
pub fn create_new_wallet(new_wallet: &WalletDAO, inserted: Result<usize, StoreError>) -> (r:
    Result<Wallet, StoreError>)
    ensures
        inserted matches Err(e) ==> r == Err::<Wallet, StoreError>(e),
        inserted is Ok <==> r is Ok,
        r matches Ok(w) ==> w@ == wallet_view_of(*new_wallet, seq![]),
{
    match inserted {
        Ok(_) => {
            let none: Vec<Miner> = Vec::new();
            proof {
                assert(views_of(none@) =~= Seq::<MinerView>::empty());
            }
            Ok(new_wallet.to_wallet(none))
        },
        Err(e) => Err(e),
    }
}

} // verus!
