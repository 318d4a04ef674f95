use vstd::prelude::*;
use crate::id::{hyphenated_text, Id};
use crate::miner::{
    found_miner, joined_miners, miner_view_of, rows_with_id, workers_of, MinerDao, MinerView,
};
use crate::store::StoreError;
use crate::wallet::{first_with_address, found_wallet, wallet_view_of, WalletDAO};

verus! {

/// `v` is a miner row of `ms` at the address of wallet row `w`, under `w`'s club name.
pub open spec fn worker_from(v: MinerView, w: WalletDAO, ms: Seq<MinerDao>) -> bool {
    exists|j: int|
        0 <= j < ms.len() && ms[j].address == w.address && v == miner_view_of(
            #[trigger] ms[j],
            w.club_name@,
        )
}

/// `v` is a miner row of `ms` under the club name of a wallet row of `ws`
/// whose address is the miner's address.
pub open spec fn joined_from(v: MinerView, ws: Seq<WalletDAO>, ms: Seq<MinerDao>) -> bool {
    exists|i: int| 0 <= i < ws.len() && worker_from(v, #[trigger] ws[i], ms)
}

/// Each miner that wallet `w` gets from rows `ms` is one of those rows,
/// addressed to `w`, under `w`'s club name.
pub proof fn lemma_workers_come_from_rows(w: WalletDAO, ms: Seq<MinerDao>)
    ensures
        forall|k: int|
            0 <= k < workers_of(w, ms).len() ==> worker_from(#[trigger] workers_of(w, ms)[k], w, ms),
    decreases ms.len(),
{
    if ms.len() > 0 {
        let init = ms.drop_last();
        lemma_workers_come_from_rows(w, init);
        assert forall|k: int| 0 <= k < workers_of(w, ms).len() implies worker_from(
            #[trigger] workers_of(w, ms)[k],
            w,
            ms,
        ) by {
            if k < workers_of(w, init).len() {
                assert(worker_from(workers_of(w, init)[k], w, init));
                let j = choose|j: int|
                    0 <= j < init.len() && init[j].address == w.address && workers_of(w, init)[k]
                        == miner_view_of(#[trigger] init[j], w.club_name@);
                assert(ms[j] == init[j]);
            } else {
                assert(ms[ms.len() - 1] == ms.last());
            }
        }
    }
}

/// Join fidelity: every miner of the join of `ws` with `ms` is a miner row
/// under the club name of a wallet row whose address is the miner's address.
pub proof fn law_join_fidelity(ws: Seq<WalletDAO>, ms: Seq<MinerDao>)
    ensures
        forall|k: int|
            0 <= k < joined_miners(ws, ms).len() ==> joined_from(
                #[trigger] joined_miners(ws, ms)[k],
                ws,
                ms,
            ),
    decreases ws.len(),
{
    if ws.len() > 0 {
        let init = ws.drop_last();
        let w = ws.last();
        law_join_fidelity(init, ms);
        lemma_workers_come_from_rows(w, ms);
        let n = joined_miners(init, ms).len();
        assert forall|k: int| 0 <= k < joined_miners(ws, ms).len() implies joined_from(
            #[trigger] joined_miners(ws, ms)[k],
            ws,
            ms,
        ) by {
            if k < n {
                assert(joined_miners(ws, ms)[k] == joined_miners(init, ms)[k]);
                assert(joined_from(joined_miners(init, ms)[k], init, ms));
                let i = choose|i: int|
                    0 <= i < init.len() && worker_from(
                        joined_miners(init, ms)[k],
                        #[trigger] init[i],
                        ms,
                    );
                assert(ws[i] == init[i]);
            } else {
                assert(joined_miners(ws, ms)[k] == workers_of(w, ms)[k - n]);
                assert(worker_from(workers_of(w, ms)[k - n], w, ms));
                assert(ws[ws.len() - 1] == w);
            }
        }
    }
}

/// Wallet `w` gets no miners from rows of which none is at its address.
pub proof fn lemma_no_workers(w: WalletDAO, ms: Seq<MinerDao>)
    requires
        forall|j: int| 0 <= j < ms.len() ==> (#[trigger] ms[j]).address != w.address,
    ensures
        workers_of(w, ms) == Seq::<MinerView>::empty(),
    decreases ms.len(),
{
    if ms.len() > 0 {
        assert(ms[ms.len() - 1] == ms.last());
        lemma_no_workers(w, ms.drop_last());
    }
}

/// The join is empty where no miner row is at the address of any wallet row.
pub proof fn lemma_empty_join(ws: Seq<WalletDAO>, ms: Seq<MinerDao>)
    requires
        forall|i: int, j: int|
            0 <= i < ws.len() && 0 <= j < ms.len() ==> (#[trigger] ms[j]).address != (
            #[trigger] ws[i]).address,
    ensures
        joined_miners(ws, ms) == Seq::<MinerView>::empty(),
    decreases ws.len(),
{
    if ws.len() > 0 {
        assert(ws[ws.len() - 1] == ws.last());
        lemma_no_workers(ws.last(), ms);
        lemma_empty_join(ws.drop_last(), ms);
        assert(joined_miners(ws, ms) =~= Seq::<MinerView>::empty());
    }
}

/// No row is kept by identifier `id` where no row has it.
pub proof fn lemma_no_rows_with_id(ms: Seq<MinerDao>, id: Id)
    requires
        forall|j: int| 0 <= j < ms.len() ==> (#[trigger] ms[j]).id != id,
    ensures
        rows_with_id(ms, id) == Seq::<MinerDao>::empty(),
    decreases ms.len(),
{
    if ms.len() > 0 {
        assert(ms[ms.len() - 1] == ms.last());
        lemma_no_rows_with_id(ms.drop_last(), id);
    }
}

/// No wallet row is first at address `a` where no row has it.
pub proof fn lemma_no_first_with_address(ws: Seq<WalletDAO>, a: Id)
    requires
        forall|i: int| 0 <= i < ws.len() ==> (#[trigger] ws[i]).address != a,
    ensures
        first_with_address(ws, a) is None,
    decreases ws.len(),
{
    if ws.len() > 0 {
        assert(ws[ws.len() - 1] == ws.last());
        lemma_no_first_with_address(ws.drop_last(), a);
    }
}

/// Row `k` is the first at address `a` where no earlier row has that address.
pub proof fn lemma_first_at(ws: Seq<WalletDAO>, k: int, a: Id)
    requires
        0 <= k < ws.len(),
        ws[k].address == a,
        forall|i: int| 0 <= i < k ==> (#[trigger] ws[i]).address != a,
    ensures
        first_with_address(ws, a) == Some(ws[k]),
    decreases ws.len(),
{
    let init = ws.drop_last();
    if k == ws.len() - 1 {
        lemma_no_first_with_address(init, a);
    } else {
        assert(init[k] == ws[k]);
        lemma_first_at(init, k, a);
    }
}

/// Some row is first at address `a` where a row has it.
pub proof fn lemma_some_first_with_address(ws: Seq<WalletDAO>, k: int, a: Id)
    requires
        0 <= k < ws.len(),
        ws[k].address == a,
    ensures
        first_with_address(ws, a) is Some,
    decreases k,
{
    if exists|i: int| 0 <= i < k && (#[trigger] ws[i]).address == a {
        let i = choose|i: int| 0 <= i < k && (#[trigger] ws[i]).address == a;
        lemma_some_first_with_address(ws, i, a);
    } else {
        lemma_first_at(ws, k, a);
    }
}

/// Join fidelity for lookups: a miner found by identifier `id` carries that
/// identifier and is a miner row under the club name of a wallet row at its
/// address.
pub proof fn law_found_miner_fidelity(id: Id, ws: Vec<WalletDAO>, ms: Vec<MinerDao>)
    ensures
        found_miner(id, Ok(ws), Ok(ms)) matches Some(v) ==> v.id == hyphenated_text(id.value)
            && joined_from(v, ws@, ms@),
{
    let chosen = rows_with_id(ms@, id);
    if found_miner(id, Ok(ws), Ok(ms)) is Some {
        let v = joined_miners(ws@, chosen)[0];
        law_join_fidelity(ws@, chosen);
        lemma_rows_with_id_come_from_rows(ms@, id);
        assert(joined_from(v, ws@, chosen));
        let i = choose|i: int| 0 <= i < ws@.len() && worker_from(v, #[trigger] ws@[i], chosen);
        let c = choose|c: int|
            0 <= c < chosen.len() && chosen[c].address == ws@[i].address && v == miner_view_of(
                #[trigger] chosen[c],
                ws@[i].club_name@,
            );
        assert(chosen[c].id == id);
        let j = choose|j: int| 0 <= j < ms@.len() && ms@[j] == chosen[c];
        assert(worker_from(v, ws@[i], ms@));
    }
}

/// Each row that `rows_with_id` keeps is a row of `ms` with identifier `id`.
pub proof fn lemma_rows_with_id_come_from_rows(ms: Seq<MinerDao>, id: Id)
    ensures
        forall|k: int|
            0 <= k < rows_with_id(ms, id).len() ==> (#[trigger] rows_with_id(ms, id)[k]).id == id
                && exists|j: int| 0 <= j < ms.len() && ms[j] == rows_with_id(ms, id)[k],
    decreases ms.len(),
{
    if ms.len() > 0 {
        let init = ms.drop_last();
        lemma_rows_with_id_come_from_rows(init, id);
        assert forall|k: int| 0 <= k < rows_with_id(ms, id).len() implies (
        #[trigger] rows_with_id(ms, id)[k]).id == id && exists|j: int|
            0 <= j < ms.len() && ms[j] == rows_with_id(ms, id)[k] by {
            if k < rows_with_id(init, id).len() {
                assert(rows_with_id(init, id)[k].id == id);
                let j = choose|j: int| 0 <= j < init.len() && init[j] == rows_with_id(init, id)[k];
                assert(ms[j] == init[j]);
            } else {
                assert(ms[ms.len() - 1] == ms.last());
            }
        }
    }
}

/// A lookup of a miner identifier that no miner row has finds nothing,
/// whatever other rows there are.
pub proof fn law_miner_not_found(
    id: Id,
    wallets: Result<Vec<WalletDAO>, StoreError>,
    miners: Result<Vec<MinerDao>, StoreError>,
)
    requires
        miners matches Ok(ms) ==> forall|j: int| 0 <= j < ms.len() ==> (#[trigger] ms@[j]).id != id,
    ensures
        found_miner(id, wallets, miners) is None,
{
    if let (Ok(ws), Ok(ms)) = (wallets, miners) {
        lemma_no_rows_with_id(ms@, id);
        lemma_empty_join(ws@, Seq::<MinerDao>::empty());
    }
}

/// A lookup of a wallet address that no wallet row has finds nothing,
/// whatever other rows there are.
pub proof fn law_wallet_not_found(
    address: Id,
    wallets: Result<Vec<WalletDAO>, StoreError>,
    miners: Result<Vec<MinerDao>, StoreError>,
)
    requires
        wallets matches Ok(ws) ==> forall|i: int|
            0 <= i < ws.len() ==> (#[trigger] ws@[i]).address != address,
    ensures
        found_wallet(address, wallets, miners) is None,
{
    if let Ok(ws) = wallets {
        lemma_no_first_with_address(ws@, address);
    }
}

/// The only row with identifier `ms[k].id` is the one that `rows_with_id` keeps.
pub proof fn lemma_single_row_with_id(ms: Seq<MinerDao>, k: int)
    requires
        0 <= k < ms.len(),
        forall|j: int| 0 <= j < ms.len() && j != k ==> (#[trigger] ms[j]).id != ms[k].id,
    ensures
        rows_with_id(ms, ms[k].id) == seq![ms[k]],
    decreases ms.len(),
{
    let init = ms.drop_last();
    if k == ms.len() - 1 {
        assert forall|j: int| 0 <= j < init.len() implies (#[trigger] init[j]).id != ms[k].id by {
            assert(init[j] == ms[j]);
        }
        lemma_no_rows_with_id(init, ms[k].id);
        assert(rows_with_id(ms, ms[k].id) =~= seq![ms[k]]);
    } else {
        assert forall|j: int| 0 <= j < init.len() && j != k implies (#[trigger] init[j]).id
            != init[k].id by {
            assert(init[j] == ms[j]);
        }
        lemma_single_row_with_id(init, k);
        assert(ms[ms.len() - 1] == ms.last());
    }
}

/// Joining the single miner row `d` gives it once, under the club name of the
/// only wallet row `ws[k]` at its address.
pub proof fn lemma_join_single(ws: Seq<WalletDAO>, k: int, d: MinerDao)
    requires
        0 <= k < ws.len(),
        ws[k].address == d.address,
        forall|i: int| 0 <= i < ws.len() && i != k ==> (#[trigger] ws[i]).address != d.address,
    ensures
        joined_miners(ws, seq![d]) == seq![miner_view_of(d, ws[k].club_name@)],
    decreases ws.len(),
{
    let init = ws.drop_last();
    let one = seq![d];
    assert(one.drop_last() =~= Seq::<MinerDao>::empty());
    assert(one.last() == d);
    assert(workers_of(ws.last(), one.drop_last()) == Seq::<MinerView>::empty());
    if k == ws.len() - 1 {
        assert forall|i: int, j: int| 0 <= i < init.len() && 0 <= j < one.len() implies (
        #[trigger] one[j]).address != (#[trigger] init[i]).address by {
            assert(init[i] == ws[i]);
        }
        lemma_empty_join(init, one);
        assert(ws.last() == ws[k]);
        assert(joined_miners(ws, one) =~= seq![miner_view_of(d, ws[k].club_name@)]);
    } else {
        assert forall|i: int| 0 <= i < init.len() && i != k implies (#[trigger] init[i]).address
            != d.address by {
            assert(init[i] == ws[i]);
        }
        lemma_join_single(init, k, d);
        assert(ws[ws.len() - 1] == ws.last());
        assert(ws.last().address != d.address);
        assert(workers_of(ws.last(), one) =~= Seq::<MinerView>::empty());
        assert(joined_miners(ws, one) =~= seq![miner_view_of(d, ws[k].club_name@)]);
    }
}

/// Wallet creation round trip: once the created row `new_wallet` stands in the
/// wallets table (whose addresses are keys) and no miner is at its fresh
/// address yet, a lookup of its address finds it with its club name and no
/// miners, as creation returned it.
pub proof fn law_wallet_round_trip(
    new_wallet: WalletDAO,
    ws: Vec<WalletDAO>,
    miners: Result<Vec<MinerDao>, StoreError>,
)
    requires
        ws@.contains(new_wallet),
        forall|i: int, j: int|
            0 <= i < ws.len() && 0 <= j < ws.len() && (#[trigger] ws@[i]).address == (
            #[trigger] ws@[j]).address ==> i == j,
        miners matches Ok(ms) ==> forall|j: int|
            0 <= j < ms.len() ==> (#[trigger] ms@[j]).address != new_wallet.address,
    ensures
        found_wallet(new_wallet.address, Ok(ws), miners) == Some(
            wallet_view_of(new_wallet, Seq::<MinerView>::empty()),
        ),
        found_wallet(new_wallet.address, Ok(ws), miners) matches Some(v) ==> v.club_name
            == new_wallet.club_name@ && v.workers_online.len() == 0,
{
    let k = choose|k: int| 0 <= k < ws@.len() && ws@[k] == new_wallet;
    lemma_first_at(ws@, k, new_wallet.address);
    if let Ok(ms) = miners {
        lemma_no_workers(new_wallet, ms@);
    }
}

/// Miner creation round trip: once the created row `new_miner` stands in the
/// miners table (whose identifiers are keys) and its wallet `w` in the
/// wallets table (whose addresses are keys), a lookup of its identifier finds
/// it under `w`'s club name.
pub proof fn law_miner_round_trip(
    new_miner: MinerDao,
    w: WalletDAO,
    ws: Vec<WalletDAO>,
    ms: Vec<MinerDao>,
)
    requires
        w.address == new_miner.address,
        ws@.contains(w),
        forall|i: int, j: int|
            0 <= i < ws.len() && 0 <= j < ws.len() && (#[trigger] ws@[i]).address == (
            #[trigger] ws@[j]).address ==> i == j,
        ms@.contains(new_miner),
        forall|i: int, j: int|
            0 <= i < ms.len() && 0 <= j < ms.len() && (#[trigger] ms@[i]).id == (
            #[trigger] ms@[j]).id ==> i == j,
    ensures
        found_miner(new_miner.id, Ok(ws), Ok(ms)) == Some(miner_view_of(new_miner, w.club_name@)),
{
    let k = choose|k: int| 0 <= k < ws@.len() && ws@[k] == w;
    let n = choose|n: int| 0 <= n < ms@.len() && ms@[n] == new_miner;
    assert forall|j: int| 0 <= j < ms@.len() && j != n implies (#[trigger] ms@[j]).id
        != ms@[n].id by {}
    lemma_single_row_with_id(ms@, n);
    assert forall|i: int| 0 <= i < ws@.len() && i != k implies (#[trigger] ws@[i]).address
        != new_miner.address by {}
    lemma_join_single(ws@, k, new_miner);
}

/// Partial-failure read: where the wallet read finds a row at `address` and
/// only the miner read failed, the lookup still finds the wallet, with no
/// miners and zero totals.
pub proof fn law_partial_failure_read(address: Id, ws: Vec<WalletDAO>, e: StoreError)
    requires
        exists|i: int| 0 <= i < ws.len() && (#[trigger] ws@[i]).address == address,
    ensures
        found_wallet(address, Ok(ws), Err(e)) matches Some(v) && v.workers_online.len() == 0
            && v.total_workers_online == 0 && v.total_hash_rate == 0 && v.total_shares_mined == 0,
{
    let i = choose|i: int| 0 <= i < ws.len() && (#[trigger] ws@[i]).address == address;
    lemma_some_first_with_address(ws@, i, address);
}

/// Aggregation over no miners: a wallet with an empty miner list has all
/// totals zero.
pub proof fn law_no_miners_zero_totals(w: WalletDAO)
    ensures
        wallet_view_of(w, Seq::<MinerView>::empty()).total_hash_rate == 0,
        wallet_view_of(w, Seq::<MinerView>::empty()).total_shares_mined == 0,
        wallet_view_of(w, Seq::<MinerView>::empty()).total_workers_online == 0,
{
}

/// Aggregation: adding one miner to a wallet's list adds its hash rate and
/// share count to the totals and one to the miner count.
pub proof fn law_totals_grow_by_one_miner(w: WalletDAO, ms: Seq<MinerView>, m: MinerView)
    ensures
        wallet_view_of(w, ms.push(m)).total_hash_rate == wallet_view_of(w, ms).total_hash_rate
            + m.hash_rate,
        wallet_view_of(w, ms.push(m)).total_shares_mined == wallet_view_of(w, ms).total_shares_mined
            + m.shares_mined,
        wallet_view_of(w, ms.push(m)).total_workers_online == wallet_view_of(
            w,
            ms,
        ).total_workers_online + 1,
{
    assert(ms.push(m).drop_last() =~= ms);
}

} // verus!
