//! Random choices of the workloads: who receives next, and which transfer a
//! random-transfer step makes. Each choice is a verified function of the
//! numbers drawn, so a fixed draw replays a workload exactly.

use vstd::prelude::*;

verus! {

/// Relies on `rand::thread_rng` and `rand::Rng::gen_range`: a number drawn
/// from `0..n`. `gen_range` panics on an empty range, which `n > 0` rules
/// out.
#[verifier::external_body]
pub(crate) fn random_below(n: usize) -> (r: usize)
    requires
        n > 0,
    ensures
        r < n,
{
    rand::Rng::gen_range(&mut rand::thread_rng(), 0..n)
}

/// Relies on `rand::seq::SliceRandom::shuffle` with `rand::thread_rng`: the
/// same items in a random order.
#[verifier::external_body]
fn shuffled(items: Vec<usize>) -> (r: Vec<usize>)
    ensures
        r@.to_multiset() == items@.to_multiset(),
{
    let mut items = items;
    rand::seq::SliceRandom::shuffle(items.as_mut_slice(), &mut rand::thread_rng());
    items
}

/// The receiver picked by draw `d` among the wallets other than `sender`:
/// the draws `0..W-1` stand for the other wallets in order.
pub open spec fn receiver_for(sender: int, d: int) -> int {
    if d >= sender {
        d + 1
    } else {
        d
    }
}

/// The receiver picked by draw `d` among the wallets other than `sender`.
pub fn receiver_from_draw(sender: usize, d: usize, wallets: usize) -> (r: usize)
    requires
        sender < wallets,
        d < wallets - 1,
    ensures
        r == receiver_for(sender as int, d as int),
        r < wallets,
        r != sender,
{
    if d >= sender {
        d + 1
    } else {
        d
    }
}

/// Draws a fair coin.
pub fn random_bool() -> bool {
    random_below(2) == 1
}

/// The amount of a random transfer from a balance of `balance`, for the
/// divisor `p` drawn from `1..=10`: the balance divided by `p`, and at least 1.
pub open spec fn amount_for(balance: nat, p: nat) -> nat {
    if balance / p >= 1 {
        balance / p
    } else {
        1
    }
}

/// The amount of a random transfer is at least 1 and at most the spendable
/// balance it is drawn from, whichever divisor in `1..=10` is drawn.
pub proof fn lemma_amount_within_balance(balance: nat, p: nat)
    requires
        balance >= 1,
        1 <= p <= 10,
    ensures
        1 <= amount_for(balance, p) <= balance,
{
    assert(balance / p <= balance) by (nonlinear_arith)
        requires
            p >= 1,
    ;
}

/// The amount of a random transfer from a spendable balance of `balance`.
pub fn transfer_amount(balance: u64, p: u64) -> (r: u64)
    requires
        1 <= p <= 10,
    ensures
        r == amount_for(balance as nat, p as nat),
        balance >= 1 ==> 1 <= r <= balance,
{
    let frac = balance / p;
    if frac >= 1 {
        frac
    } else {
        1
    }
}

/// The wallet holds an asset with a positive spendable balance.
pub open spec fn has_spendable(balances: Seq<u64>) -> bool {
    exists|i: int| 0 <= i < balances.len() && balances[i] > 0
}

/// The first position in `order` whose wallet has a spendable asset, from
/// position `k` on.
pub open spec fn first_spendable_from(holdings: Seq<Seq<u64>>, order: Seq<usize>, k: int) -> Option<
    int,
>
    decreases order.len() - k,
{
    if k < 0 || k >= order.len() {
        None
    } else if has_spendable(holdings[order[k] as int]) {
        Some(k)
    } else {
        first_spendable_from(holdings, order, k + 1)
    }
}

/// The parties of a random transfer for a shuffled `order` of the wallets:
/// the first wallet in the order that has a spendable asset sends, and the
/// last of the others receives.
pub open spec fn parties_for(holdings: Seq<Seq<u64>>, order: Seq<usize>) -> Option<(int, int)> {
    match first_spendable_from(holdings, order, 0) {
        None => None,
        Some(k) => if order.len() < 2 {
            None
        } else if k == order.len() - 1 {
            Some((order[k] as int, order[k - 1] as int))
        } else {
            Some((order[k] as int, order.last() as int))
        },
    }
}

/// The positions in `order` hold distinct wallets.
pub open spec fn is_order_of(order: Seq<usize>, wallets: nat) -> bool {
    &&& order.len() == wallets
    &&& forall|i: int| 0 <= i < order.len() ==> order[i] < wallets
    &&& forall|i: int, j: int| 0 <= i < j < order.len() ==> order[i] != order[j]
}

fn spendable(balances: &Vec<u64>) -> (r: bool)
    ensures
        r == has_spendable(balances@),
{
    let mut i: usize = 0;
    while i < balances.len()
        invariant
            i <= balances.len(),
            forall|j: int| 0 <= j < i ==> balances[j] == 0,
        decreases balances.len() - i,
    {
        if balances[i] > 0 {
            return true;
        }
        i = i + 1;
    }
    false
}

/// The sender and receiver of a random transfer, for a shuffled `order` of
/// the wallets; `holdings[w]` lists the spendable balances of wallet `w`'s
/// assets. `None` when no wallet has a spendable asset.
pub fn choose_parties(holdings: &Vec<Vec<u64>>, order: &Vec<usize>) -> (r: Option<(usize, usize)>)
    requires
        is_order_of(order@, holdings.len() as nat),
    ensures
        r matches Some(p) ==> parties_for(holdings@.map_values(|b: Vec<u64>| b@), order@)
            == Some((p.0 as int, p.1 as int)),
        r is None ==> parties_for(holdings@.map_values(|b: Vec<u64>| b@), order@) is None,
        r matches Some(p) ==> {
            &&& p.0 < holdings.len()
            &&& p.1 < holdings.len()
            &&& p.0 != p.1
            &&& has_spendable(holdings[p.0 as int]@)
        },
{
    let ghost h = holdings@.map_values(|b: Vec<u64>| b@);
    let mut k: usize = 0;
    while k < order.len()
        invariant
            is_order_of(order@, holdings.len() as nat),
            h == holdings@.map_values(|b: Vec<u64>| b@),
            k <= order.len(),
            first_spendable_from(h, order@, 0) == first_spendable_from(h, order@, k as int),
        decreases order.len() - k,
    {
        assert(h[order[k as int] as int] == holdings[order[k as int] as int]@);
        if spendable(&holdings[order[k]]) {
            let n = order.len();
            if n < 2 {
                return None;
            }
            if k == n - 1 {
                return Some((order[k], order[k - 1]));
            }
            return Some((order[k], order[n - 1]));
        }
        k = k + 1;
    }
    None
}

/// How many of `balances` are positive.
pub open spec fn count_spendable(balances: Seq<u64>) -> nat
    decreases balances.len(),
{
    if balances.len() == 0 {
        0
    } else {
        count_spendable(balances.drop_last()) + if balances.last() > 0 {
            1nat
        } else {
            0nat
        }
    }
}

/// The asset of a random transfer: the `(d % c)`-th of the sender's assets
/// with a positive balance, counting from 0, `c` being how many there are.
/// `None` when there is none.
pub fn choose_asset(balances: &Vec<u64>, d: usize) -> (r: Option<usize>)
    ensures
        count_spendable(balances@) == 0 <==> r is None,
        r matches Some(a) ==> {
            &&& a < balances.len()
            &&& balances[a as int] > 0
            &&& count_spendable(balances@.take(a as int)) == (d as nat) % count_spendable(balances@)
        },
{
    let mut count: usize = 0;
    let mut i: usize = 0;
    while i < balances.len()
        invariant
            i <= balances.len(),
            count == count_spendable(balances@.take(i as int)),
            count <= i,
        decreases balances.len() - i,
    {
        proof {
            assert(balances@.take(i + 1).drop_last() == balances@.take(i as int));
        }
        if balances[i] > 0 {
            count = count + 1;
        }
        i = i + 1;
    }
    proof {
        assert(balances@.take(balances.len() as int) == balances@);
    }
    if count == 0 {
        return None;
    }
    let n = d % count;
    let mut seen: usize = 0;
    let mut j: usize = 0;
    while j < balances.len()
        invariant
            j <= balances.len(),
            seen == count_spendable(balances@.take(j as int)),
            seen <= n,
            n == d % count,
            n < count,
            count == count_spendable(balances@),
        decreases balances.len() - j,
    {
        proof {
            assert(balances@.take(j + 1).drop_last() == balances@.take(j as int));
        }
        if balances[j] > 0 {
            if seen == n {
                assert(n as nat == (d as nat) % count_spendable(balances@));
                return Some(j);
            }
            seen = seen + 1;
        }
        j = j + 1;
    }
    proof {
        assert(balances@.take(balances.len() as int) == balances@);
    }
    None
}

/// The choices of one random transfer: positions of the sender and the
/// receiver among the wallets, the position of the asset among the sender's
/// assets, and the amount.
#[derive(Clone, Copy, Debug, PartialEq, Eq, Structural)]
pub struct TransferChoice {
    pub sender: usize,
    pub receiver: usize,
    pub asset: usize,
    pub amount: u64,
}

/// Wallet `w` stands somewhere in `order`.
pub open spec fn stands_in(order: Seq<usize>, w: int) -> bool {
    exists|i: int| 0 <= i < order.len() && order[i] == w
}

/// Every wallet below `wallets` stands somewhere in `order`.
pub open spec fn covers(order: Seq<usize>, wallets: nat) -> bool {
    forall|w: int| 0 <= w < wallets ==> #[trigger] stands_in(order, w)
}

/// The choices a random-transfer step makes for the shuffled `order` of the
/// wallets, the draw `asset_draw` and the divisor `p`; `holdings[w]` lists
/// the spendable balances of wallet `w`'s assets.
pub fn select_transfer(holdings: &Vec<Vec<u64>>, order: &Vec<usize>, asset_draw: usize, p: u64) -> (r:
    Option<TransferChoice>)
    requires
        is_order_of(order@, holdings.len() as nat),
        1 <= p <= 10,
    ensures
        r is None <==> parties_for(holdings@.map_values(|b: Vec<u64>| b@), order@) is None,
        r matches Some(c) ==> {
            let balances = holdings[c.sender as int]@;
            &&& parties_for(holdings@.map_values(|b: Vec<u64>| b@), order@) == Some(
                (c.sender as int, c.receiver as int),
            )
            &&& c.sender != c.receiver
            &&& c.sender < holdings.len()
            &&& c.receiver < holdings.len()
            &&& c.asset < balances.len()
            &&& balances[c.asset as int] > 0
            &&& count_spendable(balances.take(c.asset as int)) == (asset_draw as nat)
                % count_spendable(balances)
            &&& c.amount == amount_for(balances[c.asset as int] as nat, p as nat)
            &&& 1 <= c.amount <= balances[c.asset as int]
        },
{
    let (sender, receiver) = match choose_parties(holdings, order) {
        Some(pair) => pair,
        None => {
            return None;
        },
    };
    let balances = &holdings[sender];
    proof {
        let i = choose|i: int| 0 <= i < balances@.len() && balances@[i] > 0;
        lemma_count_positive(balances@, i);
    }
    let asset = match choose_asset(balances, asset_draw) {
        Some(a) => a,
        None => {
            return None;
        },
    };
    let amount = transfer_amount(balances[asset], p);
    Some(TransferChoice { sender, receiver, asset, amount })
}

proof fn lemma_count_positive(balances: Seq<u64>, i: int)
    requires
        0 <= i < balances.len(),
        balances[i] > 0,
    ensures
        count_spendable(balances) > 0,
    decreases balances.len(),
{
    if i < balances.len() - 1 {
        lemma_count_positive(balances.drop_last(), i);
    }
}

proof fn lemma_none_spendable_from(holdings: Seq<Seq<u64>>, order: Seq<usize>, k: int)
    requires
        0 <= k,
        order.len() <= holdings.len(),
        forall|i: int| 0 <= i < order.len() ==> order[i] < holdings.len(),
        first_spendable_from(holdings, order, k) is None,
    ensures
        forall|m: int| k <= m < order.len() ==> !has_spendable(holdings[order[m] as int]),
    decreases order.len() - k,
{
    if k < order.len() {
        lemma_none_spendable_from(holdings, order, k + 1);
    }
}

/// Checks that `order` holds each wallet below `wallets` exactly once.
fn is_order(order: &Vec<usize>, wallets: usize) -> (r: bool)
    ensures
        r ==> is_order_of(order@, wallets as nat) && covers(order@, wallets as nat),
{
    if order.len() != wallets {
        return false;
    }
    let mut i: usize = 0;
    while i < order.len()
        invariant
            i <= order.len(),
            order.len() == wallets,
            forall|a: int| 0 <= a < i ==> order[a] < wallets,
            forall|a: int, b: int| 0 <= a < b < order.len() && a < i ==> order[a] != order[b],
        decreases order.len() - i,
    {
        if order[i] >= wallets {
            return false;
        }
        let mut j: usize = i + 1;
        while j < order.len()
            invariant
                i < j <= order.len(),
                forall|b: int| i < b < j ==> order[i as int] != order[b],
            decreases order.len() - j,
        {
            if order[i] == order[j] {
                return false;
            }
            j = j + 1;
        }
        i = i + 1;
    }
    let mut w: usize = 0;
    while w < wallets
        invariant
            w <= wallets,
            order.len() == wallets,
            forall|v: int| 0 <= v < w ==> #[trigger] stands_in(order@, v),
        decreases wallets - w,
    {
        let mut found = false;
        let mut a: usize = 0;
        while a < order.len()
            invariant
                a <= order.len(),
                found ==> stands_in(order@, w as int),
            decreases order.len() - a,
        {
            if order[a] == w {
                found = true;
            }
            a = a + 1;
        }
        if !found {
            return false;
        }
        w = w + 1;
    }
    true
}

/// The wallets `0..n` in order.
fn identity_order(n: usize) -> (r: Vec<usize>)
    ensures
        r.len() == n,
        forall|i: int| 0 <= i < n ==> r[i] == i,
{
    let mut v: Vec<usize> = Vec::new();
    let mut i: usize = 0;
    while i < n
        invariant
            i <= n,
            v.len() == i,
            forall|k: int| 0 <= k < i ==> v[k] == k,
        decreases n - i,
    {
        v.push(i);
        i = i + 1;
    }
    v
}

/// Draws the choices of one random transfer: the wallets in a random order,
/// the first of them with a spendable asset as sender, the last of the
/// others as receiver, one of the sender's spendable assets at random, and
/// the balance divided by a number drawn from `1..=10` as amount. `None`
/// exactly when there are fewer than two wallets or none has a spendable
/// asset.
pub fn random_transfer(holdings: &Vec<Vec<u64>>) -> (r: Option<TransferChoice>)
    ensures
        r is None <==> holdings.len() < 2 || forall|w: int|
            0 <= w < holdings.len() ==> !has_spendable(#[trigger] holdings[w]@),
        r matches Some(c) ==> {
            let balances = holdings[c.sender as int]@;
            &&& c.sender < holdings.len()
            &&& c.receiver < holdings.len()
            &&& c.sender != c.receiver
            &&& c.asset < balances.len()
            &&& balances[c.asset as int] > 0
            &&& 1 <= c.amount <= balances[c.asset as int]
        },
{
    let n = holdings.len();
    let ghost h = holdings@.map_values(|b: Vec<u64>| b@);
    let drawn = shuffled(identity_order(n));
    let order = if is_order(&drawn, n) {
        drawn
    } else {
        identity_order(n)
    };
    proof {
        assert forall|w: int| 0 <= w < n implies #[trigger] stands_in(order@, w) by {
            if !covers(order@, n as nat) {
                assert(order[w] == w);
            }
        }
        assert(covers(order@, n as nat));
    }
    let asset_draw = random_below(usize::MAX);
    let p = random_below(10) + 1;
    let r = select_transfer(holdings, &order, asset_draw, p as u64);
    proof {
        if r is None {
            if n >= 2 {
                if first_spendable_from(h, order@, 0) is None {
                    lemma_none_spendable_from(h, order@, 0);
                    assert forall|w: int| 0 <= w < n implies !has_spendable(
                        #[trigger] holdings[w]@,
                    ) by {
                        assert(stands_in(order@, w));
                        let a = choose|a: int| 0 <= a < order.len() && order[a] == w;
                        assert(h[order[a] as int] == holdings[w]@);
                    }
                }
            }
        } else {
            let c = r->0;
            assert(h[c.sender as int] == holdings[c.sender as int]@);
            assert(has_spendable(holdings[c.sender as int]@));
        }
    }
    r
}

} // verus!
