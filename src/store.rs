//! The running total of every asset, per accounting bucket.
use vstd::prelude::*;

use crate::asset::{AssetType, Token};

verus! {

/// An amount of an asset, in its smallest unit.
pub type Balance = u64;

/// The key under which a total is kept: an asset symbol and a bucket.
pub type BalanceKey = (Seq<u8>, AssetType);

/// The total under `k` in `m`; a key that was never touched holds zero.
pub open spec fn total_of(m: Map<BalanceKey, Balance>, k: BalanceKey) -> Balance {
    if m.contains_key(k) {
        m[k]
    } else {
        0
    }
}

/// Whether two byte strings hold the same bytes.
fn bytes_eq(a: &[u8], b: &[u8]) -> (r: bool)
    ensures
        r == (a@ == b@),
{
    if a.len() != b.len() {
        return false;
    }
    let mut i: usize = 0;
    while i < a.len()
        invariant
            i <= a@.len(),
            a@.len() == b@.len(),
            forall|j: int| 0 <= j < i ==> a@[j] == b@[j],
        decreases a@.len() - i,
    {
        if a[i] != b[i] {
            return false;
        }
        i = i + 1;
    }
    assert(a@ =~= b@);
    true
}

/// Totals per asset symbol and bucket.
///
/// This is the handle through which every settled imbalance reaches the ledger.
#[derive(Debug)]
pub struct TotalAssetBalance {
    keys: Vec<(Token, AssetType)>,
    amounts: Vec<Balance>,
}

impl TotalAssetBalance {
    closed spec fn key_at(&self, i: int) -> BalanceKey {
        (self.keys@[i].0@, self.keys@[i].1)
    }

    closed spec fn has_key_at(&self, i: int, k: BalanceKey) -> bool {
        0 <= i < self.keys@.len() && self.key_at(i) == k
    }

    /// The two columns have one length and no key occurs twice.
    pub closed spec fn wf(&self) -> bool {
        &&& self.keys@.len() == self.amounts@.len()
        &&& forall|i: int, j: int|
            0 <= i < self.keys@.len() && 0 <= j < self.keys@.len() && i != j ==> #[trigger] self.key_at(
                i,
            ) != #[trigger] self.key_at(j)
    }

    /// Creates a store in which every total is zero.
    pub fn new() -> (r: Self)
        ensures
            r.wf(),
            r@ == Map::<BalanceKey, Balance>::empty(),
    {
        let r = TotalAssetBalance { keys: Vec::new(), amounts: Vec::new() };
        assert(r@ =~= Map::<BalanceKey, Balance>::empty());
        r
    }

    fn find(&self, token: &[u8], bucket: AssetType) -> (r: Option<usize>)
        requires
            self.wf(),
        ensures
            r matches Some(i) ==> self.has_key_at(i as int, (token@, bucket)),
            r is None ==> forall|i: int| !#[trigger] self.has_key_at(i, (token@, bucket)),
    {
        let mut i: usize = 0;
        while i < self.keys.len()
            invariant
                i <= self.keys@.len(),
                forall|j: int| 0 <= j < i ==> !#[trigger] self.has_key_at(j, (token@, bucket)),
            decreases self.keys@.len() - i,
        {
            if self.keys[i].1 == bucket && bytes_eq(self.keys[i].0.as_slice(), token) {
                return Some(i);
            }
            i = i + 1;
        }
        None
    }

    /// The total of `bucket` for the asset `token`.
    pub fn get(&self, token: &[u8], bucket: AssetType) -> (r: Balance)
        requires
            self.wf(),
        ensures
            r == total_of(self@, (token@, bucket)),
    {
        match self.find(token, bucket) {
            Some(i) => {
                proof {
                    self.lemma_view_at(i as int);
                }
                self.amounts[i]
            },
            None => 0,
        }
    }

    proof fn lemma_view_at(&self, i: int)
        requires
            self.wf(),
            0 <= i < self.keys@.len(),
        ensures
            self@.contains_key(self.key_at(i)),
            self@[self.key_at(i)] == self.amounts@[i],
    {
        let k = self.key_at(i);
        assert(self.has_key_at(i, k));
        let j = choose|j: int| self.has_key_at(j, k);
        assert(self.key_at(j) == self.key_at(i));
    }

    /// Sets the total of `bucket` for the asset `token` to `amount`.
    pub fn set(&mut self, token: Token, bucket: AssetType, amount: Balance)
        requires
            old(self).wf(),
        ensures
            final(self).wf(),
            final(self)@ == old(self)@.insert((token@, bucket), amount),
    {
        let k: Ghost<BalanceKey> = Ghost((token@, bucket));
        match self.find(token.as_slice(), bucket) {
            Some(i) => {
                let ghost pre = *self;
                self.amounts.set(i, amount);
                proof {
                    assert(self.keys@ == pre.keys@);
                    assert(pre.wf());
                    assert forall|a: int, b: int|
                        0 <= a < self.keys@.len() && 0 <= b < self.keys@.len() && a != b implies #[trigger] self.key_at(a)
                        != #[trigger] self.key_at(b) by {
                        assert(pre.key_at(a) != pre.key_at(b));
                    }
                    assert(self.wf());
                    assert forall|k2: BalanceKey| #[trigger]
                        self@.contains_key(k2) == pre@.contains_key(k2) by {
                        if pre@.contains_key(k2) {
                            let j = choose|j: int| pre.has_key_at(j, k2);
                            assert(self.has_key_at(j, k2));
                        }
                        if self@.contains_key(k2) {
                            let j = choose|j: int| self.has_key_at(j, k2);
                            assert(pre.has_key_at(j, k2));
                        }
                    }
                    assert forall|k2: BalanceKey| #[trigger] self@.contains_key(k2) implies self@[k2]
                        == pre@.insert(k@, amount)[k2] by {
                        let j = choose|j: int| self.has_key_at(j, k2);
                        self.lemma_view_at(j);
                        pre.lemma_view_at(j);
                        if k2 == k@ {
                            assert(self.key_at(j) == self.key_at(i as int));
                        }
                    }
                    assert(self@ =~= pre@.insert(k@, amount));
                }
            },
            None => {
                let ghost pre = *self;
                self.keys.push((token, bucket));
                self.amounts.push(amount);
                proof {
                    let n = pre.keys@.len() as int;
                    assert(self.key_at(n) == k@);
                    assert forall|j: int| 0 <= j < n implies self.key_at(j) == pre.key_at(j) by {}
                    assert forall|a: int, b: int|
                        0 <= a < self.keys@.len() && 0 <= b < self.keys@.len() && a != b implies #[trigger] self.key_at(a)
                        != #[trigger] self.key_at(b) by {
                        if a < n && b < n {
                            assert(pre.key_at(a) != pre.key_at(b));
                        } else if a < n {
                            assert(!pre.has_key_at(a, k@));
                        } else if b < n {
                            assert(!pre.has_key_at(b, k@));
                        }
                    }
                    assert forall|k2: BalanceKey| #[trigger]
                        self@.contains_key(k2) == pre@.insert(k@, amount).contains_key(k2) by {
                        if pre@.contains_key(k2) {
                            let j = choose|j: int| pre.has_key_at(j, k2);
                            assert(self.has_key_at(j, k2));
                        }
                        if k2 == k@ {
                            assert(self.has_key_at(n, k2));
                        }
                        if self@.contains_key(k2) {
                            let j = choose|j: int| self.has_key_at(j, k2);
                            if j < n {
                                assert(pre.has_key_at(j, k2));
                            }
                        }
                    }
                    assert forall|k2: BalanceKey| #[trigger] self@.contains_key(k2) implies self@[k2]
                        == pre@.insert(k@, amount)[k2] by {
                        let j = choose|j: int| self.has_key_at(j, k2);
                        self.lemma_view_at(j);
                        if j < n {
                            pre.lemma_view_at(j);
                        }
                    }
                    assert(self@ =~= pre@.insert(k@, amount));
                }
            },
        }
    }
}

impl View for TotalAssetBalance {
    type V = Map<BalanceKey, Balance>;

    closed spec fn view(&self) -> Map<BalanceKey, Balance> {
        Map::new(
            |k: BalanceKey| exists|i: int| self.has_key_at(i, k),
            |k: BalanceKey| self.amounts@[choose|i: int| self.has_key_at(i, k)],
        )
    }
}

} // verus!
