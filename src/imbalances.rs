//! Move-only tokens for value created or destroyed but not yet applied to the totals.
//!
//! A token is consumed exactly once: by `split`, `merge`, `subsume` or `offset`, which
//! hand its value on to the tokens they return, or by `drop`, which applies it to the
//! [`TotalAssetBalance`] handle. Only `drop` changes a total.
use vstd::prelude::*;

use crate::asset::{AssetType, Token};
use crate::store::{total_of, Balance, TotalAssetBalance};

verus! {

/// A pending change of one total, by its sign and size.
pub enum Pending {
    Credit(Balance),
    Debit(Balance),
}

/// The signed size of a pending change.
pub open spec fn signed_value(p: Pending) -> int {
    match p {
        Pending::Credit(a) => a as int,
        Pending::Debit(a) => -(a as int),
    }
}

/// Clamps `x` to the range of a [`Balance`].
pub open spec fn clamp(x: int) -> int {
    if x < 0 {
        0
    } else if x > u64::MAX {
        u64::MAX as int
    } else {
        x
    }
}

/// The total that applying `p` to `total` leaves, saturating at both ends.
pub open spec fn settle(total: int, p: Pending) -> int {
    clamp(total + signed_value(p))
}

/// The two parts of `a` split at `k`: `min(a, k)` and what is left.
pub open spec fn split_amounts(a: Balance, k: Balance) -> (Balance, Balance) {
    if a <= k {
        (a, 0)
    } else {
        (k, (a - k) as Balance)
    }
}

/// The sum of two amounts, saturating.
pub open spec fn merge_amount(a: Balance, b: Balance) -> Balance {
    if a + b > u64::MAX {
        u64::MAX
    } else {
        (a + b) as Balance
    }
}

/// What offsetting `b` against `a`, of the opposite sign, leaves: the sign of `a`
/// when `a >= b`, else the opposite sign.
pub open spec fn offset_pending(p: Pending, q: Pending) -> Pending {
    match (p, q) {
        (Pending::Credit(a), Pending::Debit(b)) => if a >= b {
            Pending::Credit((a - b) as Balance)
        } else {
            Pending::Debit((b - a) as Balance)
        },
        (Pending::Debit(a), Pending::Credit(b)) => if a >= b {
            Pending::Debit((a - b) as Balance)
        } else {
            Pending::Credit((b - a) as Balance)
        },
        _ => p,
    }
}

/// The abstract content of an imbalance token.
pub struct ImbalanceView {
    pub amount: Balance,
    pub token: Seq<u8>,
    pub bucket: AssetType,
}

/// Funds created with no equal and opposite accounting yet.
#[derive(Debug)]
#[must_use]
pub struct PositiveImbalance(Balance, Token, AssetType);

/// Funds destroyed with no equal and opposite accounting yet.
#[derive(Debug)]
#[must_use]
pub struct NegativeImbalance(Balance, Token, AssetType);

impl View for PositiveImbalance {
    type V = ImbalanceView;

    closed spec fn view(&self) -> ImbalanceView {
        ImbalanceView { amount: self.0, token: self.1@, bucket: self.2 }
    }
}

impl View for NegativeImbalance {
    type V = ImbalanceView;

    closed spec fn view(&self) -> ImbalanceView {
        ImbalanceView { amount: self.0, token: self.1@, bucket: self.2 }
    }
}

/// The pending change that an offset hands back when it started from a surplus.
pub open spec fn positive_offset_pending(r: Result<PositiveImbalance, NegativeImbalance>) -> Pending {
    match r {
        Ok(p) => Pending::Credit(p@.amount),
        Err(n) => Pending::Debit(n@.amount),
    }
}

/// The pending change that an offset hands back when it started from a deficit.
pub open spec fn negative_offset_pending(r: Result<NegativeImbalance, PositiveImbalance>) -> Pending {
    match r {
        Ok(n) => Pending::Debit(n@.amount),
        Err(p) => Pending::Credit(p@.amount),
    }
}

impl PositiveImbalance {
    /// The pending change this token stands for.
    pub open spec fn pending(&self) -> Pending {
        Pending::Credit(self@.amount)
    }

    /// Creates a surplus of `amount` of the asset `token` in the bucket `type_`.
    pub fn new(amount: Balance, token: Token, type_: AssetType) -> (r: Self)
        ensures
            r@ == (ImbalanceView { amount, token: token@, bucket: type_ }),
    {
        PositiveImbalance(amount, token, type_)
    }

    /// A surplus of nothing, on the free bucket of `default_token`.
    pub fn zero(default_token: Token) -> (r: Self)
        ensures
            r@ == (ImbalanceView { amount: 0, token: default_token@, bucket: AssetType::Free }),
    {
        PositiveImbalance(0, default_token, AssetType::Free)
    }

    /// Discards a token of amount zero; hands any other token back unchanged.
    pub fn drop_zero(self) -> (r: Result<(), Self>)
        ensures
            r is Ok <==> self@.amount == 0,
            r matches Err(s) ==> s@ == self@,
    {
        if self.0 == 0 {
            Ok(())
        } else {
            Err(self)
        }
    }

    /// Parts the token in two of the same tag: `min(amount, self)` and the rest.
    pub fn split(self, amount: Balance) -> (r: (Self, Self))
        ensures
            (r.0@.amount, r.1@.amount) == split_amounts(self@.amount, amount),
            r.0@.amount + r.1@.amount == self@.amount,
            r.0@.token == self@.token && r.0@.bucket == self@.bucket,
            r.1@.token == self@.token && r.1@.bucket == self@.bucket,
    {
        let PositiveImbalance(a, token, bucket) = self;
        let first: Balance = if a <= amount {
            a
        } else {
            amount
        };
        let second: Balance = a - first;
        (PositiveImbalance(first, token.clone(), bucket), PositiveImbalance(second, token, bucket))
    }

    /// Joins `other` into this token, adding the amounts with saturation; the tag
    /// of `self` is kept.
    pub fn merge(self, other: Self) -> (r: Self)
        ensures
            r@ == (ImbalanceView { amount: merge_amount(self@.amount, other@.amount), ..self@ }),
    {
        let PositiveImbalance(a, token, bucket) = self;
        PositiveImbalance(a.saturating_add(other.0), token, bucket)
    }

    /// Joins `other` into this token in place, as [`Self::merge`] does.
    pub fn subsume(&mut self, other: Self)
        ensures
            final(self)@ == (ImbalanceView {
                amount: merge_amount(old(self)@.amount, other@.amount),
                ..old(self)@
            }),
    {
        self.0 = self.0.saturating_add(other.0);
    }

    /// Squares this surplus against the deficit `other`: what remains is a surplus
    /// when `self >= other`, else a deficit, tagged as `self` either way.
    pub fn offset(self, other: NegativeImbalance) -> (r: Result<Self, NegativeImbalance>)
        ensures
            positive_offset_pending(r) == offset_pending(self.pending(), other.pending()),
            signed_value(positive_offset_pending(r)) == self@.amount - other@.amount,
            self@.amount >= other@.amount ==> r is Ok,
            r matches Ok(p) ==> p@.token == self@.token && p@.bucket == self@.bucket,
            r matches Err(n) ==> n@.token == self@.token && n@.bucket == self@.bucket,
    {
        let PositiveImbalance(a, token, bucket) = self;
        let b: Balance = other.0;
        if a >= b {
            Ok(PositiveImbalance(a - b, token, bucket))
        } else {
            Err(NegativeImbalance(b - a, token, bucket))
        }
    }

    /// The amount this token carries.
    pub fn peek(&self) -> (r: Balance)
        ensures
            r == self@.amount,
    {
        self.0
    }

    /// Applies the surplus: the total of its asset and bucket grows by its amount,
    /// saturating at the largest balance.
    pub fn drop(self, totals: &mut TotalAssetBalance)
        requires
            old(totals).wf(),
        ensures
            final(totals).wf(),
            final(totals)@ == old(totals)@.insert(
                (self@.token, self@.bucket),
                settle(total_of(old(totals)@, (self@.token, self@.bucket)) as int, self.pending())
                    as Balance,
            ),
    {
        let PositiveImbalance(amount, token, bucket) = self;
        let balance: Balance = totals.get(token.as_slice(), bucket);
        totals.set(token, bucket, balance.saturating_add(amount));
    }
}

impl NegativeImbalance {
    /// The pending change this token stands for.
    pub open spec fn pending(&self) -> Pending {
        Pending::Debit(self@.amount)
    }

    /// Creates a deficit of `amount` of the asset `token` in the bucket `type_`.
    pub fn new(amount: Balance, token: Token, type_: AssetType) -> (r: Self)
        ensures
            r@ == (ImbalanceView { amount, token: token@, bucket: type_ }),
    {
        NegativeImbalance(amount, token, type_)
    }

    /// A deficit of nothing, on the free bucket of `default_token`.
    pub fn zero(default_token: Token) -> (r: Self)
        ensures
            r@ == (ImbalanceView { amount: 0, token: default_token@, bucket: AssetType::Free }),
    {
        NegativeImbalance(0, default_token, AssetType::Free)
    }

    /// Discards a token of amount zero; hands any other token back unchanged.
    pub fn drop_zero(self) -> (r: Result<(), Self>)
        ensures
            r is Ok <==> self@.amount == 0,
            r matches Err(s) ==> s@ == self@,
    {
        if self.0 == 0 {
            Ok(())
        } else {
            Err(self)
        }
    }

    /// Parts the token in two of the same tag: `min(amount, self)` and the rest.
    pub fn split(self, amount: Balance) -> (r: (Self, Self))
        ensures
            (r.0@.amount, r.1@.amount) == split_amounts(self@.amount, amount),
            r.0@.amount + r.1@.amount == self@.amount,
            r.0@.token == self@.token && r.0@.bucket == self@.bucket,
            r.1@.token == self@.token && r.1@.bucket == self@.bucket,
    {
        let NegativeImbalance(a, token, bucket) = self;
        let first: Balance = if a <= amount {
            a
        } else {
            amount
        };
        let second: Balance = a - first;
        (NegativeImbalance(first, token.clone(), bucket), NegativeImbalance(second, token, bucket))
    }

    /// Joins `other` into this token, adding the amounts with saturation; the tag
    /// of `self` is kept.
    pub fn merge(self, other: Self) -> (r: Self)
        ensures
            r@ == (ImbalanceView { amount: merge_amount(self@.amount, other@.amount), ..self@ }),
    {
        let NegativeImbalance(a, token, bucket) = self;
        NegativeImbalance(a.saturating_add(other.0), token, bucket)
    }

    /// Joins `other` into this token in place, as [`Self::merge`] does.
    pub fn subsume(&mut self, other: Self)
        ensures
            final(self)@ == (ImbalanceView {
                amount: merge_amount(old(self)@.amount, other@.amount),
                ..old(self)@
            }),
    {
        self.0 = self.0.saturating_add(other.0);
    }

    /// Squares this deficit against the surplus `other`: what remains is a deficit
    /// when `self >= other`, else a surplus, tagged as `self` either way.
    pub fn offset(self, other: PositiveImbalance) -> (r: Result<Self, PositiveImbalance>)
        ensures
            negative_offset_pending(r) == offset_pending(self.pending(), other.pending()),
            signed_value(negative_offset_pending(r)) == other@.amount - self@.amount,
            self@.amount >= other@.amount ==> r is Ok,
            r matches Ok(n) ==> n@.token == self@.token && n@.bucket == self@.bucket,
            r matches Err(p) ==> p@.token == self@.token && p@.bucket == self@.bucket,
    {
        let NegativeImbalance(a, token, bucket) = self;
        let b: Balance = other.0;
        if a >= b {
            Ok(NegativeImbalance(a - b, token, bucket))
        } else {
            Err(PositiveImbalance(b - a, token, bucket))
        }
    }

    /// The amount this token carries.
    pub fn peek(&self) -> (r: Balance)
        ensures
            r == self@.amount,
    {
        self.0
    }

    /// Applies the deficit: the total of its asset and bucket shrinks by its amount,
    /// saturating at zero.
    pub fn drop(self, totals: &mut TotalAssetBalance)
        requires
            old(totals).wf(),
        ensures
            final(totals).wf(),
            final(totals)@ == old(totals)@.insert(
                (self@.token, self@.bucket),
                settle(total_of(old(totals)@, (self@.token, self@.bucket)) as int, self.pending())
                    as Balance,
            ),
    {
        let NegativeImbalance(amount, token, bucket) = self;
        let balance: Balance = totals.get(token.as_slice(), bucket);
        totals.set(token, bucket, balance.saturating_sub(amount));
    }
}

} // verus!
