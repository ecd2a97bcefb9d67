//! Conservation of value by the imbalance operations.
//!
//! A pool is the list of live tokens of one asset and bucket, each seen as its
//! [`Pending`] change. The operations on a pool are those of the tokens, described by
//! the same spec functions that the tokens' contracts use.
use vstd::prelude::*;

use crate::imbalances::{merge_amount, offset_pending, settle, signed_value, split_amounts, Pending};
use crate::store::Balance;

verus! {

/// One structural operation on a pool, naming tokens by their position.
pub enum PoolOp {
    /// Split the token at `0` at the amount `1`.
    Split(nat, Balance),
    /// Merge the token at `1` into the token at `0`; both of one sign.
    Merge(nat, nat),
    /// Offset the token at `1` against the token at `0`; of opposite signs.
    Offset(nat, nat),
}

/// The sum of the signed values of the tokens of a pool.
pub open spec fn net(pool: Seq<Pending>) -> int
    decreases pool.len(),
{
    if pool.len() == 0 {
        0
    } else {
        net(pool.drop_last()) + signed_value(pool.last())
    }
}

pub open spec fn is_credit(p: Pending) -> bool {
    p is Credit
}

pub open spec fn amount_of(p: Pending) -> Balance {
    match p {
        Pending::Credit(a) => a,
        Pending::Debit(a) => a,
    }
}

/// A change of the sign of `p` and of size `a`.
pub open spec fn with_amount(p: Pending, a: Balance) -> Pending {
    if is_credit(p) {
        Pending::Credit(a)
    } else {
        Pending::Debit(a)
    }
}

/// The pool without the tokens at `i` and `j`.
pub open spec fn remove_two(pool: Seq<Pending>, i: int, j: int) -> Seq<Pending> {
    if i > j {
        pool.remove(i).remove(j)
    } else {
        pool.remove(j).remove(i)
    }
}

/// Whether `op` applies to `pool` without saturating: positions in range and
/// distinct, signs as the operation needs, and a merged sum that fits.
pub open spec fn op_ok(pool: Seq<Pending>, op: PoolOp) -> bool {
    match op {
        PoolOp::Split(i, _) => i < pool.len(),
        PoolOp::Merge(i, j) => i < pool.len() && j < pool.len() && i != j && is_credit(pool[i as int])
            == is_credit(pool[j as int]) && amount_of(pool[i as int]) + amount_of(pool[j as int])
            <= u64::MAX,
        PoolOp::Offset(i, j) => i < pool.len() && j < pool.len() && i != j && is_credit(
            pool[i as int],
        ) != is_credit(pool[j as int]),
    }
}

/// The pool after `op`: the tokens it consumes leave, the tokens it returns are added.
pub open spec fn apply_op(pool: Seq<Pending>, op: PoolOp) -> Seq<Pending> {
    match op {
        PoolOp::Split(i, k) => {
            let p = pool[i as int];
            let parts = split_amounts(amount_of(p), k);
            pool.remove(i as int).push(with_amount(p, parts.0)).push(with_amount(p, parts.1))
        },
        PoolOp::Merge(i, j) => {
            let p = pool[i as int];
            let merged = with_amount(p, merge_amount(amount_of(p), amount_of(pool[j as int])));
            remove_two(pool, i as int, j as int).push(merged)
        },
        PoolOp::Offset(i, j) => remove_two(pool, i as int, j as int).push(
            offset_pending(pool[i as int], pool[j as int]),
        ),
    }
}

/// Whether every operation of `ops`, in turn, is [`op_ok`] on the pool it meets.
pub open spec fn ops_ok(pool: Seq<Pending>, ops: Seq<PoolOp>) -> bool
    decreases ops.len(),
{
    if ops.len() == 0 {
        true
    } else {
        ops_ok(pool, ops.drop_last()) && op_ok(apply_ops(pool, ops.drop_last()), ops.last())
    }
}

/// The pool after every operation of `ops`, in turn.
pub open spec fn apply_ops(pool: Seq<Pending>, ops: Seq<PoolOp>) -> Seq<Pending>
    decreases ops.len(),
{
    if ops.len() == 0 {
        pool
    } else {
        apply_op(apply_ops(pool, ops.drop_last()), ops.last())
    }
}

/// The total after every token of `pool` is dropped, in order, starting from `total`.
pub open spec fn settle_all(total: int, pool: Seq<Pending>) -> int
    decreases pool.len(),
{
    if pool.len() == 0 {
        total
    } else {
        settle(settle_all(total, pool.drop_last()), pool.last())
    }
}

/// Whether dropping the tokens of `pool` in order from `total` never saturates.
pub open spec fn settles_exactly(total: int, pool: Seq<Pending>) -> bool {
    forall|k: int|
        0 <= k <= pool.len() ==> 0 <= #[trigger] (total + net(pool.take(k))) <= u64::MAX
}

proof fn lemma_net_remove(pool: Seq<Pending>, i: int)
    requires
        0 <= i < pool.len(),
    ensures
        net(pool.remove(i)) == net(pool) - signed_value(pool[i]),
    decreases pool.len(),
{
    if i == pool.len() - 1 {
        assert(pool.remove(i) =~= pool.drop_last());
    } else {
        lemma_net_remove(pool.drop_last(), i);
        assert(pool.remove(i) =~= pool.drop_last().remove(i).push(pool.last()));
        assert(pool.remove(i).drop_last() =~= pool.drop_last().remove(i));
    }
}

proof fn lemma_net_push(pool: Seq<Pending>, p: Pending)
    ensures
        net(pool.push(p)) == net(pool) + signed_value(p),
{
    assert(pool.push(p).drop_last() =~= pool);
}

proof fn lemma_net_remove_two(pool: Seq<Pending>, i: int, j: int)
    requires
        0 <= i < pool.len(),
        0 <= j < pool.len(),
        i != j,
    ensures
        net(remove_two(pool, i, j)) == net(pool) - signed_value(pool[i]) - signed_value(pool[j]),
{
    if i > j {
        lemma_net_remove(pool, i);
        lemma_net_remove(pool.remove(i), j);
    } else {
        lemma_net_remove(pool, j);
        lemma_net_remove(pool.remove(j), i);
    }
}

/// Splitting, merging without saturation, and offsetting keep the net signed value
/// of a pool.
pub proof fn lemma_op_keeps_net(pool: Seq<Pending>, op: PoolOp)
    requires
        op_ok(pool, op),
    ensures
        net(apply_op(pool, op)) == net(pool),
{
    match op {
        PoolOp::Split(i, k) => {
            let p = pool[i as int];
            let parts = split_amounts(amount_of(p), k);
            lemma_net_remove(pool, i as int);
            lemma_net_push(pool.remove(i as int), with_amount(p, parts.0));
            lemma_net_push(pool.remove(i as int).push(with_amount(p, parts.0)), with_amount(p, parts.1));
        },
        PoolOp::Merge(i, j) => {
            let p = pool[i as int];
            let merged = with_amount(p, merge_amount(amount_of(p), amount_of(pool[j as int])));
            lemma_net_remove_two(pool, i as int, j as int);
            lemma_net_push(remove_two(pool, i as int, j as int), merged);
        },
        PoolOp::Offset(i, j) => {
            lemma_net_remove_two(pool, i as int, j as int);
            lemma_net_push(
                remove_two(pool, i as int, j as int),
                offset_pending(pool[i as int], pool[j as int]),
            );
        },
    }
}

/// Any run of such operations keeps the net signed value of a pool, whatever their
/// order and grouping.
pub proof fn lemma_ops_keep_net(pool: Seq<Pending>, ops: Seq<PoolOp>)
    requires
        ops_ok(pool, ops),
    ensures
        net(apply_ops(pool, ops)) == net(pool),
    decreases ops.len(),
{
    if ops.len() > 0 {
        lemma_ops_keep_net(pool, ops.drop_last());
        lemma_op_keeps_net(apply_ops(pool, ops.drop_last()), ops.last());
    }
}

/// Dropping every token of a pool, where no drop saturates, moves the total by
/// exactly the net signed value of the pool.
pub proof fn lemma_settle_all(total: int, pool: Seq<Pending>)
    requires
        settles_exactly(total, pool),
    ensures
        settle_all(total, pool) == total + net(pool),
    decreases pool.len(),
{
    assert(pool.take(pool.len() as int) =~= pool);
    assert(total + net(pool.take(pool.len() as int)) <= u64::MAX);
    if pool.len() > 0 {
        let rest = pool.drop_last();
        assert forall|k: int| 0 <= k <= rest.len() implies 0 <= #[trigger] (total + net(rest.take(k)))
            <= u64::MAX by {
            assert(rest.take(k) =~= pool.take(k));
            assert(0 <= total + net(pool.take(k)) <= u64::MAX);
        }
        lemma_settle_all(total, rest);
    }
}

/// Starting from the total `total`, any run of splits, merges and offsets that keeps
/// the signed value, followed by the drop of every token left, ends at `total` plus
/// the net signed value of the tokens first created, whatever the order and grouping
/// of the operations.
pub proof fn lemma_conservation(total: int, pool: Seq<Pending>, ops: Seq<PoolOp>)
    requires
        ops_ok(pool, ops),
        settles_exactly(total, apply_ops(pool, ops)),
    ensures
        settle_all(total, apply_ops(pool, ops)) == total + net(pool),
{
    lemma_ops_keep_net(pool, ops);
    lemma_settle_all(total, apply_ops(pool, ops));
}

} // verus!
