//! Weight formulas of the tips pallet.
//!
//! A weight is a `u64`. Every formula is a constant, plus a constant times
//! each of its parameters, plus the cost of its database reads and writes; each
//! sum and product is cut off at `u64::MAX`.
use vstd::prelude::*;

verus! {

/// Cost of one database read and of one database write, in weight units.
#[derive(Clone, Copy, Debug, PartialEq, Eq, Structural)]
pub struct RuntimeDbWeight {
    pub read: u64,
    pub write: u64,
}

/// `a * b`, cut off at the largest `u64`.
pub open spec fn sat_mul(a: int, b: int) -> int {
    if a * b > u64::MAX {
        u64::MAX as int
    } else {
        a * b
    }
}

/// `a + b`, cut off at the largest `u64`.
pub open spec fn sat_add(a: int, b: int) -> int {
    if a + b > u64::MAX {
        u64::MAX as int
    } else {
        a + b
    }
}

/// `base`, then `reads` database reads, then `writes` database writes.
pub open spec fn with_db(base: int, db: RuntimeDbWeight, reads: int, writes: int) -> int {
    sat_add(sat_add(base, sat_mul(db.read as int, reads)), sat_mul(db.write as int, writes))
}

/// `base + per_r * r`.
pub open spec fn one_term(base: int, per_r: int, r: int) -> int {
    sat_add(base, sat_mul(per_r, r))
}

/// `base + per_r * r + per_t * t`.
pub open spec fn two_terms(base: int, per_r: int, r: int, per_t: int, t: int) -> int {
    sat_add(sat_add(base, sat_mul(per_r, r)), sat_mul(per_t, t))
}

/// `report_awesome` with a reason of `r` bytes.
pub open spec fn report_awesome_weight(db: RuntimeDbWeight, r: int) -> int {
    with_db(one_term(30_376_000, 2_000, r), db, 2, 2)
}

/// `retract_tip`.
pub open spec fn retract_tip_weight(db: RuntimeDbWeight) -> int {
    with_db(28_891_000, db, 1, 2)
}

/// `tip_new` with a reason of `r` bytes and `t` tippers.
pub open spec fn tip_new_weight(db: RuntimeDbWeight, r: int, t: int) -> int {
    with_db(two_terms(19_883_000, 2_000, r, 142_000, t), db, 2, 2)
}

/// `credit_tip_new` with a reason of `r` bytes and `t` tippers.
pub open spec fn credit_tip_new_weight(db: RuntimeDbWeight, r: int, t: int) -> int {
    with_db(two_terms(19_462_000, 2_000, r, 141_000, t), db, 2, 2)
}

/// `tip` with `t` tippers.
pub open spec fn tip_weight(db: RuntimeDbWeight, t: int) -> int {
    with_db(one_term(13_421_000, 581_000, t), db, 2, 1)
}

/// `credit_tip` with `t` tippers.
pub open spec fn credit_tip_weight(db: RuntimeDbWeight, t: int) -> int {
    with_db(one_term(13_042_000, 566_000, t), db, 2, 1)
}

/// `close_tip` with `t` tippers.
pub open spec fn close_tip_weight(db: RuntimeDbWeight, t: int) -> int {
    with_db(one_term(51_394_000, 360_000, t), db, 5, 4)
}

/// `close_credit_tip` with `t` tippers.
pub open spec fn close_credit_tip_weight(db: RuntimeDbWeight, t: int) -> int {
    with_db(one_term(27_990_000, 366_000, t), db, 3, 2)
}

/// `slash_tip` with `t` tippers.
pub open spec fn slash_tip_weight(db: RuntimeDbWeight, t: int) -> int {
    with_db(one_term(17_164_000, 13_000, t), db, 1, 2)
}

/// `x`, cut off at the largest `u64`.
pub open spec fn capped(x: int) -> int {
    if x > u64::MAX {
        u64::MAX as int
    } else {
        x
    }
}

/// Cutting off after every step is cutting off once at the end: a weight is
/// the sum of its constant, its terms and its database costs, or `u64::MAX`
/// where that sum is larger. A formula with one term is one with a second
/// term of 0.
pub proof fn law_weight_is_a_capped_sum(
    base: int,
    per_r: int,
    r: int,
    per_t: int,
    t: int,
    db: RuntimeDbWeight,
    reads: int,
    writes: int,
)
    requires
        0 <= base,
        0 <= per_r,
        0 <= r,
        0 <= per_t,
        0 <= t,
        0 <= reads,
        0 <= writes,
    ensures
        with_db(two_terms(base, per_r, r, per_t, t), db, reads, writes) == capped(
            base + per_r * r + per_t * t + db.read * reads + db.write * writes,
        ),
        one_term(base, per_r, r) == two_terms(base, per_r, r, 0, 0),
        with_db(base, db, reads, writes) == capped(
            capped(base) + db.read * reads + db.write * writes,
        ),
{
    assert(per_r * r >= 0) by (nonlinear_arith)
        requires
            0 <= per_r,
            0 <= r,
    ;
    assert(per_t * t >= 0) by (nonlinear_arith)
        requires
            0 <= per_t,
            0 <= t,
    ;
    assert(db.read * reads >= 0) by (nonlinear_arith)
        requires
            0 <= reads,
    ;
    assert(db.write * writes >= 0) by (nonlinear_arith)
        requires
            0 <= writes,
    ;
}

/// The weights that RocksDB is charged with.
pub open spec fn rocks_db() -> RuntimeDbWeight {
    RuntimeDbWeight { read: 25_000_000, write: 100_000_000 }
}

/// The product of two weights, cut off at `u64::MAX`.
pub fn saturating_mul(a: u64, b: u64) -> (w: u64)
    ensures
        w == sat_mul(a as int, b as int),
{
    match a.checked_mul(b) {
        Some(p) => p,
        None => u64::MAX,
    }
}

impl RuntimeDbWeight {
    /// Weight of `r` reads.
    pub fn reads(&self, r: u64) -> (w: u64)
        ensures
            w == sat_mul(self.read as int, r as int),
    {
        saturating_mul(self.read, r)
    }

    /// Weight of `w` writes.
    pub fn writes(&self, w: u64) -> (weight: u64)
        ensures
            weight == sat_mul(self.write as int, w as int),
    {
        saturating_mul(self.write, w)
    }
}

/// Hands out `frame_support::weights::constants::RocksDbWeight::get()`, field
/// by field. Not proved but taken from frame-support: the constant is 25 000
/// nanoseconds for a read and 100 000 nanoseconds for a write, at 1 000 weight
/// units a nanosecond.
#[verifier::external_body]
fn rocks_db_weight() -> (db: RuntimeDbWeight)
    ensures
        db == rocks_db(),
{
    let w = frame_support::weights::constants::RocksDbWeight::get();
    RuntimeDbWeight { read: w.read, write: w.write }
}

fn charge_db(base: u64, db: RuntimeDbWeight, reads: u64, writes: u64) -> (w: u64)
    ensures
        w == with_db(base as int, db, reads as int, writes as int),
{
    base.saturating_add(db.reads(reads)).saturating_add(db.writes(writes))
}

fn linear(base: u64, per_r: u64, r: u32) -> (w: u64)
    ensures
        w == one_term(base as int, per_r as int, r as int),
{
    base.saturating_add(saturating_mul(per_r, r as u64))
}

fn bilinear(base: u64, per_r: u64, r: u32, per_t: u64, t: u32) -> (w: u64)
    ensures
        w == two_terms(base as int, per_r as int, r as int, per_t as int, t as int),
{
    linear(base, per_r, r).saturating_add(saturating_mul(per_t, t as u64))
}

/// Weight functions needed for the tips pallet.
pub trait WeightInfo {
    fn report_awesome(&self, r: u32) -> u64;

    fn retract_tip(&self) -> u64;

    fn tip_new(&self, r: u32, t: u32) -> u64;

    fn credit_tip_new(&self, r: u32, t: u32) -> u64;

    fn tip(&self, t: u32) -> u64;

    fn credit_tip(&self, t: u32) -> u64;

    fn close_tip(&self, t: u32) -> u64;

    fn close_credit_tip(&self, t: u32) -> u64;

    fn slash_tip(&self, t: u32) -> u64;
}

/// Weights of the tips pallet on a chain whose database costs `db_weight`.
#[derive(Clone, Copy, Debug, PartialEq, Eq, Structural)]
pub struct SubstrateWeight {
    pub db_weight: RuntimeDbWeight,
}

impl WeightInfo for SubstrateWeight {
    fn report_awesome(&self, r: u32) -> (w: u64)
        ensures
            w == report_awesome_weight(self.db_weight, r as int),
    {
        charge_db(linear(30_376_000, 2_000, r), self.db_weight, 2, 2)
    }

    fn retract_tip(&self) -> (w: u64)
        ensures
            w == retract_tip_weight(self.db_weight),
    {
        charge_db(28_891_000, self.db_weight, 1, 2)
    }

    fn tip_new(&self, r: u32, t: u32) -> (w: u64)
        ensures
            w == tip_new_weight(self.db_weight, r as int, t as int),
    {
        charge_db(bilinear(19_883_000, 2_000, r, 142_000, t), self.db_weight, 2, 2)
    }

    fn credit_tip_new(&self, r: u32, t: u32) -> (w: u64)
        ensures
            w == credit_tip_new_weight(self.db_weight, r as int, t as int),
    {
        charge_db(bilinear(19_462_000, 2_000, r, 141_000, t), self.db_weight, 2, 2)
    }

    fn tip(&self, t: u32) -> (w: u64)
        ensures
            w == tip_weight(self.db_weight, t as int),
    {
        charge_db(linear(13_421_000, 581_000, t), self.db_weight, 2, 1)
    }

    fn credit_tip(&self, t: u32) -> (w: u64)
        ensures
            w == credit_tip_weight(self.db_weight, t as int),
    {
        charge_db(linear(13_042_000, 566_000, t), self.db_weight, 2, 1)
    }

    fn close_tip(&self, t: u32) -> (w: u64)
        ensures
            w == close_tip_weight(self.db_weight, t as int),
    {
        charge_db(linear(51_394_000, 360_000, t), self.db_weight, 5, 4)
    }

    fn close_credit_tip(&self, t: u32) -> (w: u64)
        ensures
            w == close_credit_tip_weight(self.db_weight, t as int),
    {
        charge_db(linear(27_990_000, 366_000, t), self.db_weight, 3, 2)
    }

    fn slash_tip(&self, t: u32) -> (w: u64)
        ensures
            w == slash_tip_weight(self.db_weight, t as int),
    {
        charge_db(linear(17_164_000, 13_000, t), self.db_weight, 1, 2)
    }
}

/// The weights on RocksDB, for chains that configure nothing else.
impl WeightInfo for () {
    fn report_awesome(&self, r: u32) -> (w: u64)
        ensures
            w == report_awesome_weight(rocks_db(), r as int),
    {
        charge_db(linear(30_376_000, 2_000, r), rocks_db_weight(), 2, 2)
    }

    fn retract_tip(&self) -> (w: u64)
        ensures
            w == retract_tip_weight(rocks_db()),
    {
        charge_db(28_891_000, rocks_db_weight(), 1, 2)
    }

    fn tip_new(&self, r: u32, t: u32) -> (w: u64)
        ensures
            w == tip_new_weight(rocks_db(), r as int, t as int),
    {
        charge_db(bilinear(19_883_000, 2_000, r, 142_000, t), rocks_db_weight(), 2, 2)
    }

    fn credit_tip_new(&self, r: u32, t: u32) -> (w: u64)
        ensures
            w == credit_tip_new_weight(rocks_db(), r as int, t as int),
    {
        charge_db(bilinear(19_462_000, 2_000, r, 141_000, t), rocks_db_weight(), 2, 2)
    }

    fn tip(&self, t: u32) -> (w: u64)
        ensures
            w == tip_weight(rocks_db(), t as int),
    {
        charge_db(linear(13_421_000, 581_000, t), rocks_db_weight(), 2, 1)
    }

    fn credit_tip(&self, t: u32) -> (w: u64)
        ensures
            w == credit_tip_weight(rocks_db(), t as int),
    {
        charge_db(linear(13_042_000, 566_000, t), rocks_db_weight(), 2, 1)
    }

    fn close_tip(&self, t: u32) -> (w: u64)
        ensures
            w == close_tip_weight(rocks_db(), t as int),
    {
        charge_db(linear(51_394_000, 360_000, t), rocks_db_weight(), 5, 4)
    }

    fn close_credit_tip(&self, t: u32) -> (w: u64)
        ensures
            w == close_credit_tip_weight(rocks_db(), t as int),
    {
        charge_db(linear(27_990_000, 366_000, t), rocks_db_weight(), 3, 2)
    }

    fn slash_tip(&self, t: u32) -> (w: u64)
        ensures
            w == slash_tip_weight(rocks_db(), t as int),
    {
        charge_db(linear(17_164_000, 13_000, t), rocks_db_weight(), 1, 2)
    }
}

} // verus!
