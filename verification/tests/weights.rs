use deeper_node::weights::{saturating_mul, RuntimeDbWeight, SubstrateWeight, WeightInfo};

fn rocks() -> SubstrateWeight {
    SubstrateWeight { db_weight: RuntimeDbWeight { read: 25_000_000, write: 100_000_000 } }
}

#[test]
fn unit_weights_use_the_rocksdb_costs() {
    assert_eq!(().report_awesome(3), 280_382_000);
    assert_eq!(().retract_tip(), 253_891_000);
    assert_eq!(().tip_new(2, 3), 270_313_000);
    assert_eq!(().credit_tip_new(2, 3), 269_889_000);
    assert_eq!(().tip(4), 165_745_000);
    assert_eq!(().credit_tip(4), 165_306_000);
    assert_eq!(().close_tip(5), 578_194_000);
    assert_eq!(().close_credit_tip(5), 304_820_000);
    assert_eq!(().slash_tip(7), 242_255_000);
}

#[test]
fn substrate_weights_agree_with_unit_weights_on_rocksdb() {
    let w = rocks();
    assert_eq!(w.report_awesome(3), ().report_awesome(3));
    assert_eq!(w.retract_tip(), ().retract_tip());
    assert_eq!(w.tip_new(2, 3), ().tip_new(2, 3));
    assert_eq!(w.credit_tip_new(2, 3), ().credit_tip_new(2, 3));
    assert_eq!(w.tip(4), ().tip(4));
    assert_eq!(w.credit_tip(4), ().credit_tip(4));
    assert_eq!(w.close_tip(5), ().close_tip(5));
    assert_eq!(w.close_credit_tip(5), ().close_credit_tip(5));
    assert_eq!(w.slash_tip(7), ().slash_tip(7));
}

#[test]
fn substrate_weights_follow_the_database_costs() {
    let w = SubstrateWeight { db_weight: RuntimeDbWeight { read: 1, write: 10 } };
    assert_eq!(w.report_awesome(0), 30_376_022);
    assert_eq!(w.retract_tip(), 28_891_021);
    assert_eq!(w.tip_new(1, 1), 19_883_000 + 2_000 + 142_000 + 2 + 20);
    assert_eq!(w.credit_tip_new(1, 1), 19_462_000 + 2_000 + 141_000 + 2 + 20);
    assert_eq!(w.tip(1), 13_421_000 + 581_000 + 2 + 10);
    assert_eq!(w.credit_tip(1), 13_042_000 + 566_000 + 2 + 10);
    assert_eq!(w.close_tip(1), 51_394_000 + 360_000 + 5 + 40);
    assert_eq!(w.close_credit_tip(1), 27_990_000 + 366_000 + 3 + 20);
    assert_eq!(w.slash_tip(1), 17_164_000 + 13_000 + 1 + 20);
}

#[test]
fn weights_saturate() {
    let w = SubstrateWeight { db_weight: RuntimeDbWeight { read: u64::MAX, write: 0 } };
    assert_eq!(w.report_awesome(1), u64::MAX);
    let w = SubstrateWeight { db_weight: RuntimeDbWeight { read: 0, write: u64::MAX / 2 } };
    assert_eq!(w.close_tip(0), u64::MAX);
    assert_eq!(w.retract_tip(), u64::MAX);
}

#[test]
fn reads_and_writes_multiply() {
    let db = RuntimeDbWeight { read: 7, write: 11 };
    assert_eq!(db.reads(3), 21);
    assert_eq!(db.writes(3), 33);
    assert_eq!(db.reads(u64::MAX), u64::MAX);
    assert_eq!(saturating_mul(1 << 32, 1 << 32), u64::MAX);
    assert_eq!(saturating_mul(1 << 31, 1 << 32), 1 << 63);
    assert_eq!(saturating_mul(0, u64::MAX), 0);
}

#[test]
fn largest_parameters_do_not_overflow() {
    let w = rocks();
    let r = u32::MAX as u64;
    assert_eq!(w.tip_new(u32::MAX, u32::MAX), 19_883_000 + 2_000 * r + 142_000 * r + 250_000_000);
}
