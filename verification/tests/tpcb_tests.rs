use ttbench::calculate_bucket_id;
use ttbench::config::Config;
use ttbench::config::TestConfig;
use ttbench::job::branches::Branch;
use ttbench::job::tpcb::TransactionGenerator;
use ttbench::status::iterations::Iterations;
use ttbench::status::Status;
use ttbench::status::Target;

#[test]
fn generator_samples_inside_the_configured_ranges() {
    let generator = TransactionGenerator::new(&TestConfig {
        ttbench_branches: 2,
        ttbench_tellers: 20,
        ttbench_accounts: 200,
    });
    for _ in 0..50 {
        let t = generator.generate();
        assert!(t.aid < 200);
        assert!(t.tid < 20);
        assert!(t.bid < 2);
        assert!(t.delta < 1000);
        assert_eq!(t.bucket_id, 0);
        assert_eq!(t.uuid.len(), 36);
    }
}

#[test]
fn generator_identifiers_are_fresh() {
    let generator = TransactionGenerator::new(&TestConfig::default());
    let a = generator.generate();
    let b = generator.generate();
    assert_ne!(a.uuid, b.uuid);
}

#[test]
fn single_range_pins_the_sample() {
    let generator = TransactionGenerator::new(&TestConfig {
        ttbench_branches: 1,
        ttbench_tellers: 1,
        ttbench_accounts: 1,
    });
    let t = generator.generate();
    assert_eq!(t.aid, 0);
    assert_eq!(t.tid, 0);
    assert_eq!(t.bid, 0);
}

#[test]
fn routing_fills_only_the_bucket_field() {
    let generator = TransactionGenerator::new(&TestConfig::default());
    let t = generator.generate();
    let uuid = t.uuid.clone();
    let aid = t.aid;
    let routed = t.routed(30000);
    assert_eq!(routed.uuid, uuid);
    assert_eq!(routed.aid, aid);
    assert_eq!(routed.bucket_id, calculate_bucket_id(&uuid, 30000));
    assert!(1 <= routed.bucket_id && routed.bucket_id <= 30000);
}

#[test]
fn transaction_target_claims_its_quota() {
    let config = Config::from_options(2, Some(10), 0, 1, None, false).unwrap();
    let mut status = Status::from_config(&config);
    let mut produced: u64 = 0;
    while let Some(t) = status.make_progress() {
        produced += 1;
        assert!(t.aid < 100_000);
        assert!(produced <= 1000);
    }
    assert_eq!(produced, 1000);
    assert!(status.is_reached());
    assert_eq!(status.progress.iterations_count, 1000);
}

#[test]
fn generator_target_counter_drains() {
    let generator = TransactionGenerator::new(&TestConfig::default());
    let mut target = Iterations::new(generator, 2);
    assert!(!target.is_reached());
    assert!(target.make_progress().is_some());
    assert!(target.make_progress().is_some());
    assert!(target.is_reached());
    assert!(target.make_progress().is_none());
}

#[test]
fn seeded_branch_row() {
    let bucket = calculate_bucket_id("5", 30000);
    let branch = Branch::seeded(5, bucket);
    assert_eq!(branch, Branch { id: 5, abalance: 0, bucket_id: bucket });
}
