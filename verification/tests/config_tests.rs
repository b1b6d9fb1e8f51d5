use ttbench::config::BenchMod;
use ttbench::config::Config;
use ttbench::config::ConfigError;
use ttbench::config::InitStep;
use ttbench::config::InitSteps;
use ttbench::config::TestConfig;

#[test]
fn init_step_letters() {
    assert_eq!(InitStep::try_from('d'), Ok(InitStep::Drop));
    assert_eq!(InitStep::try_from('t'), Ok(InitStep::Create));
    assert_eq!(InitStep::try_from('p'), Ok(InitStep::Primary));
    assert_eq!(InitStep::try_from('f'), Ok(InitStep::Foreign));
    assert_eq!(InitStep::try_from('v'), Ok(InitStep::Vacuum));
    assert_eq!(InitStep::try_from('g'), Ok(InitStep::GenerateData));
    assert_eq!(InitStep::try_from('G'), Ok(InitStep::GenerateData));
    assert_eq!(InitStep::try_from('x'), Err(ConfigError::UnknownInitStep('x')));
}

#[test]
fn init_steps_parse_all() {
    let steps = InitSteps::try_from("dtpfvg").unwrap();
    assert!(steps.contains(&InitStep::Drop));
    assert!(steps.contains(&InitStep::Create));
    assert!(steps.contains(&InitStep::Primary));
    assert!(steps.contains(&InitStep::Foreign));
    assert!(steps.contains(&InitStep::Vacuum));
    assert!(steps.contains(&InitStep::GenerateData));
}

#[test]
fn init_steps_empty_string() {
    let steps = InitSteps::try_from("").unwrap();
    assert!(!steps.contains(&InitStep::Drop));
    assert!(!steps.contains(&InitStep::GenerateData));
}

#[test]
fn init_steps_duplicates_collapse() {
    let steps = InitSteps::try_from("dddd").unwrap();
    assert!(steps.contains(&InitStep::Drop));
    assert!(!steps.contains(&InitStep::Create));
}

#[test]
fn init_steps_reports_first_unknown_letter() {
    assert_eq!(
        InitSteps::try_from("dxzy").map(|_| ()),
        Err(ConfigError::UnknownInitStep('x'))
    );
}

#[test]
fn test_config_default_counts() {
    let t = TestConfig::default();
    assert_eq!(t.ttbench_branches, 1);
    assert_eq!(t.ttbench_tellers, 10);
    assert_eq!(t.ttbench_accounts, 100_000);
}

#[test]
fn test_config_scales_linearly() {
    let t = TestConfig::try_from(3).unwrap();
    assert_eq!(t.ttbench_branches, 3);
    assert_eq!(t.ttbench_tellers, 30);
    assert_eq!(t.ttbench_accounts, 300_000);
}

#[test]
fn test_config_rejects_zero_scale() {
    assert_eq!(TestConfig::try_from(0).map(|_| ()), Err(ConfigError::ZeroScale));
}

#[test]
fn bench_mod_text() {
    assert_eq!(BenchMod::Iterations.text(), "iterations");
    assert_eq!(BenchMod::Time.text(), "time");
}

#[test]
fn config_mode_follows_transaction_count() {
    let with_count = Config::from_options(4, Some(500), 60, 1, None, false).unwrap();
    assert_eq!(with_count.mode, BenchMod::Iterations);
    assert_eq!(with_count.transactions, 500);
    let without = Config::from_options(4, None, 60, 1, None, false).unwrap();
    assert_eq!(without.mode, BenchMod::Time);
    assert_eq!(without.transactions, 0);
}

#[test]
fn config_defaults() {
    let config = Config::from_options(8, Some(1000), 0, 2, None, true).unwrap();
    assert_eq!(config.jobs, 8);
    assert_eq!(config.fillfactor, 100);
    assert_eq!(config.transactions_total, 1000);
    assert_eq!(config.max_retries, u64::MAX);
    assert_eq!(config.bucket_count, 30000);
    assert!(config.keep_history);
    assert_eq!(config.instances.len(), 1);
    assert_eq!(config.instances[0].addr, "localhost:3031");
    assert_eq!(config.instances[0].connections, 3);
    assert_eq!(config.test_config.ttbench_accounts, 200_000);
    // the default step string names every step
    assert!(config.contains_step(&InitStep::Drop));
    assert!(config.contains_step(&InitStep::Create));
    assert!(config.contains_step(&InitStep::Primary));
    assert!(config.contains_step(&InitStep::Foreign));
    assert!(config.contains_step(&InitStep::Vacuum));
    assert!(config.contains_step(&InitStep::GenerateData));
}

#[test]
fn config_rejects_zero_scale_before_steps() {
    assert!(matches!(
        Config::from_options(1, None, 0, 0, Some("zzz"), false),
        Err(ConfigError::ZeroScale)
    ));
}

#[test]
fn config_rejects_unknown_step() {
    assert!(matches!(
        Config::from_options(1, None, 0, 1, Some("dq"), false),
        Err(ConfigError::UnknownInitStep('q'))
    ));
}

#[test]
fn config_explicit_steps_limit_the_run() {
    let config = Config::from_options(1, Some(10), 0, 1, Some("dt"), false).unwrap();
    assert!(config.contains_step(&InitStep::Drop));
    assert!(config.contains_step(&InitStep::Create));
    assert!(!config.contains_step(&InitStep::Primary));
    assert!(!config.contains_step(&InitStep::Vacuum));
}
