use std::path::{Path, PathBuf};

use crypto_price_tracker_v2::config::{choose_config, Config, ConfigSource, Plan};
use crypto_price_tracker_v2::dec::sum_checked;
use crypto_price_tracker_v2::paths::{global_config_path_from, resolve_relative};
use crypto_price_tracker_v2::Dec;

fn d(s: &str) -> Dec {
    let x = <rust_decimal::Decimal as std::str::FromStr>::from_str(s).unwrap();
    Dec::new(x.mantissa(), x.scale())
}

fn n(x: Dec) -> rust_decimal::Decimal {
    rust_decimal::Decimal::from_i128_with_scale(x.mantissa, x.scale)
}

fn sample() -> Config {
    let mut c = Config::example();
    c.symbols = vec![
        ("bitcoin".to_string(), "BTC".to_string()),
        ("ethereum".to_string(), "ETH".to_string()),
    ];
    c.cache.dir = "~/.cache/cpt2".to_string();
    c
}

#[test]
fn symbol_falls_back_to_uppercased_asset() {
    let c = sample();
    assert_eq!(c.symbol("bitcoin"), "BTC");
    assert_eq!(c.symbol("solana"), "SOLANA");
}

#[test]
fn target_weight_reads_map() {
    let c = sample();
    assert!(c.target_weight(&"bitcoin".to_string()).eq(&d("0.6")));
    assert!(c.target_weight(&"dogecoin".to_string()).eq(&d("0")));
}

#[test]
fn normalized_targets_sum_to_one() {
    let mut c = sample();
    c.targets[0].1 = d("1.2");
    let norm = c.normalized_targets();
    let amounts: Vec<Dec> = norm.iter().map(|(_, v)| *v).collect();
    let sum = sum_checked(&amounts).unwrap();
    let diff = (n(sum) - n(d("1"))).abs();
    assert!(diff < n(d("0.0001")));
    assert_eq!(norm[0].0, "bitcoin");
    assert!(norm[0].1.eq(&d("0.75")));
}

#[test]
fn normalized_targets_keep_zero_weights() {
    let mut c = sample();
    for t in c.targets.iter_mut() {
        t.1 = d("0");
    }
    let norm = c.try_normalized_targets().unwrap();
    assert_eq!(norm.len(), 3);
    assert!(norm.iter().all(|(_, v)| v.is_zero()));
}

#[test]
fn tilde_in_cache_dir_expands_to_home() {
    let c = sample();
    let dir = c.cache.expanded_dir(Some("/home/u"));
    assert!(!dir.starts_with('~'));
    assert_eq!(dir, "/home/u/.cache/cpt2");
    assert_eq!(c.cache.expanded_dir(None), "~/.cache/cpt2");
}

#[test]
fn coingecko_key_prefers_environment_then_config() {
    let mut c = sample();
    assert_eq!(c.coingecko_key(None), None);
    c.coingecko.api_key = Some("abc".to_string());
    c.coingecko.plan = Plan::Pro;
    assert_eq!(c.coingecko_key(None), Some("abc".to_string()));
    assert_eq!(c.coingecko_key(Some(String::new())), Some("abc".to_string()));
    assert_eq!(c.coingecko_key(Some("env".to_string())), Some("env".to_string()));
    c.coingecko.api_key = Some(String::new());
    assert_eq!(c.coingecko_key(None), None);
}

#[test]
fn example_has_starter_values() {
    let c = Config::example();
    assert_eq!(c.ledger_path, "ledger.json");
    assert_eq!(c.refresh_seconds, 60);
    assert_eq!(c.history_days, 90);
    assert_eq!(c.targets.len(), 3);
    assert!(c.rebalance.band.eq(&d("0.05")));
    assert!(c.rebalance.min_trade_usd.eq(&d("25")));
    assert_eq!(c.coingecko.plan, Plan::Demo);
    assert_eq!(crypto_price_tracker_v2::config::default_history_days(), 90);
}

#[test]
fn resolve_relative_joins_base_keeps_absolute() {
    let base = Path::new("/tmp/cfgbase");
    assert_eq!(
        PathBuf::from(resolve_relative("/tmp/cfgbase", "ledger.json")),
        base.join("ledger.json")
    );
    let abs = "/var/data/ledger.json";
    assert_eq!(PathBuf::from(resolve_relative("/tmp/cfgbase", abs)), PathBuf::from(abs));
}

#[test]
fn global_config_path_prefers_xdg_then_home() {
    let p = global_config_path_from(Some("/x/cfg"), Some("/home/u")).unwrap();
    assert_eq!(p, "/x/cfg/crypto-price-tracker-v2/config.json");
    let p2 = global_config_path_from(None, Some("/home/u")).unwrap();
    assert_eq!(p2, "/home/u/.config/crypto-price-tracker-v2/config.json");
    assert!(global_config_path_from(None, None).is_none());
    let p3 = global_config_path_from(Some(""), Some("/home/u/")).unwrap();
    assert_eq!(p3, "/home/u/.config/crypto-price-tracker-v2/config.json");
}

#[test]
fn resolve_prefers_explicit_config() {
    let r = choose_config(
        Some("/tmp/cpt2_cfg_explicit/custom.json"),
        "/tmp/cpt2_cfg_explicit/config.json",
        true,
        None,
        false,
    );
    assert_eq!(r.source, ConfigSource::Explicit);
    assert_eq!(r.dir, "/tmp/cpt2_cfg_explicit");
    assert_eq!(r.path.as_deref(), Some("/tmp/cpt2_cfg_explicit/custom.json"));
}

#[test]
fn resolve_uses_cwd_over_global() {
    let r = choose_config(None, "/tmp/cpt2_cfg_cwd/config.json", true, Some("/tmp/cpt2_cfg_cwd/g/config.json"), true);
    assert_eq!(r.source, ConfigSource::Cwd);
    assert_eq!(r.dir, "/tmp/cpt2_cfg_cwd");
}

#[test]
fn resolve_uses_global_when_no_cwd() {
    let r = choose_config(None, "/tmp/x/nope/config.json", false, Some("/tmp/x/g/config.json"), true);
    assert_eq!(r.source, ConfigSource::Global);
    assert_eq!(r.dir, "/tmp/x/g");
}

#[test]
fn resolve_creates_starter_when_none_exists() {
    let r = choose_config(None, "/tmp/x/nope/config.json", false, Some("/tmp/x/g/config.json"), false);
    assert_eq!(r.source, ConfigSource::Starter);
    assert_eq!(r.path.as_deref(), Some("/tmp/x/g/config.json"));
}

#[test]
fn resolve_falls_back_to_defaults_without_global_path() {
    let r = choose_config(None, "config.json", false, None, false);
    assert_eq!(r.source, ConfigSource::Defaults);
    assert_eq!(r.dir, ".");
    assert!(r.path.is_none());
}

#[test]
fn relative_file_resolves_against_dot() {
    let r = choose_config(None, "config.json", true, None, false);
    assert_eq!(r.source, ConfigSource::Cwd);
    assert_eq!(r.dir, ".");
}
