//! Application settings and the rules that read them: display symbols,
//! target weights, the cache directory, the API key, and which
//! configuration file is used.

use vstd::prelude::*;

use crate::dec::{checked_sum, decimal_div, sum_checked, Dec};
use crate::tax::{default_tax_rules, TaxRules};
use crate::model::Method;
pub use crate::paths::resolve_relative;
use crate::paths::{dir_of, join, opt_view, path_join, spec_dir_of};
use crate::rebalance::Strategy;
use crate::table::{amounts, amounts_of, entries_wf, entry_or_zero, lookup_or_zero};
use crate::text::{lex_lt, str_same, unicode_uppercase, uppercase};

verus! {

/// CoinGecko API plan.
#[derive(Clone, Copy, Debug, PartialEq, Eq, Structural)]
pub enum Plan {
    Demo,
    Pro,
}

impl Default for Plan {
    fn default() -> (r: Plan)
        ensures
            r == Plan::Demo,
    {
        Plan::Demo
    }
}

/// CoinGecko access settings.
#[derive(Clone, Debug)]
pub struct CoinGeckoConfig {
    pub api_key: Option<String>,
    pub plan: Plan,
}

impl Default for CoinGeckoConfig {
    fn default() -> (r: CoinGeckoConfig)
        ensures
            r.api_key is None,
            r.plan == Plan::Demo,
    {
        CoinGeckoConfig { api_key: None, plan: Plan::Demo }
    }
}

/// Rebalancing settings.
#[derive(Clone, Debug)]
pub struct RebalanceConfig {
    pub band: Dec,
    pub min_trade_usd: Dec,
    pub strategy: Strategy,
}

/// Price-cache settings.
#[derive(Clone, Debug)]
pub struct CacheConfig {
    pub ttl_seconds: u64,
    pub dir: String,
}

/// The cache directory with a leading `~/` replaced by the home directory
/// (when one is known).
pub open spec fn spec_expanded_dir(dir: Seq<char>, home: Option<Seq<char>>) -> Seq<char> {
    if dir.len() >= 2 && dir[0] == '~' && dir[1] == '/' && home is Some {
        path_join(home->0, dir.skip(2))
    } else {
        dir
    }
}

impl CacheConfig {
    /// The directory with a leading `~/` expanded to `home` (the value of
    /// `HOME`, when set).
    pub fn expanded_dir(&self, home: Option<&str>) -> (r: String)
        ensures
            r@ == spec_expanded_dir(self.dir@, opt_view(home)),
    {
        let d = self.dir.as_str();
        let n = d.unicode_len();
        if n >= 2 && d.get_char(0) == '~' && d.get_char(1) == '/' {
            match home {
                Some(h) => {
                    let rest = d.substring_char(2, n);
                    assert(rest@ =~= d@.skip(2));
                    return join(h, rest);
                },
                None => {},
            }
        }
        self.dir.clone()
    }
}

/// The days of price history fetched when the setting is absent.
pub fn default_history_days() -> (r: u32)
    ensures
        r == 90,
{
    90
}

/// The application's settings. `targets` and `symbols` are kept in
/// ascending key order, one entry per key, as an ordered map holds them.
pub struct Config {
    pub ledger_path: String,
    pub default_method: Method,
    pub display_currency: String,
    pub refresh_seconds: u64,
    pub tax: TaxRules,
    pub targets: Vec<(String, Dec)>,
    pub rebalance: RebalanceConfig,
    pub symbols: Vec<(String, String)>,
    pub cache: CacheConfig,
    pub coingecko: CoinGeckoConfig,
    pub history_days: u32,
}

/// Keys strictly ascending (hence distinct).
pub open spec fn ascending_keys<V>(s: Seq<(String, V)>) -> bool {
    forall|i: int, j: int| 0 <= i < j < s.len() ==> lex_lt((#[trigger] s[i]).0@, (#[trigger] s[j]).0@)
}

/// The label recorded for `key`, if any (the last entry for it).
pub open spec fn label_lookup(entries: Seq<(String, String)>, key: Seq<char>) -> Option<Seq<char>>
    decreases entries.len(),
{
    if entries.len() == 0 {
        None
    } else if entries.last().0@ == key {
        Some(entries.last().1@)
    } else {
        label_lookup(entries.drop_last(), key)
    }
}

/// Display symbol of `asset`: its configured symbol, else the asset id in
/// upper case.
pub open spec fn spec_symbol(symbols: Seq<(String, String)>, asset: Seq<char>) -> Seq<char> {
    match label_lookup(symbols, asset) {
        Some(s) => s,
        None => unicode_uppercase(asset),
    }
}

/// The targets scaled to sum to one: `None` when the sum or a quotient
/// overflows; the targets as they are when they sum to zero.
pub open spec fn spec_normalized(targets: Seq<(String, Dec)>) -> Option<Seq<Dec>> {
    match checked_sum(amounts(targets)) {
        None => None,
        Some(sum) => if sum.mantissa == 0 {
            Some(amounts(targets))
        } else if forall|i: int|
            0 <= i < targets.len() ==> (#[trigger] decimal_div(targets[i].1, sum)) is Some {
            Some(Seq::new(targets.len(), |i: int| decimal_div(targets[i].1, sum)->0))
        } else {
            None
        },
    }
}

/// The API key in use: the environment's value when non-empty, else the
/// configured key when non-empty.
pub open spec fn spec_api_key(env: Option<Seq<char>>, configured: Option<Seq<char>>) -> Option<
    Seq<char>,
> {
    match env {
        Some(e) if e.len() > 0 => Some(e),
        _ => match configured {
            Some(k) if k.len() > 0 => Some(k),
            _ => None,
        },
    }
}

/// An optional string as an optional character sequence.
pub open spec fn opt_string_view(s: Option<String>) -> Option<Seq<char>> {
    match s {
        Some(x) => Some(x@),
        None => None,
    }
}

impl Config {
    /// Targets within the decimal bounds and both tables in ascending key
    /// order.
    pub open spec fn wf(&self) -> bool {
        &&& entries_wf(self.targets@)
        &&& ascending_keys(self.targets@)
        &&& ascending_keys(self.symbols@)
        &&& self.rebalance.band.wf()
        &&& self.rebalance.min_trade_usd.wf()
    }

    /// Display symbol for an asset id; falls back to the uppercased id.
    pub fn symbol(&self, asset: &str) -> (r: String)
        ensures
            r@ == spec_symbol(self.symbols@, asset@),
    {
        let mut i = self.symbols.len();
        assert(self.symbols@.take(i as int) =~= self.symbols@);
        while i > 0
            invariant
                i <= self.symbols@.len(),
                label_lookup(self.symbols@, asset@) == label_lookup(
                    self.symbols@.take(i as int),
                    asset@,
                ),
            decreases i,
        {
            let ghost pre = self.symbols@.take(i as int);
            assert(pre.last() == self.symbols@[i - 1]);
            assert(pre.drop_last() =~= self.symbols@.take(i - 1));
            if str_same(self.symbols[i - 1].0.as_str(), asset) {
                return self.symbols[i - 1].1.clone();
            }
            i -= 1;
        }
        uppercase(asset)
    }

    /// Configured target weight for an asset, or zero if unset.
    pub fn target_weight(&self, asset: &String) -> (r: Dec)
        requires
            self.wf(),
        ensures
            r == entry_or_zero(self.targets@, asset@),
    {
        lookup_or_zero(&self.targets, asset)
    }

    /// Targets scaled to sum to one, keys unchanged; as they are when they
    /// sum to zero; `None` when the arithmetic overflows.
    pub fn try_normalized_targets(&self) -> (r: Option<Vec<(String, Dec)>>)
        requires
            self.wf(),
        ensures
            r is Some == spec_normalized(self.targets@) is Some,
            r matches Some(v) ==> {
                &&& v@.len() == self.targets@.len()
                &&& forall|i: int| 0 <= i < v@.len() ==> (#[trigger] v@[i]).0@ == self.targets@[i].0@
                &&& amounts(v@) == spec_normalized(self.targets@)->0
            },
    {
        let ws = amounts_of(&self.targets);
        let sum = match sum_checked(&ws) {
            Some(s) => s,
            None => {
                return None;
            },
        };
        let mut out: Vec<(String, Dec)> = Vec::new();
        let mut i: usize = 0;
        while i < self.targets.len()
            invariant
                i <= self.targets@.len(),
                self.wf(),
                sum.wf(),
                Some(sum) == checked_sum(amounts(self.targets@)),
                out@.len() == i,
                forall|k: int| 0 <= k < i ==> (#[trigger] out@[k]).0@ == self.targets@[k].0@,
                forall|k: int|
                    0 <= k < i ==> (#[trigger] out@[k]).1 == (if sum.mantissa == 0 {
                        self.targets@[k].1
                    } else {
                        decimal_div(self.targets@[k].1, sum)->0
                    }),
                sum.mantissa != 0 ==> forall|k: int|
                    0 <= k < i ==> (#[trigger] decimal_div(self.targets@[k].1, sum)) is Some,
            decreases self.targets@.len() - i,
        {
            let (k, w) = (&self.targets[i].0, self.targets[i].1);
            assert(w.wf());
            if sum.is_zero() {
                out.push((k.clone(), w));
            } else {
                match w.checked_div(&sum) {
                    Some(q) => out.push((k.clone(), q)),
                    None => {
                        return None;
                    },
                }
            }
            i += 1;
        }
        assert(amounts(out@) =~= spec_normalized(self.targets@)->0);
        Some(out)
    }

    /// Targets scaled to sum to one (as they are when they sum to zero).
    pub fn normalized_targets(&self) -> (r: Vec<(String, Dec)>)
        requires
            self.wf(),
            spec_normalized(self.targets@) is Some,
        ensures
            r@.len() == self.targets@.len(),
            forall|i: int| 0 <= i < r@.len() ==> (#[trigger] r@[i]).0@ == self.targets@[i].0@,
            amounts(r@) == spec_normalized(self.targets@)->0,
    {
        self.try_normalized_targets().unwrap()
    }

    /// The CoinGecko API key: `env_key` (the environment's
    /// `COINGECKO_API_KEY`) when non-empty, else the configured key when
    /// non-empty.
    pub fn coingecko_key(&self, env_key: Option<String>) -> (r: Option<String>)
        ensures
            opt_string_view(r) == spec_api_key(
                opt_string_view(env_key),
                opt_string_view(self.coingecko.api_key),
            ),
    {
        match env_key {
            Some(e) if !e.as_str().is_empty() => Some(e),
            _ => match &self.coingecko.api_key {
                Some(k) if !k.as_str().is_empty() => Some(k.clone()),
                _ => None,
            },
        }
    }

    /// The starter configuration: FIFO, USD, a one-minute refresh, the US
    /// tax defaults, targets of 60/30/10 percent in bitcoin, ethereum and
    /// solana, a five-percent band with a 25 USD minimum trade, a 30-second
    /// cache under `~/.cache/crypto-price-tracker-v2`, and 90 days of
    /// history.
    pub fn example() -> (r: Config)
        ensures
            r.wf(),
            r.ledger_path@ == "ledger.json"@,
            r.default_method == Method::Fifo,
            r.display_currency@ == "usd"@,
            r.refresh_seconds == 60,
            r.targets@.len() == 3,
            r.targets@[0].0@ == "bitcoin"@ && r.targets@[0].1 == (Dec { mantissa: 6, scale: 1 }),
            r.targets@[1].0@ == "ethereum"@ && r.targets@[1].1 == (Dec { mantissa: 3, scale: 1 }),
            r.targets@[2].0@ == "solana"@ && r.targets@[2].1 == (Dec { mantissa: 1, scale: 1 }),
            r.symbols@.len() == 3,
            r.symbols@[0].0@ == "bitcoin"@ && r.symbols@[0].1@ == "BTC"@,
            r.symbols@[1].0@ == "ethereum"@ && r.symbols@[1].1@ == "ETH"@,
            r.symbols@[2].0@ == "solana"@ && r.symbols@[2].1@ == "SOL"@,
            r.rebalance.band == (Dec { mantissa: 5, scale: 2 }),
            r.rebalance.min_trade_usd == (Dec { mantissa: 25, scale: 0 }),
            r.rebalance.strategy == Strategy::Band,
            r.cache.ttl_seconds == 30,
            r.cache.dir@ == "~/.cache/crypto-price-tracker-v2"@,
            r.coingecko.api_key is None,
            r.coingecko.plan == Plan::Demo,
            r.history_days == 90,
            r.tax.jurisdiction@ == "US"@,
            r.tax.long_term_threshold_days == 365,
            r.tax.short_term_rate == (Dec { mantissa: 35, scale: 2 }),
            r.tax.long_term_brackets@.len() == 3,
    {
        let targets = vec![
            ("bitcoin".to_string(), Dec::new(6, 1)),
            ("ethereum".to_string(), Dec::new(3, 1)),
            ("solana".to_string(), Dec::new(1, 1)),
        ];
        let symbols = vec![
            ("bitcoin".to_string(), "BTC".to_string()),
            ("ethereum".to_string(), "ETH".to_string()),
            ("solana".to_string(), "SOL".to_string()),
        ];
        proof {
            reveal_strlit("bitcoin");
            reveal_strlit("ethereum");
            reveal_strlit("solana");
            reveal_strlit("US");
            assert(lex_lt("bitcoin"@, "ethereum"@));
            assert(lex_lt("ethereum"@, "solana"@));
            assert(lex_lt("bitcoin"@, "solana"@));
        }
        Config {
            ledger_path: "ledger.json".to_string(),
            default_method: Method::Fifo,
            display_currency: "usd".to_string(),
            refresh_seconds: 60,
            tax: default_tax_rules("US".to_string()),
            targets,
            rebalance: RebalanceConfig {
                band: Dec::new(5, 2),
                min_trade_usd: Dec::new(25, 0),
                strategy: Strategy::Band,
            },
            symbols,
            cache: CacheConfig {
                ttl_seconds: 30,
                dir: "~/.cache/crypto-price-tracker-v2".to_string(),
            },
            coingecko: CoinGeckoConfig { api_key: None, plan: Plan::Demo },
            history_days: 90,
        }
    }
}

/// Where the configuration comes from.
#[derive(Clone, Copy, Debug, PartialEq, Eq, Structural)]
pub enum ConfigSource {
    /// The file named on the command line.
    Explicit,
    /// `config.json` in the working directory.
    Cwd,
    /// The global configuration file.
    Global,
    /// A starter file to be written at the global path, then used.
    Starter,
    /// The built-in defaults; nothing is read or written.
    Defaults,
}

/// `p` is present and spells `s`.
pub open spec fn names(p: Option<String>, s: Seq<char>) -> bool {
    match p {
        Some(x) => x@ == s,
        None => false,
    }
}

/// Which configuration to use, the file involved, and the directory that
/// relative paths in it are resolved against.
#[derive(Clone, Debug)]
pub struct ConfigChoice {
    pub source: ConfigSource,
    pub path: Option<String>,
    pub dir: String,
}

/// The configuration to use. Precedence: the explicit path (which must then
/// be read) > the working directory's file when it exists > the global file
/// when it exists > a starter written to the global path > the built-in
/// defaults, resolved against `.`, when there is no global path.
pub fn choose_config(
    explicit: Option<&str>,
    cwd_config: &str,
    cwd_exists: bool,
    global_config: Option<&str>,
    global_exists: bool,
) -> (r: ConfigChoice)
    ensures
        explicit is Some ==> r.source == ConfigSource::Explicit && names(r.path, explicit->0@) && r.dir@ == spec_dir_of(explicit->0@),
        explicit is None && cwd_exists ==> r.source == ConfigSource::Cwd && names(r.path, cwd_config@) && r.dir@ == spec_dir_of(cwd_config@),
        explicit is None && !cwd_exists && global_config is Some ==> (if global_exists {
            r.source == ConfigSource::Global
        } else {
            r.source == ConfigSource::Starter
        }) && names(r.path, global_config->0@) && r.dir@ == spec_dir_of(
            global_config->0@,
        ),
        explicit is None && !cwd_exists && global_config is None ==> r.source
            == ConfigSource::Defaults && r.path is None && r.dir@ == seq!['.'],
{
    match explicit {
        Some(p) => ConfigChoice {
            source: ConfigSource::Explicit,
            path: Some(p.to_string()),
            dir: dir_of(p),
        },
        None => {
            if cwd_exists {
                ConfigChoice {
                    source: ConfigSource::Cwd,
                    path: Some(cwd_config.to_string()),
                    dir: dir_of(cwd_config),
                }
            } else {
                match global_config {
                    Some(g) => ConfigChoice {
                        source: if global_exists {
                            ConfigSource::Global
                        } else {
                            ConfigSource::Starter
                        },
                        path: Some(g.to_string()),
                        dir: dir_of(g),
                    },
                    None => {
                        proof {
                            reveal_strlit(".");
                        }
                        ConfigChoice { source: ConfigSource::Defaults, path: None, dir: ".".to_string() }
                    },
                }
            }
        },
    }
}

} // verus!
