//! Quotes and price books, the rules of the on-disk price cache (where it
//! lives, when a cached book is fresh, how a fallback is marked), and the
//! CoinGecko client choice.

use vstd::prelude::*;

use crate::config::Plan;
use crate::dec::Dec;
use crate::paths::{join, path_join};
use crate::time::{chrono_whole_seconds, datetime_exists, ts_le, Timestamp};

verus! {

#[verifier::external_type_specification]
#[verifier::external_body]
pub struct ExCoinGeckoClient(coingecko::CoinGeckoClient);

/// One asset's market data.
#[derive(Clone, Copy, Debug)]
pub struct Quote {
    pub price: Dec,
    pub change_24h: Dec,
    pub change_7d: Option<Dec>,
    pub market_cap: Option<Dec>,
    pub volume_24h: Option<Dec>,
    pub ath: Option<Dec>,
}

/// Quotes by asset id as fetched at one instant; `stale` marks a book
/// served from the cache after a live fetch failed.
pub struct PriceBook {
    pub quotes: Vec<(String, Quote)>,
    pub fetched_at: Timestamp,
    pub stale: bool,
}

/// No asset id occurs twice.
pub open spec fn distinct_ids(q: Seq<(String, Quote)>) -> bool {
    forall|i: int, j: int| 0 <= i < j < q.len() ==> (#[trigger] q[i]).0@ != (#[trigger] q[j]).0@
}

impl PriceBook {
    /// One quote per asset, prices within the decimal bounds, and an
    /// instant `chrono` represents.
    pub open spec fn wf(&self) -> bool {
        &&& distinct_ids(self.quotes@)
        &&& forall|i: int| 0 <= i < self.quotes@.len() ==> (#[trigger] self.quotes@[i]).1.price.wf()
        &&& datetime_exists(self.fetched_at)
    }

    /// Asset id to price, one entry per quote, in the book's order.
    pub fn price_map(&self) -> (r: Vec<(String, Dec)>)
        ensures
            r@.len() == self.quotes@.len(),
            forall|i: int|
                0 <= i < r@.len() ==> (#[trigger] r@[i]).0@ == self.quotes@[i].0@ && r@[i].1
                    == self.quotes@[i].1.price,
    {
        let mut out: Vec<(String, Dec)> = Vec::new();
        let mut i: usize = 0;
        while i < self.quotes.len()
            invariant
                i <= self.quotes@.len(),
                out@.len() == i,
                forall|k: int|
                    0 <= k < i ==> (#[trigger] out@[k]).0@ == self.quotes@[k].0@ && out@[k].1
                        == self.quotes@[k].1.price,
            decreases self.quotes@.len() - i,
        {
            out.push((self.quotes[i].0.clone(), self.quotes[i].1.price));
            i += 1;
        }
        out
    }
}

/// Where the cache keeps the last fetched book, and for how long a cached
/// book counts as fresh.
pub struct PriceCache {
    dir: String,
    ttl_seconds: i64,
}

/// The cache file's name.
pub open spec fn cache_file_name() -> Seq<char> {
    seq!['p', 'r', 'i', 'c', 'e', 'b', 'o', 'o', 'k', '.', 'j', 's', 'o', 'n']
}

impl PriceCache {
    /// The cache directory.
    pub closed spec fn spec_dir(&self) -> Seq<char> {
        self.dir@
    }

    /// Seconds a cached book stays fresh.
    pub closed spec fn spec_ttl(&self) -> i64 {
        self.ttl_seconds
    }

    /// A cache in `dir` whose books stay fresh for `ttl_seconds` (taken as
    /// a signed count, as a cast to `i64` gives it).
    pub fn new(dir: String, ttl_seconds: u64) -> (r: PriceCache)
        ensures
            r.spec_dir() == dir@,
            r.spec_ttl() == ttl_seconds as i64,
    {
        PriceCache { dir, ttl_seconds: ttl_seconds as i64 }
    }

    /// The cache file: `pricebook.json` in the cache directory.
    pub fn path(&self) -> (r: String)
        ensures
            r@ == path_join(self.spec_dir(), cache_file_name()),
    {
        proof {
            reveal_strlit("pricebook.json");
            assert("pricebook.json"@ =~= cache_file_name());
        }
        join(self.dir.as_str(), "pricebook.json")
    }

    /// The cache directory.
    pub fn dir(&self) -> (r: &str)
        ensures
            r@ == self.spec_dir(),
    {
        self.dir.as_str()
    }

    /// The cached book (as read from the cache file) if it is fresh at
    /// `now`: fewer whole seconds than the time-to-live have passed since it
    /// was fetched. With no time-to-live, a book fetched no later than `now`
    /// is never fresh.
    pub fn load_fresh(&self, cached: Option<PriceBook>, now: Timestamp) -> (r: Option<PriceBook>)
        requires
            datetime_exists(now),
            cached matches Some(b) ==> datetime_exists(b.fetched_at),
        ensures
            match cached {
                Some(b) => if chrono_whole_seconds(now, b.fetched_at) < self.spec_ttl() {
                    r == Some(b)
                } else {
                    r is None
                },
                None => r is None,
            },
            (cached matches Some(b) && self.spec_ttl() <= 0 && ts_le(b.fetched_at, now)) ==> r is None,
    {
        match cached {
            Some(book) => {
                let age = now.whole_seconds_since(&book.fetched_at);
                if age < self.ttl_seconds {
                    Some(book)
                } else {
                    None
                }
            },
            None => None,
        }
    }

    /// `load_fresh` for instants not yet known to be representable:
    /// `OutOfRange` when `chrono` cannot represent `now` or the book's
    /// fetch time, else what `load_fresh` gives.
    pub fn load_fresh_checked(&self, cached: Option<PriceBook>, now: Timestamp) -> (r: Result<
        Option<PriceBook>,
        crate::error::AppError,
    >)
        ensures
            (datetime_exists(now) && (cached matches Some(b) ==> datetime_exists(b.fetched_at)))
                <==> r is Ok,
            r matches Ok(x) ==> match cached {
                Some(b) => if chrono_whole_seconds(now, b.fetched_at) < self.spec_ttl() {
                    x == Some(b)
                } else {
                    x is None
                },
                None => x is None,
            },
            r matches Err(e) ==> e is OutOfRange,
    {
        let fetched_ok = match &cached {
            Some(b) => b.fetched_at.representable(),
            None => true,
        };
        if !now.representable() || !fetched_ok {
            return Err(crate::error::AppError::OutOfRange("instant outside the calendar range".to_string()));
        }
        Ok(self.load_fresh(cached, now))
    }

    /// The cached book (as read from the cache file) whatever its age,
    /// marked stale.
    pub fn load_last_good(&self, cached: Option<PriceBook>) -> (r: Option<PriceBook>)
        ensures
            match cached {
                Some(b) => r == Some(PriceBook { stale: true, ..b }),
                None => r is None,
            },
    {
        match cached {
            Some(mut book) => {
                book.stale = true;
                Some(book)
            },
            None => None,
        }
    }
}

/// Which CoinGecko endpoint a client talks to, with the key it sends.
#[derive(Clone, Debug)]
pub enum ApiAccess {
    /// The public endpoint, without a key.
    Public,
    /// The public endpoint with a demo-plan key.
    Demo(String),
    /// The pro endpoint with a pro-plan key.
    Pro(String),
}

/// The access a key and plan select: no key means the public endpoint;
/// otherwise the plan's endpoint with the key.
pub open spec fn spec_access(api_key: Option<Seq<char>>, plan: Plan) -> Option<(Plan, Seq<char>)> {
    match api_key {
        Some(k) => Some((plan, k)),
        None => None,
    }
}

/// The endpoint and key of an access, as `spec_access` describes it.
pub open spec fn access_view(a: ApiAccess) -> Option<(Plan, Seq<char>)> {
    match a {
        ApiAccess::Public => None,
        ApiAccess::Demo(k) => Some((Plan::Demo, k@)),
        ApiAccess::Pro(k) => Some((Plan::Pro, k@)),
    }
}

/// `CoinGeckoClient::new` on the public (demo) host, without a key,
/// paired with that access. The HTTP client it builds can panic only when
/// the TLS backend cannot start.
#[verifier::external_body]
fn public_client() -> (r: (coingecko::CoinGeckoClient, ApiAccess))
    ensures
        access_view(r.1) is None,
{
    (coingecko::CoinGeckoClient::new(coingecko::COINGECKO_API_DEMO_URL), ApiAccess::Public)
}

/// `CoinGeckoClient::new_with_demo_api_key`: the public host with the key
/// sent as a demo-plan key, paired with that access. As with
/// `public_client`, the HTTP client can panic only when the TLS backend
/// cannot start.
#[verifier::external_body]
fn demo_client(key: &str) -> (r: (coingecko::CoinGeckoClient, ApiAccess))
    ensures
        access_view(r.1) == Some((Plan::Demo, key@)),
{
    (coingecko::CoinGeckoClient::new_with_demo_api_key(key), ApiAccess::Demo(key.to_string()))
}

/// `CoinGeckoClient::new_with_pro_api_key`: the pro host with the key sent
/// as a pro-plan key, paired with that access. As with `public_client`, the
/// HTTP client can panic only when the TLS backend cannot start.
#[verifier::external_body]
fn pro_client(key: &str) -> (r: (coingecko::CoinGeckoClient, ApiAccess))
    ensures
        access_view(r.1) == Some((Plan::Pro, key@)),
{
    (coingecko::CoinGeckoClient::new_with_pro_api_key(key), ApiAccess::Pro(key.to_string()))
}

/// A CoinGecko client together with the access (endpoint and key) it was
/// built for, as its constructor reports it.
pub struct CoinGeckoSource {
    client: coingecko::CoinGeckoClient,
    access: ApiAccess,
}

impl CoinGeckoSource {
    /// The access the client was built for.
    pub closed spec fn spec_access_of(&self) -> Option<(Plan, Seq<char>)> {
        access_view(self.access)
    }

    /// The client the source holds, built by `new` for its access.
    pub closed spec fn held_client(&self) -> coingecko::CoinGeckoClient {
        self.client
    }

    /// A client for the given key and plan: the plan's endpoint with the
    /// key, or the public endpoint when there is no key.
    pub fn new(api_key: Option<&str>, plan: Plan) -> (r: CoinGeckoSource)
        ensures
            r.spec_access_of() == spec_access(
                match api_key {
                    Some(k) => Some(k@),
                    None => None,
                },
                plan,
            ),
    {
        let (client, access) = match api_key {
            Some(k) => match plan {
                Plan::Pro => pro_client(k),
                Plan::Demo => demo_client(k),
            },
            None => public_client(),
        };
        CoinGeckoSource { client, access }
    }

    /// The access the client was built for.
    pub fn access(&self) -> (r: &ApiAccess)
        ensures
            access_view(*r) == self.spec_access_of(),
    {
        &self.access
    }

    /// The client the source holds, for fetching.
    pub fn client(&self) -> (r: &coingecko::CoinGeckoClient)
        ensures
            *r == self.held_client(),
    {
        &self.client
    }
}

impl Default for CoinGeckoSource {
    /// The public endpoint without a key.
    fn default() -> (r: CoinGeckoSource)
        ensures
            r.spec_access_of() is None,
    {
        CoinGeckoSource::new(None, Plan::Demo)
    }
}

} // verus!
