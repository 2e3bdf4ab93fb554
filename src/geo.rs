//! Cache-aside geolocation of visitor addresses: when to ask the provider,
//! how the signed request is formed, and what a resolution does to the cache.
use vstd::prelude::*;
use vstd::string::StringExecFns;
use md5::Digest;

verus! {

/// Settings of the geocoding provider.
#[derive(Clone, Debug)]
pub struct QQMapConfig {
    /// Scheme and host the request path is appended to.
    pub base_url: String,
    /// The account key; empty when the provider is not configured.
    pub key: String,
    /// The shared secret the request is signed with; empty when not configured.
    pub sk: String,
}

/// The service settings.
#[derive(Clone, Debug)]
pub struct Config {
    pub qq_map: QQMapConfig,
}

/// The loopback address, never resolved.
pub const LOOPBACK: &'static str = "127.0.0.1";

/// Looks an address up in the cache (bound as `$1`).
pub const CACHE_LOOKUP_SQL: &'static str = "SELECT province FROM ip_location WHERE ip = $1";

/// Stores a resolved address (ip, nation, province, city, district, lat, lon).
pub const CACHE_INSERT_SQL: &'static str =
    "INSERT OR IGNORE INTO ip_location (ip, nation, province, city, district, lat, lon) VALUES ($1, $2, $3, $4, $5, $6, $7)";

pub const LOCATION_PATH: &'static str = "/ws/location/v1/ip";

pub const KEY_FIRST: &'static str = "?key=";

pub const IP_SECOND: &'static str = "&ip=";

pub const IP_FIRST: &'static str = "?ip=";

pub const KEY_SECOND: &'static str = "&key=";

pub const SIG_PARAM: &'static str = "&sig=";

/// What percent-encoding makes of a text.
pub uninterp spec fn url_encoded(s: Seq<char>) -> Seq<char>;

/// The MD5 digest of the UTF-8 bytes of a text.
pub uninterp spec fn md5_of(s: Seq<char>) -> Seq<u8>;

/// The lowercase hexadecimal digits.
pub open spec fn hex_digits() -> Seq<char> {
    seq!['0', '1', '2', '3', '4', '5', '6', '7', '8', '9', 'a', 'b', 'c', 'd', 'e', 'f']
}

/// Two lowercase hex digits per byte, high nibble first.
pub open spec fn hex_of(b: Seq<u8>) -> Seq<char>
    decreases b.len(),
{
    if b.len() == 0 {
        Seq::empty()
    } else {
        seq![hex_digits()[(b[0] / 16) as int], hex_digits()[(b[0] % 16) as int]] + hex_of(
            b.subrange(1, b.len() as int),
        )
    }
}

/// Relies on `urlencoding::encode`: the result depends on the text alone.
#[verifier::external_body]
fn url_encode(s: &str) -> (r: String)
    ensures
        r@ == url_encoded(s@),
{
    urlencoding::encode(s).into_owned()
}

/// Relies on `md5::Md5::digest` (the `Digest` trait): the 16-byte MD5 digest
/// of the text's bytes.
#[verifier::external_body]
fn md5_digest(s: &str) -> (r: Vec<u8>)
    ensures
        r@ == md5_of(s@),
        r@.len() == 16,
{
    md5::Md5::digest(s.as_bytes()).to_vec()
}

/// Relies on `hex::encode`: each byte becomes two lowercase hex digits, high
/// nibble first.
#[verifier::external_body]
fn hex_encode(b: &Vec<u8>) -> (r: String)
    ensures
        r@ == hex_of(b@),
{
    hex::encode(b)
}

/// Whether the provider is configured and the address is worth resolving.
pub open spec fn should_resolve(cfg: QQMapConfig, ip: Seq<char>) -> bool {
    cfg.key@.len() > 0 && cfg.sk@.len() > 0 && ip != LOOPBACK@
}

/// The request path and query, without the signature.
pub open spec fn request_path(key: Seq<char>, ip: Seq<char>) -> Seq<char> {
    LOCATION_PATH@ + KEY_FIRST@ + url_encoded(key) + IP_SECOND@ + url_encoded(ip)
}

/// The text that is hashed to sign a request: the path with its parameters
/// in sorted order, followed by the secret.
pub open spec fn signed_text(key: Seq<char>, sk: Seq<char>, ip: Seq<char>) -> Seq<char> {
    LOCATION_PATH@ + IP_FIRST@ + url_encoded(ip) + KEY_SECOND@ + url_encoded(key) + url_encoded(sk)
}

/// The full request URL for `ip`, signature attached.
pub open spec fn request_url(cfg: QQMapConfig, ip: Seq<char>) -> Seq<char> {
    cfg.base_url@ + request_path(cfg.key@, ip) + SIG_PARAM@ + url_encoded(
        hex_of(md5_of(signed_text(cfg.key@, cfg.sk@, ip))),
    )
}

/// Whether the provider is configured (key and secret both non-empty) and
/// `ip` is not the loopback address.
pub fn resolvable(cfg: &QQMapConfig, ip: &str) -> (r: bool)
    ensures
        r == should_resolve(*cfg, ip@),
{
    if cfg.key.as_str().is_empty() || cfg.sk.as_str().is_empty() {
        return false;
    }
    let ip_text = String::from_str(ip);
    let loopback = String::from_str(LOOPBACK);
    !(ip_text == loopback)
}

/// The signed provider request URL for `ip`.
pub fn location_request_url(cfg: &QQMapConfig, ip: &str) -> (r: String)
    ensures
        r@ == request_url(*cfg, ip@),
{
    let key = url_encode(cfg.key.as_str());
    let sk = url_encode(cfg.sk.as_str());
    let addr = url_encode(ip);
    let mut text = String::from_str(LOCATION_PATH);
    text.append(IP_FIRST);
    text.append(addr.as_str());
    text.append(KEY_SECOND);
    text.append(key.as_str());
    text.append(sk.as_str());
    let digest = md5_digest(text.as_str());
    let sig = url_encode(hex_encode(&digest).as_str());
    let mut url = cfg.base_url.clone();
    url.append(LOCATION_PATH);
    url.append(KEY_FIRST);
    url.append(key.as_str());
    url.append(IP_SECOND);
    url.append(addr.as_str());
    url.append(SIG_PARAM);
    url.append(sig.as_str());
    proof {
        assert(url@ =~= request_url(*cfg, ip@));
    }
    url
}

/// What the caller reports back to the resolver.
#[derive(Clone, Copy, Debug, PartialEq, Eq, Structural)]
pub enum GeoEvent {
    /// Resolution of an address is wanted.
    Begin,
    /// The cache was consulted; `true` when it held the address.
    CacheChecked(bool),
    /// The provider answered; `true` when the answer carried a location.
    Fetched(bool),
    /// The location was written to the cache.
    Stored,
    /// The last action failed (storage or provider).
    Failed,
}

/// What the resolver asks the caller to do next.
#[derive(Clone, Debug)]
pub enum GeoAction {
    /// Nothing more: resolution is over.
    Done,
    /// Look `ip` up with `CACHE_LOOKUP_SQL`.
    LookUpCache { ip: String },
    /// Send one GET request to `url`.
    Fetch { url: String },
    /// Insert the location of `ip` with `CACHE_INSERT_SQL`.
    Store { ip: String },
}

/// The kind of an action, without its payload.
#[derive(Clone, Copy, Debug, PartialEq, Eq, Structural)]
pub enum GeoMove {
    Finish,
    CheckCache,
    CallProvider,
    WriteCache,
}

impl GeoAction {
    pub open spec fn kind(self) -> GeoMove {
        match self {
            GeoAction::Done => GeoMove::Finish,
            GeoAction::LookUpCache { .. } => GeoMove::CheckCache,
            GeoAction::Fetch { .. } => GeoMove::CallProvider,
            GeoAction::Store { .. } => GeoMove::WriteCache,
        }
    }
}

/// The next move after `event`, for an address that is (or is not) worth
/// resolving.
pub open spec fn geo_move(resolve: bool, event: GeoEvent) -> GeoMove {
    match event {
        GeoEvent::Begin => if resolve {
            GeoMove::CheckCache
        } else {
            GeoMove::Finish
        },
        GeoEvent::CacheChecked(hit) => if hit {
            GeoMove::Finish
        } else {
            GeoMove::CallProvider
        },
        GeoEvent::Fetched(found) => if found {
            GeoMove::WriteCache
        } else {
            GeoMove::Finish
        },
        GeoEvent::Stored => GeoMove::Finish,
        GeoEvent::Failed => GeoMove::Finish,
    }
}

/// One step of resolving `ip`: given what the caller observed, what it does
/// next. Unconfigured providers and the loopback address end at once; a
/// cache hit ends; a miss asks for one signed provider request; an answer
/// with a location is stored; failures end resolution quietly.
pub fn update_location(config: &Config, ip: &str, event: GeoEvent) -> (r: GeoAction)
    ensures
        r.kind() == geo_move(should_resolve(config.qq_map, ip@), event),
        r matches GeoAction::LookUpCache { ip: a } ==> a@ == ip@,
        r matches GeoAction::Store { ip: a } ==> a@ == ip@,
        r matches GeoAction::Fetch { url } ==> url@ == request_url(config.qq_map, ip@),
{
    match event {
        GeoEvent::Begin => {
            if resolvable(&config.qq_map, ip) {
                GeoAction::LookUpCache { ip: String::from_str(ip) }
            } else {
                GeoAction::Done
            }
        },
        GeoEvent::CacheChecked(hit) => {
            if hit {
                GeoAction::Done
            } else {
                GeoAction::Fetch { url: location_request_url(&config.qq_map, ip) }
            }
        },
        GeoEvent::Fetched(found) => {
            if found {
                GeoAction::Store { ip: String::from_str(ip) }
            } else {
                GeoAction::Done
            }
        },
        GeoEvent::Stored => GeoAction::Done,
        GeoEvent::Failed => GeoAction::Done,
    }
}

/// One complete resolution of an address, run step by step: the number of
/// provider calls it makes and whether it writes the cache. `cached` is what
/// the cache lookup finds, `found` whether the provider's answer has a location.
pub open spec fn resolution(resolve: bool, cached: bool, found: bool) -> (nat, bool) {
    if geo_move(resolve, GeoEvent::Begin) == GeoMove::Finish {
        (0, false)
    } else if geo_move(resolve, GeoEvent::CacheChecked(cached)) == GeoMove::Finish {
        (0, false)
    } else {
        (1, geo_move(resolve, GeoEvent::Fetched(found)) == GeoMove::WriteCache)
    }
}

/// The cached addresses after a resolution of `ip` with the given outcome.
pub open spec fn cache_after(cache: Set<Seq<char>>, ip: Seq<char>, outcome: (nat, bool)) -> Set<
    Seq<char>,
> {
    if outcome.1 {
        cache.insert(ip)
    } else {
        cache
    }
}

/// Resolving the same address twice makes at most one provider call when the
/// first call found a location: the second resolution is a cache hit with no
/// provider call. An address worth resolving and not yet cached gets exactly
/// one call over the two resolutions.
pub proof fn lemma_second_resolution_hits_cache(
    cfg: QQMapConfig,
    ip: Seq<char>,
    cache: Set<Seq<char>>,
    second_found: bool,
)
    ensures
        ({
            let first = resolution(should_resolve(cfg, ip), cache.contains(ip), true);
            let cache1 = cache_after(cache, ip, first);
            let second = resolution(should_resolve(cfg, ip), cache1.contains(ip), second_found);
            &&& second.0 == 0
            &&& !second.1
            &&& first.0 + second.0 <= 1
            &&& (should_resolve(cfg, ip) && !cache.contains(ip)) ==> first.0 + second.0 == 1
                && cache1 == cache.insert(ip)
        }),
{
}

/// The loopback address, or any address while the provider's key or secret
/// is empty, is resolved with no provider call and no cache write.
pub proof fn lemma_skip_without_provider(
    cfg: QQMapConfig,
    ip: Seq<char>,
    cached: bool,
    found: bool,
)
    requires
        ip == LOOPBACK@ || cfg.key@.len() == 0 || cfg.sk@.len() == 0,
    ensures
        !should_resolve(cfg, ip),
        resolution(should_resolve(cfg, ip), cached, found) == (0nat, false),
{
}

} // verus!
