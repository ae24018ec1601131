//! OAuth2 `client_credentials` tokens: the request form, the reply check, and
//! the on-disk cache of tokens by client id.

use vstd::prelude::*;

use crate::config::{config_dir_in, path_join, ConfigError, Profile};
use crate::strmap::StrMap;
use crate::json::{jget, jstr, json_parsed, parse_json, Json, JsonV};
use crate::text::{concat, concat3, decimal, decimal_u64, owned, parse_u64, parse_u64_spec, trim, trim_str};

verus! {

/// A cached token is reused only while it stays valid for this many more seconds.
pub const EXPIRY_MARGIN_SECS: u64 = 30;

/// A cached access token.
pub struct CachedToken {
    pub access_token: String,
    /// UNIX epoch seconds at which the token must no longer be used.
    pub expires_at: u64,
}

/// Cached tokens by client id.
pub type TokenCache = StrMap<CachedToken>;

/// Whether a token expiring at `expires_at` may still be used at `now`.
pub open spec fn fresh(expires_at: u64, now: u64) -> bool {
    expires_at > now + EXPIRY_MARGIN_SECS
}

/// The cached token for `client_id` that may be used at `now`, if any.
pub open spec fn served(cache: Map<Seq<char>, CachedToken>, client_id: Seq<char>, now: u64) -> Option<
    Seq<char>,
> {
    if cache.contains_key(client_id) && fresh(cache[client_id].expires_at, now) {
        Some(cache[client_id].access_token@)
    } else {
        None
    }
}

/// The instant at which a token obtained at `now` with lifetime `expires_in`
/// expires (saturating at the largest representable instant).
pub open spec fn expiry(now: u64, expires_in: u64) -> u64 {
    if now + expires_in > u64::MAX {
        u64::MAX
    } else {
        (now + expires_in) as u64
    }
}

/// Whether `c1` is `c0` with `token` recorded for `client_id` at `now`.
pub open spec fn token_recorded(
    c0: Map<Seq<char>, CachedToken>,
    c1: Map<Seq<char>, CachedToken>,
    client_id: Seq<char>,
    token: Seq<char>,
    now: u64,
    expires_in: u64,
) -> bool {
    &&& c1.contains_key(client_id)
    &&& c1[client_id].access_token@ == token
    &&& c1[client_id].expires_at == expiry(now, expires_in)
    &&& c1.remove(client_id) == c0.remove(client_id)
}

/// The cached token for `client_id` if it is still valid at `now` (with the
/// safety margin).
pub fn cached_token(cache: &TokenCache, client_id: &str, now: u64) -> (r: Option<String>)
    ensures
        opt_seq(r) == served(cache.contents(), client_id@, now),
{
    match cache.get(client_id) {
        Some(tok) => {
            if now <= u64::MAX - EXPIRY_MARGIN_SECS && tok.expires_at > now + EXPIRY_MARGIN_SECS {
                Some(tok.access_token.clone())
            } else {
                None
            }
        },
        None => None,
    }
}

pub open spec fn opt_seq(o: Option<String>) -> Option<Seq<char>> {
    match o {
        Some(s) => Some(s@),
        None => None,
    }
}

/// Records a token just obtained at `now`, valid for `expires_in` seconds.
pub fn record_token(cache: &mut TokenCache, client_id: &str, token: &str, now: u64, expires_in: u64)
    ensures
        token_recorded(old(cache).contents(), final(cache).contents(), client_id@, token@, now, expires_in),
{
    let expires_at = now.saturating_add(expires_in);
    let entry = CachedToken { access_token: owned(token), expires_at };
    cache.insert(owned(client_id), entry);
    proof {
        let c0 = old(cache).contents();
        assert(cache.contents().remove(client_id@) =~= c0.remove(client_id@));
    }
}

/// A token recorded at `now` with lifetime `expires_in` is served again at
/// any later time `later` that is more than the margin before it expires;
/// tokens of other clients are served as before.
pub proof fn law_recorded_token_is_served(
    c0: Map<Seq<char>, CachedToken>,
    c1: Map<Seq<char>, CachedToken>,
    client_id: Seq<char>,
    token: Seq<char>,
    now: u64,
    expires_in: u64,
    later: u64,
    other: Seq<char>,
)
    requires
        token_recorded(c0, c1, client_id, token, now, expires_in),
        later + EXPIRY_MARGIN_SECS < now + expires_in,
        now + expires_in <= u64::MAX,
    ensures
        served(c1, client_id, later) == Some(token),
        other != client_id ==> served(c1, other, later) == served(c0, other, later),
{
    if other != client_id {
        assert(c1.remove(client_id).contains_key(other) == c1.contains_key(other));
        assert(c0.remove(client_id).contains_key(other) == c0.contains_key(other));
        if c1.contains_key(other) {
            assert(c1.remove(client_id)[other] == c1[other]);
            assert(c0.remove(client_id)[other] == c0[other]);
        }
    }
}

/// The current UNIX time in seconds (`SystemTime::now`), 0 if the clock is
/// before the epoch. Depends on the clock, so nothing is stated of it.
#[verifier::external_body]
fn now_secs() -> u64 {
    match std::time::SystemTime::now().duration_since(std::time::UNIX_EPOCH) {
        Ok(d) => d.as_secs(),
        Err(_) => 0,
    }
}

/// The cached token for `client_id` that is still valid now, if any. The
/// current time is read from the clock, so the contract speaks of some
/// instant `now`.
pub fn cached_token_now(cache: &TokenCache, client_id: &str) -> (r: Option<String>)
    ensures
        exists|now: u64| opt_seq(r) == served(cache.contents(), client_id@, now),
        r matches Some(t) ==> cache.contents().contains_key(client_id@) && t@
            == cache.contents()[client_id@].access_token@,
        !cache.contents().contains_key(client_id@) ==> r is None,
{
    let now = now_secs();
    cached_token(cache, client_id, now)
}

/// Records a token that was just obtained, valid for `expires_in` seconds from now.
pub fn record_token_now(cache: &mut TokenCache, client_id: &str, token: &str, expires_in: u64)
    ensures
        exists|now: u64|
            token_recorded(old(cache).contents(), final(cache).contents(), client_id@, token@, now, expires_in),
{
    let now = now_secs();
    record_token(cache, client_id, token, now, expires_in);
}

/// The token cache file under a user configuration directory `base`.
pub open spec fn cache_path_in(base: Seq<char>) -> Seq<char> {
    path_join(config_dir_in(base), "token-cache.json"@)
}

/// Path to the token cache file.
pub fn cache_path() -> (r: Result<String, ConfigError>)
    ensures
        r matches Ok(p) ==> exists|base: Seq<char>| p@ == cache_path_in(base),
        r matches Err(e) ==> e is NoConfigDir,
{
    match crate::config::config_dir() {
        Ok(dir) => {
            let p = crate::config::join_path(dir.as_str(), "token-cache.json");
            proof {
                let b = choose|b: Seq<char>| dir@ == config_dir_in(b);
                assert(p@ == cache_path_in(b));
            }
            Ok(p)
        },
        Err(e) => Err(e),
    }
}

/// The form fields of a `client_credentials` grant for `profile`.
pub fn token_form(profile: &Profile) -> (r: Vec<(String, String)>)
    ensures
        r@.len() == 3,
        r@[0].0@ == "grant_type"@ && r@[0].1@ == "client_credentials"@,
        r@[1].0@ == "client_id"@ && r@[1].1@ == profile.client_id@,
        r@[2].0@ == "client_secret"@ && r@[2].1@ == profile.client_secret@,
{
    vec![
        (owned("grant_type"), owned("client_credentials")),
        (owned("client_id"), profile.client_id.clone()),
        (owned("client_secret"), profile.client_secret.clone()),
    ]
}

/// Whether an HTTP status code is a success (2xx).
pub open spec fn success(status: u16) -> bool {
    200 <= status < 300
}

/// The error for a token endpoint reply that is not a success; `None` on success.
pub fn token_reply_error(status: u16, body: &str) -> (r: Option<String>)
    ensures
        success(status) ==> r is None,
        !success(status) ==> (r matches Some(m) && m@ == "token request failed (HTTP "@ + decimal(
            status as nat,
        ) + "): "@ + trim(body@)),
{
    if 200 <= status && status < 300 {
        None
    } else {
        let code = decimal_u64(status as u64);
        let mut m = concat3("token request failed (HTTP ", code.as_str(), "): ");
        let t = trim_str(body);
        m.append(t.as_str());
        Some(m)
    }
}

/// The access token and lifetime in a token reply document: a string member
/// `access_token`, and a member `expires_in` that is a number whose JSON text
/// is a `u64`.
pub open spec fn token_fields(v: JsonV) -> Option<(Seq<char>, u64)> {
    match (jstr(jget(v, "access_token"@)), jget(v, "expires_in"@)) {
        (Some(t), Some(JsonV::Number(_, j))) => match parse_u64_spec(j) {
            Some(n) => Some((t, n)),
            None => None,
        },
        _ => None,
    }
}

/// The message for a token reply that is JSON but lacks the token or its lifetime.
pub open spec fn token_shape_error() -> Seq<char> {
    "parsing token response: expected a string `access_token` and an unsigned integer `expires_in`"@
}

/// The token and its lifetime in seconds that a successful token reply
/// gives, from what `serde_json` reads of its body (`doc`); otherwise the
/// error, which starts with `parsing token response`.
pub open spec fn token_reply(doc: Result<JsonV, Seq<char>>) -> Result<(Seq<char>, u64), Seq<char>> {
    match doc {
        Ok(v) => match token_fields(v) {
            Some(p) => Ok(p),
            None => Err(token_shape_error()),
        },
        Err(d) => Err("parsing token response: "@ + d),
    }
}

/// Reads the access token and its lifetime out of the body of a successful
/// token reply.
pub fn token_from_reply(body: &str) -> (r: Result<(String, u64), String>)
    ensures
        match r {
            Ok((t, n)) => token_reply(json_parsed(body@)) == Ok::<(Seq<char>, u64), Seq<char>>((t@, n)),
            Err(m) => token_reply(json_parsed(body@)) == Err::<(Seq<char>, u64), Seq<char>>(m@),
        },
{
    match parse_json(body) {
        Ok(doc) => {
            let tok: Option<&String> = match doc.get("access_token") {
                Some(x) => x.as_str(),
                None => None,
            };
            let exp: Option<u64> = match doc.get("expires_in") {
                Some(Json::Number { display, json }) => parse_u64(json.as_str()),
                _ => None,
            };
            match (tok, exp) {
                (Some(t), Some(n)) => Ok((t.clone(), n)),
                _ => Err(owned(
                    "parsing token response: expected a string `access_token` and an unsigned integer `expires_in`",
                )),
            }
        },
        Err(d) => Err(concat("parsing token response: ", d.as_str())),
    }
}

} // verus!
