//! Credential profiles, profile selection, and where the configuration lives
//! (`~/.config/torizon`).

use vstd::prelude::*;

use crate::strmap::StrMap;
use crate::text::{concat3, owned};

verus! {

/// Default Torizon Platform API base (no trailing slash).
pub const DEFAULT_API_BASE: &'static str = "https://app.torizon.io/api/v2";

/// Default Keycloak token endpoint for the `ota-users` realm.
pub const DEFAULT_TOKEN_URL: &'static str =
    "https://kc.torizon.io/auth/realms/ota-users/protocol/openid-connect/token";

/// A single named set of API-client credentials.
#[derive(Debug)]
pub struct Profile {
    pub client_id: String,
    pub client_secret: String,
    /// Overrides the API base URL; falls back to `DEFAULT_API_BASE`.
    pub api_base: Option<String>,
    /// Overrides the OAuth2 token endpoint; falls back to `DEFAULT_TOKEN_URL`.
    pub token_url: Option<String>,
}

pub open spec fn opt_str(o: Option<String>) -> Option<Seq<char>> {
    match o {
        Some(s) => Some(s@),
        None => None,
    }
}

pub open spec fn opt_str_ref(o: Option<&str>) -> Option<Seq<char>> {
    match o {
        Some(s) => Some(s@),
        None => None,
    }
}

impl Profile {
    /// A copy of the profile.
    pub fn copy(&self) -> (r: Profile)
        ensures
            r.client_id@ == self.client_id@,
            r.client_secret@ == self.client_secret@,
            opt_str(r.api_base) == opt_str(self.api_base),
            opt_str(r.token_url) == opt_str(self.token_url),
    {
        Profile {
            client_id: self.client_id.clone(),
            client_secret: self.client_secret.clone(),
            api_base: match &self.api_base {
                Some(s) => Some(s.clone()),
                None => None,
            },
            token_url: match &self.token_url {
                Some(s) => Some(s.clone()),
                None => None,
            },
        }
    }

    /// The API base URL in effect.
    pub fn api_base(&self) -> (r: &str)
        ensures
            r@ == match self.api_base {
                Some(s) => s@,
                None => DEFAULT_API_BASE@,
            },
    {
        match &self.api_base {
            Some(s) => s.as_str(),
            None => DEFAULT_API_BASE,
        }
    }

    /// The token endpoint in effect.
    pub fn token_url(&self) -> (r: &str)
        ensures
            r@ == match self.token_url {
                Some(s) => s@,
                None => DEFAULT_TOKEN_URL@,
            },
    {
        match &self.token_url {
            Some(s) => s.as_str(),
            None => DEFAULT_TOKEN_URL,
        }
    }
}

/// The credentials file: an optional default profile name plus the profiles
/// by name.
pub struct Config {
    pub default: Option<String>,
    pub profiles: StrMap<Profile>,
}

impl Default for Config {
    fn default() -> (r: Config)
        ensures
            r.default is None,
            r.profiles.contents() == Map::<Seq<char>, Profile>::empty(),
            r.profiles.keys() == Seq::<Seq<char>>::empty(),
    {
        Config { default: None, profiles: StrMap::new() }
    }
}

/// Why no profile or configuration location could be determined.
#[derive(Debug)]
pub enum ConfigError {
    /// The user configuration directory is unknown.
    NoConfigDir,
    /// No profile was named, none is the default, and there is not exactly one.
    NoProfileSelected,
    /// The named profile does not exist.
    ProfileNotFound(String),
}

/// The outcome of selecting a profile.
pub enum Resolution {
    Found(Profile),
    NotFound(Seq<char>),
    NoneSelected,
}

/// The name of the profile to use: the explicit `name`, else the default,
/// else the sole profile when there is exactly one.
pub open spec fn selected_name(
    name: Option<Seq<char>>,
    default: Option<Seq<char>>,
    keys: Seq<Seq<char>>,
) -> Option<Seq<char>> {
    match name {
        Some(n) => Some(n),
        None => match default {
            Some(d) => Some(d),
            None => if keys.len() == 1 {
                Some(keys[0])
            } else {
                None
            },
        },
    }
}

/// Which profile `cfg` selects for `name`.
pub open spec fn resolution(cfg: Config, name: Option<Seq<char>>) -> Resolution {
    match selected_name(name, opt_str(cfg.default), cfg.profiles.keys()) {
        None => Resolution::NoneSelected,
        Some(k) => if cfg.profiles.contents().contains_key(k) {
            Resolution::Found(cfg.profiles.contents()[k])
        } else {
            Resolution::NotFound(k)
        },
    }
}

impl Config {
    /// Resolves the profile to use: the explicit `name` if given, otherwise the
    /// configured `default`, otherwise the sole profile if there is exactly one.
    pub fn resolve(&self, name: Option<&str>) -> (r: Result<&Profile, ConfigError>)
        ensures
            match resolution(*self, opt_str_ref(name)) {
                Resolution::Found(p) => r matches Ok(q) && *q == p,
                Resolution::NotFound(k) => r matches Err(ConfigError::ProfileNotFound(n)) && n@ == k,
                Resolution::NoneSelected => r matches Err(ConfigError::NoProfileSelected),
            },
    {
        let key: String = match name {
            Some(n) => owned(n),
            None => match &self.default {
                Some(d) => d.clone(),
                None => {
                    if self.profiles.len() == 1 {
                        self.profiles.key_at(0).clone()
                    } else {
                        return Err(ConfigError::NoProfileSelected);
                    }
                },
            },
        };
        match self.profiles.get(key.as_str()) {
            Some(p) => Ok(p),
            None => Err(ConfigError::ProfileNotFound(key)),
        }
    }
}

/// Whether `cfg1` is `cfg0` after storing `profile` under `name` by a login,
/// which makes the profile the default unless asked not to (`--no-default`
/// leaves the stored default as it was, even when there is none).
pub open spec fn login_step(
    cfg0: Config,
    cfg1: Config,
    name: Seq<char>,
    profile: Profile,
    no_default: bool,
) -> bool {
    &&& cfg1.profiles.contents() == cfg0.profiles.contents().insert(name, profile)
    &&& cfg1.profiles.keys() == if cfg0.profiles.keys().contains(name) {
        cfg0.profiles.keys()
    } else {
        cfg0.profiles.keys().push(name)
    }
    &&& opt_str(cfg1.default) == if no_default {
        opt_str(cfg0.default)
    } else {
        Some(name)
    }
}

/// Stores freshly verified credentials under `name` (the bookkeeping of
/// `torizon login`).
pub fn apply_login(config: &mut Config, name: &str, profile: Profile, no_default: bool)
    ensures
        login_step(*old(config), *final(config), name@, profile, no_default),
{
    config.profiles.insert(owned(name), profile);
    if !no_default {
        config.default = Some(owned(name));
    }
}

/// After a login, the stored profile is found under its name, and it is the
/// one selected by default unless the login asked not to become the default.
pub proof fn law_login_then_resolve(
    cfg0: Config,
    cfg1: Config,
    name: Seq<char>,
    profile: Profile,
    no_default: bool,
)
    requires
        login_step(cfg0, cfg1, name, profile, no_default),
    ensures
        resolution(cfg1, Some(name)) == Resolution::Found(profile),
        !no_default ==> resolution(cfg1, None) == Resolution::Found(profile),
        no_default ==> opt_str(cfg1.default) == opt_str(cfg0.default),
{
}

/// An explicitly named profile wins over the default; an unknown name is an
/// error naming it.
pub proof fn law_explicit_name_wins(cfg: Config, name: Seq<char>)
    ensures
        cfg.profiles.contents().contains_key(name) ==> resolution(cfg, Some(name))
            == Resolution::Found(cfg.profiles.contents()[name]),
        !cfg.profiles.contents().contains_key(name) ==> resolution(cfg, Some(name))
            == Resolution::NotFound(name),
{
}

/// Whether credentials from the environment (`TORIZON_CLIENT_ID` and
/// `TORIZON_CLIENT_SECRET`) are used: no profile is named explicitly and both
/// variables are set and non-empty.
pub open spec fn env_selected(
    name: Option<Seq<char>>,
    client_id: Option<Seq<char>>,
    client_secret: Option<Seq<char>>,
) -> bool {
    &&& name is None
    &&& client_id matches Some(i) && i.len() > 0
    &&& client_secret matches Some(s) && s.len() > 0
}

/// The profile given by the environment, if it is used (see `env_selected`):
/// those credentials with the default endpoints. Credentials from the
/// environment need no `torizon login` and take the place of the stored
/// default; an explicit `--profile` always selects a stored profile.
pub fn env_profile(name: Option<&str>, client_id: Option<String>, client_secret: Option<String>) -> (r:
    Option<Profile>)
    ensures
        r is Some <==> env_selected(opt_str_ref(name), opt_str(client_id), opt_str(client_secret)),
        r matches Some(p) ==> {
            &&& opt_str(client_id) == Some(p.client_id@)
            &&& opt_str(client_secret) == Some(p.client_secret@)
            &&& p.api_base is None
            &&& p.token_url is None
        },
{
    if name.is_some() {
        return None;
    }
    match (client_id, client_secret) {
        (Some(id), Some(secret)) => {
            if id.as_str().is_empty() || secret.as_str().is_empty() {
                None
            } else {
                Some(Profile { client_id: id, client_secret: secret, api_base: None, token_url: None })
            }
        },
        _ => None,
    }
}

/// `path` with `segment` appended as a further component (`Path::join` on
/// Unix with a relative segment: a `/` is inserted unless `path` is empty or
/// already ends with one).
pub open spec fn path_join(path: Seq<char>, segment: Seq<char>) -> Seq<char> {
    if path.len() == 0 {
        segment
    } else if path.last() == '/' {
        path + segment
    } else {
        path + seq!['/'] + segment
    }
}

/// Appends a relative component to a path.
pub fn join_path(path: &str, segment: &str) -> (r: String)
    ensures
        r@ == path_join(path@, segment@),
{
    let cs = crate::text::chars_of(path);
    if cs.len() == 0 {
        owned(segment)
    } else if cs[cs.len() - 1] == '/' {
        crate::text::concat(path, segment)
    } else {
        let r = concat3(path, "/", segment);
        proof {
            reveal_strlit("/");
        }
        r
    }
}

/// The user configuration directory (`dirs::config_dir`), as text; `None`
/// when it is unknown or not valid Unicode. Depends on the environment, so
/// nothing is stated of it.
#[verifier::external_body]
fn user_config_base() -> Option<String> {
    match dirs::config_dir() {
        Some(p) => match p.into_os_string().into_string() {
            Ok(s) => Some(s),
            Err(_) => None,
        },
        None => None,
    }
}

/// `<base>/torizon`.
pub open spec fn config_dir_in(base: Seq<char>) -> Seq<char> {
    path_join(base, "torizon"@)
}

/// `<base>/torizon/credentials.toml`.
pub open spec fn credentials_path_in(base: Seq<char>) -> Seq<char> {
    path_join(config_dir_in(base), "credentials.toml"@)
}

/// The configuration directory of this CLI under a user configuration
/// directory `base`.
pub fn config_dir_under(base: &str) -> (r: String)
    ensures
        r@ == config_dir_in(base@),
{
    join_path(base, "torizon")
}

/// `~/.config/torizon` (honours `XDG_CONFIG_HOME` through the `dirs` crate).
pub fn config_dir() -> (r: Result<String, ConfigError>)
    ensures
        r matches Ok(p) ==> exists|base: Seq<char>| p@ == config_dir_in(base),
        r matches Err(e) ==> e is NoConfigDir,
{
    match user_config_base() {
        Some(base) => Ok(config_dir_under(base.as_str())),
        None => Err(ConfigError::NoConfigDir),
    }
}

/// The credentials file under a user configuration directory `base`.
pub fn credentials_path_under(base: &str) -> (r: String)
    ensures
        r@ == credentials_path_in(base@),
{
    let dir = config_dir_under(base);
    join_path(dir.as_str(), "credentials.toml")
}

/// Path to the credentials file.
pub fn credentials_path() -> (r: Result<String, ConfigError>)
    ensures
        r matches Ok(p) ==> exists|base: Seq<char>| p@ == credentials_path_in(base),
        r matches Err(e) ==> e is NoConfigDir,
{
    match user_config_base() {
        Some(base) => Ok(credentials_path_under(base.as_str())),
        None => Err(ConfigError::NoConfigDir),
    }
}

impl ConfigError {
    /// The message shown to the user; `credentials_path` is where the
    /// credentials file is looked for.
    pub fn message(&self, credentials_path: &str) -> (r: String)
        ensures
            r@ == match self {
                ConfigError::NoConfigDir => "could not determine the user config directory"@,
                ConfigError::NoProfileSelected =>
                    "no profile specified and no default set; run `torizon login` first"@,
                ConfigError::ProfileNotFound(k) => "profile `"@ + k@ + "` not found in "@
                    + credentials_path@,
            },
    {
        match self {
            ConfigError::NoConfigDir => owned("could not determine the user config directory"),
            ConfigError::NoProfileSelected => owned(
                "no profile specified and no default set; run `torizon login` first",
            ),
            ConfigError::ProfileNotFound(k) => {
                let mut r = concat3("profile `", k.as_str(), "` not found in ");
                r.append(credentials_path);
                r
            },
        }
    }
}

} // verus!
