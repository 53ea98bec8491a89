//! User and project settings: credentials resolved from environment
//! variables and the global config file, and the project's configuration
//! types.
use vstd::prelude::*;
use vstd::string::*;
use crate::text::{all_digits, digits_value, parse_capped, str_eq};

verus! {

/// One configuration entry: a key (or environment variable name) and its
/// value as text. Later entries override earlier ones with the same key.
#[derive(Debug, Clone)]
pub struct Setting {
    pub key: String,
    pub value: String,
}

impl Setting {
    pub fn new(key: &str, value: &str) -> (r: Setting)
        ensures
            r.key@ == key@,
            r.value@ == value@,
    {
        Setting { key: key.to_owned(), value: value.to_owned() }
    }

    pub fn copy(&self) -> (r: Setting)
        ensures
            r.key@ == self.key@,
            r.value@ == self.value@,
    {
        Setting { key: self.key.clone(), value: self.value.clone() }
    }
}

pub open spec fn setting_views(s: Seq<Setting>) -> Seq<(Seq<char>, Seq<char>)> {
    s.map_values(|x: Setting| (x.key@, x.value@))
}

/// The value last given for `key`.
pub open spec fn lookup_spec(s: Seq<(Seq<char>, Seq<char>)>, key: Seq<char>) -> Option<Seq<char>>
    decreases s.len(),
{
    if s.len() == 0 {
        None
    } else if s.last().0 == key {
        Some(s.last().1)
    } else {
        lookup_spec(s.drop_last(), key)
    }
}

/// The value last given for `key` in `settings`.
pub fn lookup(settings: &Vec<Setting>, key: &str) -> (r: Option<String>)
    ensures
        match r {
            Some(v) => lookup_spec(setting_views(settings@), key@) == Some(v@),
            None => lookup_spec(setting_views(settings@), key@) is None,
        },
{
    let mut found: Option<String> = None;
    let mut i: usize = 0;
    while i < settings.len()
        invariant
            i <= settings@.len(),
            match found {
                Some(v) => lookup_spec(setting_views(settings@.subrange(0, i as int)), key@)
                    == Some(v@),
                None => lookup_spec(setting_views(settings@.subrange(0, i as int)), key@) is None,
            },
        decreases settings@.len() - i,
    {
        let ghost next = setting_views(settings@.subrange(0, i as int + 1));
        assert(next.drop_last() =~= setting_views(settings@.subrange(0, i as int)));
        assert(next.last() == (settings@[i as int].key@, settings@[i as int].value@));
        if str_eq(settings[i].key.as_str(), key) {
            found = Some(settings[i].value.clone());
        }
        i += 1;
    }
    assert(settings@.subrange(0, settings@.len() as int) =~= settings@);
    found
}

// ---------------------------------------------------------------- HTTP timeouts

pub const DEFAULT_CONNECT_TIMEOUT_SECONDS: u64 = 10;

pub const DEFAULT_HTTP_TIMEOUT_SECONDS: u64 = 30;

pub const DEFAULT_BULK_TIMEOUT_SECONDS: u64 = 300;

/// The largest timeout, in seconds, that a setting can give.
pub const MAX_TIMEOUT_SECONDS: u64 = 1844674407370955160;

/// Timeouts in seconds of the API client; `None` takes the default.
#[derive(Debug, Clone, Copy, PartialEq, Eq, Structural)]
pub struct HttpConfig {
    pub connect_timeout: Option<u64>,
    pub http_timeout: Option<u64>,
    pub bulk_timeout: Option<u64>,
}

impl HttpConfig {
    pub fn get_connect_timeout(&self) -> (r: u64)
        ensures
            r == match self.connect_timeout {
                Some(t) => t,
                None => DEFAULT_CONNECT_TIMEOUT_SECONDS,
            },
    {
        match self.connect_timeout {
            Some(t) => t,
            None => DEFAULT_CONNECT_TIMEOUT_SECONDS,
        }
    }

    pub fn get_http_timeout(&self) -> (r: u64)
        ensures
            r == match self.http_timeout {
                Some(t) => t,
                None => DEFAULT_HTTP_TIMEOUT_SECONDS,
            },
    {
        match self.http_timeout {
            Some(t) => t,
            None => DEFAULT_HTTP_TIMEOUT_SECONDS,
        }
    }

    pub fn get_bulk_timeout(&self) -> (r: u64)
        ensures
            r == match self.bulk_timeout {
                Some(t) => t,
                None => DEFAULT_BULK_TIMEOUT_SECONDS,
            },
    {
        match self.bulk_timeout {
            Some(t) => t,
            None => DEFAULT_BULK_TIMEOUT_SECONDS,
        }
    }
}

/// A timeout setting: absent, or a number of seconds; `None` when it is
/// given but is not such a number.
pub open spec fn timeout_spec(v: Option<Seq<char>>) -> Option<Option<u64>> {
    match v {
        None => Some(None),
        Some(s) => if s.len() > 0 && all_digits(s) && digits_value(s) <= MAX_TIMEOUT_SECONDS {
            Some(Some(digits_value(s) as u64))
        } else {
            None
        },
    }
}

/// The timeouts given by `s`, `None` when one of them is not a number.
pub open spec fn http_config_spec(s: Seq<(Seq<char>, Seq<char>)>) -> Option<HttpConfig> {
    let c = timeout_spec(lookup_spec(s, "connect_timeout"@));
    let h = timeout_spec(lookup_spec(s, "http_timeout"@));
    let b = timeout_spec(lookup_spec(s, "bulk_timeout"@));
    if c is Some && h is Some && b is Some {
        Some(HttpConfig { connect_timeout: c->0, http_timeout: h->0, bulk_timeout: b->0 })
    } else {
        None
    }
}

fn read_timeout(settings: &Vec<Setting>, key: &str) -> (r: Option<Option<u64>>)
    ensures
        r == timeout_spec(lookup_spec(setting_views(settings@), key@)),
{
    match lookup(settings, key) {
        None => Some(None),
        Some(v) => match parse_capped(v.as_str(), MAX_TIMEOUT_SECONDS) {
            Some(t) => Some(Some(t)),
            None => None,
        },
    }
}

fn read_http_config(settings: &Vec<Setting>) -> (r: Option<HttpConfig>)
    ensures
        r == http_config_spec(setting_views(settings@)),
{
    let c = read_timeout(settings, "connect_timeout");
    let h = read_timeout(settings, "http_timeout");
    let b = read_timeout(settings, "bulk_timeout");
    match (c, h, b) {
        (Some(c), Some(h), Some(b)) => Some(
            HttpConfig { connect_timeout: c, http_timeout: h, bulk_timeout: b },
        ),
        _ => None,
    }
}

// ---------------------------------------------------------------- users

/// The credentials of the user.
#[derive(Debug, Clone, PartialEq)]
pub enum GlobalUser {
    TokenAuth { api_token: String, http_config: HttpConfig },
    GlobalKeyAuth { email: String, api_key: String, http_config: HttpConfig },
}

/// Why no credentials could be resolved.
#[derive(Debug, Clone, Copy, PartialEq, Eq, Structural)]
pub enum AuthError {
    /// No environment variable is set and there is no config file.
    NoConfigFile,
    /// The config file is not a TOML table.
    InvalidConfigFile,
    /// Neither an API token nor both email and API key are given.
    Misconfigured,
    /// A timeout is not a number of seconds.
    InvalidTimeout,
}

/// A user as `(token, (email, key), timeouts)`: a token user has the first,
/// a global-key user the second.
pub type UserModel = (Option<Seq<char>>, Option<(Seq<char>, Seq<char>)>, HttpConfig);

pub open spec fn user_view(r: Result<GlobalUser, AuthError>) -> Result<UserModel, AuthError> {
    match r {
        Ok(GlobalUser::TokenAuth { api_token, http_config }) => Ok(
            (Some(api_token@), None, http_config),
        ),
        Ok(GlobalUser::GlobalKeyAuth { email, api_key, http_config }) => Ok(
            (None, Some((email@, api_key@)), http_config),
        ),
        Err(e) => Err(e),
    }
}

/// The user that settings `s` describe: an API token wins over an email and
/// API key.
pub open spec fn user_spec(s: Seq<(Seq<char>, Seq<char>)>) -> Result<UserModel, AuthError> {
    match http_config_spec(s) {
        None => Err(AuthError::InvalidTimeout),
        Some(hc) => match lookup_spec(s, "api_token"@) {
            Some(t) => Ok((Some(t), None, hc)),
            None => match (lookup_spec(s, "email"@), lookup_spec(s, "api_key"@)) {
                (Some(e), Some(k)) => Ok((None, Some((e, k)), hc)),
                _ => Err(AuthError::Misconfigured),
            },
        },
    }
}

impl GlobalUser {
    pub fn get_http_config(&self) -> (r: &HttpConfig)
        ensures
            *r == match self {
                GlobalUser::TokenAuth { http_config, .. } => *http_config,
                GlobalUser::GlobalKeyAuth { http_config, .. } => *http_config,
            },
    {
        match self {
            GlobalUser::TokenAuth { http_config, .. } => http_config,
            GlobalUser::GlobalKeyAuth { http_config, .. } => http_config,
        }
    }

    /// Reads the user from merged settings.
    pub fn from_config(settings: &Vec<Setting>) -> (r: Result<GlobalUser, AuthError>)
        ensures
            user_view(r) == user_spec(setting_views(settings@)),
    {
        let http_config = match read_http_config(settings) {
            Some(hc) => hc,
            None => {
                return Err(AuthError::InvalidTimeout);
            },
        };
        match lookup(settings, "api_token") {
            Some(api_token) => Ok(GlobalUser::TokenAuth { api_token, http_config }),
            None => match (lookup(settings, "email"), lookup(settings, "api_key")) {
                (Some(email), Some(api_key)) => Ok(
                    GlobalUser::GlobalKeyAuth { email, api_key, http_config },
                ),
                _ => Err(AuthError::Misconfigured),
            },
        }
    }
}

// ---------------------------------------------------------------- environment

/// The settings key of a recognised environment variable.
pub open spec fn env_key_spec(name: Seq<char>) -> Option<Seq<char>> {
    if name == "CF_API_TOKEN"@ {
        Some("api_token"@)
    } else if name == "CF_API_KEY"@ {
        Some("api_key"@)
    } else if name == "CF_EMAIL"@ {
        Some("email"@)
    } else if name == "CF_CONNECT_TIMEOUT"@ {
        Some("connect_timeout"@)
    } else if name == "CF_HTTP_TIMEOUT"@ {
        Some("http_timeout"@)
    } else if name == "CF_BULK_TIMEOUT"@ {
        Some("bulk_timeout"@)
    } else {
        None
    }
}

fn env_key(name: &str) -> (r: Option<&'static str>)
    ensures
        match r {
            Some(k) => env_key_spec(name@) == Some(k@),
            None => env_key_spec(name@) is None,
        },
{
    if str_eq(name, "CF_API_TOKEN") {
        Some("api_token")
    } else if str_eq(name, "CF_API_KEY") {
        Some("api_key")
    } else if str_eq(name, "CF_EMAIL") {
        Some("email")
    } else if str_eq(name, "CF_CONNECT_TIMEOUT") {
        Some("connect_timeout")
    } else if str_eq(name, "CF_HTTP_TIMEOUT") {
        Some("http_timeout")
    } else if str_eq(name, "CF_BULK_TIMEOUT") {
        Some("bulk_timeout")
    } else {
        None
    }
}

/// The settings that environment variables `env` give, in order; other
/// variables are ignored.
pub open spec fn env_settings_spec(env: Seq<(Seq<char>, Seq<char>)>) -> Seq<(Seq<char>, Seq<char>)>
    decreases env.len(),
{
    if env.len() == 0 {
        Seq::empty()
    } else {
        let init = env_settings_spec(env.drop_last());
        match env_key_spec(env.last().0) {
            Some(k) => init.push((k, env.last().1)),
            None => init,
        }
    }
}

/// The settings that the environment variables give.
pub fn env_settings(env: &Vec<Setting>) -> (r: Vec<Setting>)
    ensures
        setting_views(r@) == env_settings_spec(setting_views(env@)),
{
    let mut out: Vec<Setting> = Vec::new();
    let mut i: usize = 0;
    while i < env.len()
        invariant
            i <= env@.len(),
            setting_views(out@) == env_settings_spec(setting_views(env@.subrange(0, i as int))),
        decreases env@.len() - i,
    {
        let ghost next = setting_views(env@.subrange(0, i as int + 1));
        assert(next.drop_last() =~= setting_views(env@.subrange(0, i as int)));
        assert(next.last() == (env@[i as int].key@, env@[i as int].value@));
        match env_key(env[i].key.as_str()) {
            Some(k) => {
                let ghost before = setting_views(out@);
                let st = Setting { key: k.to_owned(), value: env[i].value.clone() };
                out.push(st);
                assert(setting_views(out@) =~= before.push((k@, env@[i as int].value@)));
            },
            None => {},
        }
        i += 1;
    }
    assert(env@.subrange(0, env@.len() as int) =~= env@);
    out
}

pub open spec fn set_and_nonempty(env: Seq<(Seq<char>, Seq<char>)>, var: Seq<char>) -> bool {
    lookup_spec(env, var) is Some && lookup_spec(env, var)->0.len() > 0
}

/// Whether none of the credential variables is set to a non-empty value, so
/// that the environment can only be giving timeouts.
pub open spec fn only_timeout_vars_spec(env: Seq<(Seq<char>, Seq<char>)>) -> bool {
    !set_and_nonempty(env, "CF_API_TOKEN"@) && !set_and_nonempty(env, "CF_API_KEY"@)
        && !set_and_nonempty(env, "CF_EMAIL"@)
}

fn set_nonempty(env: &Vec<Setting>, var: &str) -> (r: bool)
    ensures
        r == set_and_nonempty(setting_views(env@), var@),
{
    match lookup(env, var) {
        Some(v) => v.as_str().unicode_len() > 0,
        None => false,
    }
}

/// Whether the environment sets no credential variable to a non-empty value.
pub fn has_only_cf_xxx_timeout_vars(env: &Vec<Setting>) -> (r: bool)
    ensures
        r == only_timeout_vars_spec(setting_views(env@)),
{
    !set_nonempty(env, "CF_API_TOKEN") && !set_nonempty(env, "CF_API_KEY") && !set_nonempty(
        env,
        "CF_EMAIL",
    )
}

/// The merged settings that credentials are read from, for environment
/// variables `env` and the config file's settings `file` (`None` when there
/// is no file); `None` when there is nothing to read. With a recognised
/// environment variable set the environment is used, on top of the file only
/// where the environment gives nothing but timeouts; otherwise the file.
pub open spec fn merged_settings_spec(
    env: Seq<(Seq<char>, Seq<char>)>,
    file: Option<Seq<(Seq<char>, Seq<char>)>>,
) -> Option<Seq<(Seq<char>, Seq<char>)>> {
    let from_env = env_settings_spec(env);
    if from_env.len() == 0 {
        file
    } else {
        match file {
            Some(f) => if only_timeout_vars_spec(env) {
                Some(f + from_env)
            } else {
                Some(from_env)
            },
            None => Some(from_env),
        }
    }
}

pub open spec fn file_view(file: Option<&Vec<Setting>>) -> Option<Seq<(Seq<char>, Seq<char>)>> {
    match file {
        Some(f) => Some(setting_views(f@)),
        None => None,
    }
}

/// The user resolved from environment variables and the config file.
pub open spec fn build_spec(
    env: Seq<(Seq<char>, Seq<char>)>,
    file: Option<Seq<(Seq<char>, Seq<char>)>>,
) -> Result<UserModel, AuthError> {
    match merged_settings_spec(env, file) {
        None => Err(AuthError::NoConfigFile),
        Some(s) => user_spec(s),
    }
}

impl GlobalUser {
    /// Resolves the user from the environment variables `environment` and the
    /// settings of the global config file, `None` when it does not exist.
    pub fn build(environment: &Vec<Setting>, config_file: Option<&Vec<Setting>>) -> (r: Result<
        GlobalUser,
        AuthError,
    >)
        ensures
            user_view(r) == build_spec(setting_views(environment@), file_view(config_file)),
    {
        let from_env = env_settings(environment);
        if from_env.len() == 0 {
            match config_file {
                Some(f) => GlobalUser::from_config(f),
                None => Err(AuthError::NoConfigFile),
            }
        } else {
            match config_file {
                Some(f) => {
                    if has_only_cf_xxx_timeout_vars(environment) {
                        let mut merged: Vec<Setting> = Vec::new();
                        let mut i: usize = 0;
                        while i < f.len()
                            invariant
                                i <= f@.len(),
                                setting_views(merged@) == setting_views(f@.subrange(0, i as int)),
                            decreases f@.len() - i,
                        {
                            let ghost before = setting_views(merged@);
                            merged.push(f[i].copy());
                            assert(setting_views(merged@) =~= before.push(
                                (f@[i as int].key@, f@[i as int].value@),
                            ));
                            assert(setting_views(merged@) =~= setting_views(
                                f@.subrange(0, i as int + 1),
                            ));
                            i += 1;
                        }
                        let mut j: usize = 0;
                        while j < from_env.len()
                            invariant
                                i == f@.len(),
                                j <= from_env@.len(),
                                setting_views(merged@) == setting_views(f@) + setting_views(
                                    from_env@.subrange(0, j as int),
                                ),
                            decreases from_env@.len() - j,
                        {
                            let ghost before = setting_views(merged@);
                            merged.push(from_env[j].copy());
                            assert(setting_views(merged@) =~= before.push(
                                (from_env@[j as int].key@, from_env@[j as int].value@),
                            ));
                            assert(setting_views(merged@) =~= setting_views(f@) + setting_views(
                                from_env@.subrange(0, j as int + 1),
                            ));
                            j += 1;
                        }
                        assert(from_env@.subrange(0, from_env@.len() as int) =~= from_env@);
                        GlobalUser::from_config(&merged)
                    } else {
                        GlobalUser::from_config(&from_env)
                    }
                },
                None => GlobalUser::from_config(&from_env),
            }
        }
    }
}

// ---------------------------------------------------------------- config file

/// The top-level entries of the TOML document `text`, each value as text,
/// or `None` when `text` is not a TOML table or holds a value that toml
/// cannot write back.
pub uninterp spec fn toml_settings_of(text: Seq<char>) -> Option<Seq<(Seq<char>, Seq<char>)>>;

pub open spec fn opt_settings_view(r: Option<Vec<Setting>>) -> Option<Seq<(Seq<char>, Seq<char>)>> {
    match r {
        Some(v) => Some(setting_views(v@)),
        None => None,
    }
}

/// Relies on toml::Value's FromStr (toml::from_str) and on toml::to_string:
/// reads a TOML document; each top-level value is kept as text, a string as
/// it is and any other value as toml writes it. A value that toml cannot
/// write makes the document unreadable.
#[verifier::external_body]
fn read_toml_settings(text: &str) -> (r: Option<Vec<Setting>>)
    ensures
        opt_settings_view(r) == toml_settings_of(text@),
{
    match text.parse::<toml::Value>() {
        Ok(toml::Value::Table(t)) => t.into_iter().map(|(key, v)| match v {
            toml::Value::String(value) => Ok(Setting { key, value }),
            other => toml::to_string(&other).map(|value| Setting { key, value }),
        }).collect::<Result<Vec<Setting>, toml::ser::Error>>().ok(),
        _ => None,
    }
}

/// The user resolved from environment variables and the text of the config
/// file. A file that does not parse fails only where the environment gives
/// nothing; otherwise it is passed over.
pub open spec fn new_user_spec(env: Seq<(Seq<char>, Seq<char>)>, text: Option<Seq<char>>) -> Result<UserModel, AuthError> {
    match text {
        None => build_spec(env, None),
        Some(t) => match toml_settings_of(t) {
            None => if env_settings_spec(env).len() > 0 {
                build_spec(env, None)
            } else {
                Err(AuthError::InvalidConfigFile)
            },
            Some(f) => build_spec(env, Some(f)),
        },
    }
}

impl GlobalUser {
    /// Resolves the user from the environment variables `environment` and the
    /// text of the global config file, `None` when it does not exist.
    pub fn new(environment: &Vec<Setting>, config_text: Option<&str>) -> (r: Result<
        GlobalUser,
        AuthError,
    >)
        ensures
            user_view(r) == new_user_spec(
                setting_views(environment@),
                match config_text {
                    Some(t) => Some(t@),
                    None => None,
                },
            ),
    {
        match config_text {
            None => GlobalUser::build(environment, None),
            Some(t) => match read_toml_settings(t) {
                None => {
                    if env_settings(environment).len() > 0 {
                        GlobalUser::build(environment, None)
                    } else {
                        Err(AuthError::InvalidConfigFile)
                    }
                },
                Some(f) => GlobalUser::build(environment, Some(&f)),
            },
        }
    }
}

} // verus!
