use std::time::Duration;
use wrangler_dev::settings::{
    has_only_cf_xxx_timeout_vars, AuthError, GlobalUser, HttpConfig, Setting,
    DEFAULT_BULK_TIMEOUT_SECONDS, DEFAULT_CONNECT_TIMEOUT_SECONDS, DEFAULT_HTTP_TIMEOUT_SECONDS,
};

const CF_API_TOKEN: &str = "CF_API_TOKEN";
const CF_API_KEY: &str = "CF_API_KEY";
const CF_EMAIL: &str = "CF_EMAIL";
const CF_HTTP_TIMEOUT: &str = "CF_HTTP_TIMEOUT";
const CF_BULK_TIMEOUT: &str = "CF_BULK_TIMEOUT";

fn default_http_config() -> HttpConfig {
    HttpConfig { connect_timeout: None, http_timeout: None, bulk_timeout: None }
}

// An existing but empty config file.
const EMPTY_FILE: Option<&str> = Some("");

#[test]
fn it_can_prioritize_token_input() {
    // Set all CF_API_TOKEN, CF_EMAIL, and CF_API_KEY: the token wins.
    let mock_env = vec![
        Setting::new(CF_API_TOKEN, "foo"),
        Setting::new(CF_EMAIL, "test@cloudflare.com"),
        Setting::new(CF_API_KEY, "bar"),
    ];

    let user = GlobalUser::new(&mock_env, EMPTY_FILE).unwrap();
    assert_eq!(
        user,
        GlobalUser::TokenAuth { api_token: "foo".to_string(), http_config: default_http_config() }
    );
}

#[test]
fn it_can_prioritize_env_vars() {
    let api_token = "thisisanapitoken";
    let api_key = "reallylongglobalapikey";
    let email = "user@example.com";

    let file_user = format!("api_token = \"{}\"\n", api_token);
    let env_user = GlobalUser::GlobalKeyAuth {
        api_key: api_key.to_string(),
        email: email.to_string(),
        http_config: default_http_config(),
    };

    let mock_env = vec![Setting::new(CF_EMAIL, email), Setting::new(CF_API_KEY, api_key)];

    let new_user = GlobalUser::new(&mock_env, Some(&file_user)).unwrap();

    assert_eq!(new_user, env_user);
}

#[test]
fn it_falls_through_to_config_with_no_env_vars() {
    let mock_env: Vec<Setting> = Vec::new();

    let user = GlobalUser::TokenAuth {
        api_token: "thisisanapitoken".to_string(),
        http_config: default_http_config(),
    };
    let file = "api_token = \"thisisanapitoken\"\n";

    let new_user = GlobalUser::new(&mock_env, Some(file)).unwrap();

    assert_eq!(new_user, user);
}

#[test]
fn it_fails_if_global_auth_incomplete_in_file() {
    let email_config = "email = \"thisisanemail\"";

    let file_user = GlobalUser::new(&Vec::new(), Some(email_config));

    assert!(file_user.is_err());
}

#[test]
fn it_fails_if_global_auth_incomplete_in_env() {
    let mock_env = vec![Setting::new(CF_API_KEY, "apikey")];

    let new_user = GlobalUser::new(&mock_env, EMPTY_FILE);

    assert!(new_user.is_err());
}

#[test]
fn it_succeeds_with_no_config() {
    let mock_env = vec![Setting::new(CF_API_KEY, "apikey"), Setting::new(CF_EMAIL, "email")];
    // "./definitely-does-not-exist.txt": there is no config file
    let new_user = GlobalUser::build(&mock_env, None);

    assert!(new_user.is_ok());
}

#[test]
fn token_auth_succeeds_with_config_timeouts() {
    let config = r#"
api_token = "my_api_token"
connect_timeout = 3
bulk_timeout = 16
"#;

    let new_user = GlobalUser::new(&Vec::new(), Some(config)).unwrap();
    let http_config = match new_user {
        GlobalUser::TokenAuth { http_config, .. } => http_config,
        _ => panic!("expected TokenAuth user"),
    };

    assert_eq!(Duration::from_secs(3), Duration::from_secs(http_config.get_connect_timeout()));
    assert_eq!(
        Duration::from_secs(DEFAULT_HTTP_TIMEOUT_SECONDS),
        Duration::from_secs(http_config.get_http_timeout())
    );
    assert_eq!(Duration::from_secs(16), Duration::from_secs(http_config.get_bulk_timeout()));
}

#[test]
fn global_auth_succeeds_with_config_timeouts() {
    let config = r#"
email = "workers@cloudflare.com"
api_key = "my_api_key"
http_timeout = 3
"#;

    let new_user = GlobalUser::new(&Vec::new(), Some(config)).unwrap();
    let http_config = match new_user {
        GlobalUser::GlobalKeyAuth { http_config, .. } => http_config,
        _ => panic!("expected TokenAuth user"),
    };

    assert_eq!(
        Duration::from_secs(DEFAULT_CONNECT_TIMEOUT_SECONDS),
        Duration::from_secs(http_config.get_connect_timeout())
    );
    assert_eq!(Duration::from_secs(3), Duration::from_secs(http_config.get_http_timeout()));
    assert_eq!(
        Duration::from_secs(DEFAULT_BULK_TIMEOUT_SECONDS),
        Duration::from_secs(http_config.get_bulk_timeout())
    );
}

#[test]
fn auth_succeeds_with_env_str_and_num_timeouts() {
    let config = r#"
email = "workers@cloudflare.com"
api_key = "my_api_key"
connect_timeout = 8
http_timeout = 3
"#;

    let new_user = GlobalUser::new(&Vec::new(), Some(config)).unwrap();
    let http_config = match new_user {
        GlobalUser::GlobalKeyAuth { http_config, .. } => http_config,
        _ => panic!("expected TokenAuth user"),
    };

    assert_eq!(Duration::from_secs(8), Duration::from_secs(http_config.get_connect_timeout()));
    assert_eq!(Duration::from_secs(3), Duration::from_secs(http_config.get_http_timeout()));
    assert_eq!(
        Duration::from_secs(DEFAULT_BULK_TIMEOUT_SECONDS),
        Duration::from_secs(http_config.get_bulk_timeout())
    );
}

#[test]
fn environment_timeouts_get_applied_to_config() {
    let config = r#"
email = "workers@cloudflare.com"
api_key = "my_api_key"
"#;

    let env = vec![Setting::new(CF_HTTP_TIMEOUT, "10000"), Setting::new(CF_BULK_TIMEOUT, "10000")];

    let new_user = GlobalUser::new(&env, Some(config)).unwrap();
    let http_config = match new_user {
        GlobalUser::GlobalKeyAuth { http_config, .. } => http_config,
        _ => panic!("expected TokenAuth user"),
    };

    assert_eq!(
        Duration::from_secs(DEFAULT_CONNECT_TIMEOUT_SECONDS),
        Duration::from_secs(http_config.get_connect_timeout())
    );
    assert_eq!(Duration::from_secs(10_000), Duration::from_secs(http_config.get_http_timeout()));
    assert_eq!(Duration::from_secs(10_000), Duration::from_secs(http_config.get_bulk_timeout()));
}

#[test]
fn no_env_and_no_file_is_an_error() {
    assert_eq!(GlobalUser::build(&Vec::new(), None), Err(AuthError::NoConfigFile));
}

#[test]
fn unparseable_file_is_an_error_without_env() {
    assert_eq!(
        GlobalUser::new(&Vec::new(), Some("api_token = ")),
        Err(AuthError::InvalidConfigFile)
    );
}

#[test]
fn non_numeric_timeout_is_an_error() {
    let env = vec![Setting::new(CF_API_TOKEN, "t"), Setting::new("CF_HTTP_TIMEOUT", "soon")];
    assert_eq!(GlobalUser::build(&env, None), Err(AuthError::InvalidTimeout));
}

#[test]
fn credential_vars_are_not_only_timeouts() {
    assert!(has_only_cf_xxx_timeout_vars(&vec![Setting::new(CF_HTTP_TIMEOUT, "1")]));
    assert!(has_only_cf_xxx_timeout_vars(&vec![Setting::new(CF_EMAIL, "")]));
    assert!(!has_only_cf_xxx_timeout_vars(&vec![Setting::new(CF_EMAIL, "a@b.c")]));
}

#[test]
fn email_without_key_is_misconfigured() {
    let env = vec![Setting::new(CF_EMAIL, "a@b.c")];
    assert_eq!(GlobalUser::build(&env, None), Err(AuthError::Misconfigured));
    let file = "email = \"a@b.c\"\nconnect_timeout = 5\n";
    assert_eq!(GlobalUser::new(&Vec::new(), Some(file)), Err(AuthError::Misconfigured));
}
