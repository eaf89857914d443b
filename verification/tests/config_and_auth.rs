use gt_server::auth::{
    access_token_claims, bearer_token, claims_issued_at, ClaimsError, check_admin_key, claims_at, hash_password, refresh_token_claims,
    reset_token_hash, validate_new_password, validate_registration, verify_password, AdminKeyError, AuthConfig,
    CredentialError, DEV_JWT_SECRET,
};
use gt_server::config::{
    cors_origins, default_max_players, env_or, env_u64_or, github_auth_url, non_empty_value, EnvValues,
    OAuthConfig, ServerConfig,
};
use gt_server::text::u64_to_string;

fn empty_env() -> EnvValues {
    EnvValues {
        gt_host: None,
        gt_port: None,
        gt_jwt_secret: None,
        gt_access_token_expiry: None,
        gt_refresh_token_expiry: None,
        database_url: None,
        gt_default_world: None,
        gt_max_players: None,
        tile_dir: None,
        github_client_id: None,
        github_client_secret: None,
        github_redirect_uri: None,
        cf_reset_worker_url: None,
        r2_account_id: None,
        r2_access_key_id: None,
        r2_secret_access_key: None,
        r2_bucket_name: None,
    }
}

#[test]
fn configuration_defaults() {
    let c = ServerConfig::from_values(empty_env());
    assert_eq!(c.host, "0.0.0.0");
    assert_eq!(c.port, 3001);
    assert_eq!(c.bind_addr(), "0.0.0.0:3001");
    assert_eq!(c.auth.jwt_secret, DEV_JWT_SECRET);
    assert_eq!(c.auth.access_token_expiry_secs, 3600);
    assert_eq!(c.auth.refresh_token_expiry_secs, 2_592_000);
    assert_eq!(c.default_world_name, "Default World");
    assert_eq!(c.default_max_players, 8);
    assert!(c.oauth.is_none());
    assert!(c.tile_dir.is_none());
}

#[test]
fn configuration_from_values() {
    let mut env = empty_env();
    env.gt_host = Some("127.0.0.1".to_string());
    env.gt_port = Some("8080".to_string());
    env.gt_max_players = Some("not a number".to_string());
    env.gt_access_token_expiry = Some("+60".to_string());
    env.tile_dir = Some(String::new());
    env.r2_bucket_name = Some("saves".to_string());
    env.github_client_id = Some("cid".to_string());
    env.github_client_secret = Some("secret".to_string());
    let c = ServerConfig::from_values(env);
    assert_eq!(c.bind_addr(), "127.0.0.1:8080");
    assert_eq!(c.default_max_players, 8);
    assert_eq!(c.auth.access_token_expiry_secs, 60);
    assert!(c.tile_dir.is_none());
    assert_eq!(c.r2_bucket_name, Some("saves".to_string()));
    let o = c.oauth.unwrap();
    assert_eq!(o.github_redirect_uri, "http://localhost:5173/auth/github/callback");
}

#[test]
fn oauth_needs_id_and_secret() {
    let mut env = empty_env();
    env.github_client_id = Some("cid".to_string());
    env.github_client_secret = Some(String::new());
    assert!(ServerConfig::from_values(env).oauth.is_none());
}

#[test]
fn number_parsing() {
    let port = |v: &str| {
        let mut env = empty_env();
        env.gt_port = Some(v.to_string());
        ServerConfig::from_values(env).port
    };
    assert_eq!(port("65535"), 65535);
    assert_eq!(port("65536"), 3001);
    assert_eq!(port("-1"), 3001);
    assert_eq!(port(""), 3001);
    assert_eq!(port("+7"), 7);
    assert_eq!(port(" 7"), 3001);
    assert_eq!(port("+"), 3001);
    let players = |v: &str| {
        let mut env = empty_env();
        env.gt_max_players = Some(v.to_string());
        ServerConfig::from_values(env).default_max_players
    };
    assert_eq!(players("4294967295"), u32::MAX);
    assert_eq!(players("4294967296"), 8);
    let some = |v: &str| Some(v.to_string());
    assert_eq!(env_u64_or(&some("18446744073709551615"), 10), u64::MAX);
    assert_eq!(env_u64_or(&some("18446744073709551616"), 10), 10);
    assert_eq!(env_u64_or(&some("007"), 10), 7);
    assert_eq!(env_u64_or(&None, 2), 2);
    assert_eq!(u64_to_string(0), "0");
    assert_eq!(u64_to_string(1234567890), "1234567890");
}

#[test]
fn environment_helpers() {
    assert_eq!(env_or(&None, "d"), "d");
    assert_eq!(env_or(&Some(String::new()), "d"), "");
    assert_eq!(non_empty_value(Some(String::new())), None);
    assert_eq!(non_empty_value(Some("v".to_string())), Some("v".to_string()));
    assert_eq!(default_max_players(), 8);
}

#[test]
fn github_authorize_link() {
    let o = OAuthConfig {
        github_client_id: "abc".to_string(),
        github_client_secret: "s".to_string(),
        github_redirect_uri: "http://h/cb".to_string(),
    };
    assert_eq!(
        github_auth_url(&o),
        "https://github.com/login/oauth/authorize?client_id=abc&redirect_uri=http://h/cb&scope=read:user,user:email"
    );
}

#[test]
fn password_hash_round_trip() {
    let h = hash_password("hunter2hunter2").unwrap();
    assert!(h.starts_with("$argon2"));
    assert_eq!(verify_password("hunter2hunter2", &h).unwrap(), true);
    assert_eq!(verify_password("hunter3hunter3", &h).unwrap(), false);
    assert!(verify_password("x", "not a phc string").is_err());
    let h2 = hash_password("hunter2hunter2").unwrap();
    assert_ne!(h, h2);
}

#[test]
fn token_claims() {
    let c = claims_at(1000, 3600, 42, "zoe", true);
    assert_eq!(c.sub, "00000000-0000-0000-0000-00000000002a");
    assert_eq!((c.iat, c.exp, c.is_guest), (1000, 4600, true));
    let cfg = AuthConfig::default_config();
    let a = access_token_claims(&cfg, 42, "zoe", false).unwrap();
    assert_eq!(a.exp - a.iat, 3600);
    assert_eq!(a.username, "zoe");
    let r = refresh_token_claims(&cfg, 42, "zoe").unwrap();
    assert_eq!(r.exp - r.iat, 86400 * 30);
    assert!(!r.is_guest);
    assert_eq!(cfg.duplicate().jwt_secret, cfg.jwt_secret);
}

#[test]
fn bearer_headers() {
    assert_eq!(bearer_token("Bearer abc.def"), Some("abc.def".to_string()));
    assert_eq!(bearer_token("Bearer "), Some(String::new()));
    assert_eq!(bearer_token("bearer abc"), None);
    assert_eq!(bearer_token("Token abc"), None);
    assert_eq!(bearer_token("Bear"), None);
}

#[test]
fn admin_keys() {
    assert_eq!(check_admin_key(None, Some("k")), Err(AdminKeyError::NotConfigured));
    assert_eq!(check_admin_key(Some(""), Some("")), Err(AdminKeyError::NotConfigured));
    assert_eq!(check_admin_key(Some("secret"), None), Err(AdminKeyError::Missing));
    assert_eq!(check_admin_key(Some("secret"), Some("secreT")), Err(AdminKeyError::Invalid));
    assert_eq!(check_admin_key(Some("secret"), Some("secret!")), Err(AdminKeyError::Invalid));
    assert_eq!(check_admin_key(Some("secret"), Some("secret")), Ok(()));
    assert_eq!(AdminKeyError::NotConfigured.status(), 503);
    assert_eq!(AdminKeyError::Invalid.status(), 401);
    assert_eq!(AdminKeyError::Missing.message(), "Missing admin key");
}

#[test]
fn reset_token_digest() {
    assert_eq!(
        reset_token_hash("abc"),
        "ba7816bf8f01cfea414140de5dae2223b00361a396177a9cb410ff61f20015ad"
    );
    assert_eq!(
        reset_token_hash(""),
        "e3b0c44298fc1c149afbf4c8996fb92427ae41e4649b934ca495991b7852b855"
    );
}

#[test]
fn credential_rules() {
    assert_eq!(validate_registration("ab", "longenough"), Err(CredentialError::UsernameLength));
    assert_eq!(validate_registration(&"u".repeat(65), "longenough"), Err(CredentialError::UsernameLength));
    assert_eq!(validate_registration("abc", "short"), Err(CredentialError::PasswordTooShort));
    assert_eq!(validate_registration("abc", "12345678"), Ok(()));
    assert_eq!(validate_new_password("1234567"), Err(CredentialError::PasswordTooShort));
    assert_eq!(CredentialError::UsernameLength.message(), "Username must be 3-64 characters");
}

#[test]
fn cors_origin_lists() {
    let some = |s: &str| Some(s.to_string());
    assert_eq!(cors_origins(&None, &None), Vec::<String>::new());
    assert_eq!(
        cors_origins(&some(" https://a.example , https://b.example,,https://a.example"), &some(" https://b.example ")),
        vec!["https://a.example", "https://b.example", "https://a.example"]
    );
    assert_eq!(cors_origins(&some("x"), &some("y")), vec!["x", "y"]);
    assert_eq!(cors_origins(&some(" , "), &some("  ")), Vec::<String>::new());
    assert_eq!(cors_origins(&None, &some("z")), vec!["z"]);
}

#[test]
fn claims_at_a_given_time() {
    let c = claims_issued_at(1_000, 60, 7, "ann", false).unwrap();
    assert_eq!((c.iat, c.exp), (1_000, 1_060));
    assert_eq!(c.sub, "00000000-0000-0000-0000-000000000007");
    assert_eq!(claims_issued_at(-1, 5, 7, "ann", false).err(), Some(ClaimsError::ExpiryOverflow));
    assert_eq!(claims_issued_at(-1, 0, 7, "ann", false).unwrap().exp, usize::MAX);
}

#[test]
fn empty_password_still_hashes() {
    assert!(hash_password("").is_ok());
}

#[test]
fn numerals_read_like_str_parse() {
    let some = |v: &str| Some(v.to_string());
    assert_eq!(env_u64_or(&some("+42"), 1), 42);
    assert_eq!(env_u64_or(&some("+"), 1), 1);
    assert_eq!(env_u64_or(&some(""), 1), 1);
    assert_eq!(env_u64_or(&some("-3"), 1), 1);
    assert_eq!(env_u64_or(&some("12a"), 1), 1);
    assert_eq!(env_u64_or(&some(" 12"), 1), 1);
    assert_eq!(env_u64_or(&some("99999999999999999999999"), 5), 5);
}

#[test]
fn empty_hash_is_not_a_phc_string() {
    assert!(verify_password("x", "").is_err());
    assert!(verify_password("x", "argon2id$v=19").is_err());
}
