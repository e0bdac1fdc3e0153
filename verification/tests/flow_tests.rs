use backend::auth::get_fail_redirect;
use backend::auth::AuthRoute;
use backend::auth::AuthSuccessRedirect;
use backend::auth::FailReason;
use backend::callback::bearer_header_value;
use backend::callback::begin_callback;
use backend::callback::error_handler;
use backend::callback::finish_callback;
use backend::callback::token_request_form;
use backend::profile::normalize_profile;
use backend::profile::RawProfile;
use backend::provider::AuthConfig;
use backend::provider::ProviderData;
use backend::provider::SocialProviderType;
use backend::sign_in;
use backend::sign_out;
use backend::store::IdentityStore;

fn test_config() -> AuthConfig {
    AuthConfig {
        base_url: "https://api.example.test".to_string(),
        signature_key: "test-signing-key".to_string(),
        client_url: "https://app.example.test".to_string(),
        client_signin_success_url: "https://app.example.test/welcome".to_string(),
        client_signin_fail_url: "https://app.example.test/signin-failed".to_string(),
        discord_client_id: "discord-client".to_string(),
        discord_client_secret: "discord-secret".to_string(),
        google_client_id: "google-client".to_string(),
        google_client_secret: "google-secret".to_string(),
    }
}

#[test]
fn sign_in_discord_redirects_to_authorization_url() {
    let config = test_config();
    let redirect = sign_in::handler("discord", &config);
    assert_eq!(redirect.status.code(), 307);
    assert_eq!(
        redirect.location,
        format!(
            "https://discord.com/api/oauth2/authorize?response_type=code&scope=identify&client_id={}&redirect_uri={}",
            "discord-client", "https://api.example.test/api/v1/auth/callback/discord"
        )
    );
}

#[test]
fn sign_in_google_redirects_to_authorization_url() {
    let config = test_config();
    let redirect = sign_in::handler("google", &config);
    assert_eq!(redirect.status.code(), 307);
    assert_eq!(
        redirect.location,
        format!(
            "https://accounts.google.com/o/oauth2/v2/auth?response_type=code&scope=openid&client_id={}&redirect_uri={}",
            "google-client", "https://api.example.test/api/v1/auth/callback/google"
        )
    );
}

#[test]
fn sign_in_unknown_provider_fails() {
    let config = test_config();
    let redirect = sign_in::handler("mastodon", &config);
    assert_eq!(redirect.status.code(), 308);
    assert_eq!(
        redirect.location,
        "https://app.example.test/signin-failed?error_msg=Unknown%20provider"
    );
}

#[test]
fn callback_unknown_provider_fails() {
    let config = test_config();
    let err = match begin_callback("mastodon", &config) {
        Ok(_) => panic!("mastodon is not a supported provider"),
        Err(redirect) => redirect,
    };
    assert_eq!(err.status.code(), 308);
    assert_eq!(
        err.location,
        "https://app.example.test/signin-failed?error_msg=Unknown%20provider"
    );
}

#[test]
fn provider_data_for_discord() {
    let config = test_config();
    let data = ProviderData::new("discord", &config);
    assert!(matches!(data.provider, SocialProviderType::Discord));
    assert_eq!(data.profile_url, "https://discord.com/api/users/@me");
    assert_eq!(data.token_url, "https://discord.com/api/oauth2/token");
    assert_eq!(data.redirect_url, "https://api.example.test/api/v1/auth/callback/discord");
    assert_eq!(data.client_id, "discord-client");
    assert_eq!(data.client_secret, "discord-secret");
}

#[test]
fn token_request_form_fields() {
    let config = test_config();
    let data = ProviderData::new("google", &config);
    let form = token_request_form(&data, "auth-code-1");
    let pairs: Vec<(&str, &str)> = form.iter().map(|(k, v)| (k.as_str(), v.as_str())).collect();
    assert_eq!(
        pairs,
        vec![
            ("grant_type", "authorization_code"),
            ("redirect_uri", "https://api.example.test/api/v1/auth/callback/google"),
            ("client_id", "google-client"),
            ("client_secret", "google-secret"),
            ("code", "auth-code-1"),
        ]
    );
}

#[test]
fn bearer_header() {
    assert_eq!(bearer_header_value("tok-123"), "Bearer tok-123");
}

#[test]
fn normalize_discord_and_google() {
    let discord = normalize_profile(RawProfile::Discord {
        id: Some("d-1".to_string()),
        username: Some("alex".to_string()),
    })
    .unwrap();
    assert_eq!(discord.provider_id, "d-1");
    assert_eq!(discord.provider_username, "alex");

    let google = normalize_profile(RawProfile::Google { sub: Some("g-1".to_string()) }).unwrap();
    assert_eq!(google.provider_id, "g-1");
    assert_eq!(google.provider_username, "");

    assert!(normalize_profile(RawProfile::Discord { id: None, username: Some("x".to_string()) })
        .is_none());
    assert!(normalize_profile(RawProfile::Discord { id: Some("x".to_string()), username: None })
        .is_none());
    assert!(normalize_profile(RawProfile::Google { sub: None }).is_none());
}

#[test]
fn exchange_and_normalize_yield_nonempty_provider_id() {
    // The decoded token and profile answers of a successful exchange carry
    // the provider's subject identifier through unchanged.
    let raw = RawProfile::Discord {
        id: Some("190372501627".to_string()),
        username: Some("someone".to_string()),
    };
    let canonical = normalize_profile(raw).unwrap();
    assert!(!canonical.provider_id.is_empty());
    assert_eq!(canonical.provider_id, "190372501627");
}

#[test]
fn full_sign_in_scenario_sets_cookie_and_redirects() {
    let config = test_config();
    let mut store = IdentityStore::new();
    // Fill the store so that the signing-in account becomes user 42.
    for i in 1..42 {
        let raw = RawProfile::Discord {
            id: Some(format!("seed-{i}")),
            username: Some(format!("seed-user-{i}")),
        };
        finish_callback(&mut store, SocialProviderType::Discord, raw, &config).unwrap();
    }
    assert_eq!(store.user_count(), 41);

    let provider_data = begin_callback("discord", &config).unwrap();
    assert!(matches!(provider_data.provider, SocialProviderType::Discord));
    let raw = RawProfile::Discord {
        id: Some("discord-subject".to_string()),
        username: Some("alex".to_string()),
    };
    let response = finish_callback(&mut store, provider_data.provider, raw, &config).unwrap();
    assert!(matches!(response.route, AuthRoute::SingIn));
    assert_eq!(response.cookies.len(), 1);
    assert_eq!(response.cookies[0].0, "set-cookie");
    let cookie = &response.cookies[0].1;
    assert!(cookie.starts_with("id=42."));
    assert!(cookie.ends_with("; HttpOnly=true; Max-Age=86400; Path=/; SameSite=Strict; Secure=true;"));
    let credential = cookie
        .strip_prefix("id=")
        .unwrap()
        .strip_suffix("; HttpOnly=true; Max-Age=86400; Path=/; SameSite=Strict; Secure=true;")
        .unwrap();
    let (id_part, sig_part) = credential.split_once('.').unwrap();
    assert_eq!(id_part, "42");
    assert_eq!(sig_part.len(), 64);
    assert!(sig_part.chars().all(|c| c.is_ascii_hexdigit() && !c.is_ascii_uppercase()));
    assert_eq!(response.redirect_url(&config), "https://app.example.test/welcome");
}

#[test]
fn callback_with_malformed_profile_fails_internally() {
    let config = test_config();
    let mut store = IdentityStore::new();
    let raw = RawProfile::Google { sub: None };
    let err = match finish_callback(&mut store, SocialProviderType::Google, raw, &config) {
        Ok(_) => panic!("a profile without its subject must be rejected"),
        Err(redirect) => redirect,
    };
    assert_eq!(err.status.code(), 308);
    assert_eq!(
        err.location,
        "https://app.example.test/signin-failed?error_msg=Internal%20server%20error"
    );
    assert_eq!(store.user_count(), 0);
}

#[test]
fn fail_redirect_encodes_reason() {
    let config = test_config();
    let internal = get_fail_redirect(&FailReason::Internal, &config);
    assert_eq!(
        internal.location,
        "https://app.example.test/signin-failed?error_msg=Internal%20server%20error"
    );
    assert_eq!(FailReason::UnknownProvider.value(), "Unknown provider");
    assert_eq!(FailReason::Internal.value(), "Internal server error");
}

#[test]
fn error_handler_redirects_to_client() {
    let config = test_config();
    let redirect = error_handler("discord", "access_denied", "declined", &config);
    assert_eq!(redirect.status.code(), 308);
    assert_eq!(redirect.location, "https://app.example.test");
}

#[test]
fn sign_out_clears_cookie() {
    let response = sign_out::handler();
    assert!(matches!(response.route, AuthRoute::SignOut));
    assert_eq!(
        response.cookies,
        vec![
            (
                "set-cookie".to_string(),
                "id=0; HttpOnly=true; Max-Age=0; Path=/; SameSite=Strict; Secure=true;".to_string()
            ),
            ("Cache-control".to_string(), "no-store".to_string()),
        ]
    );
    let config = test_config();
    assert_eq!(response.redirect_url(&config), "https://app.example.test");
}

#[test]
fn auth_success_redirect_targets() {
    let config = test_config();
    let sign_in_response = AuthSuccessRedirect { cookies: vec![], route: AuthRoute::SingIn };
    assert_eq!(sign_in_response.redirect_url(&config), "https://app.example.test/welcome");
}
