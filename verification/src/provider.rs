//! The provider catalog: the fixed set of supported identity providers and
//! the runtime values (endpoint URLs, client credentials, callback URL) a
//! sign-in or callback request needs for one of them.

use vstd::prelude::*;
use vstd::string::StringExecFns;

use crate::strutil::str_eq;

verus! {

/// The closed set of supported identity providers.
#[derive(Clone, Copy, PartialEq, Eq, Structural, Debug)]
pub enum SocialProviderType {
    Discord,
    Google,
}

/// The lowercase key a provider is addressed by in routes and callback URLs.
pub open spec fn spec_provider_key(p: SocialProviderType) -> Seq<char> {
    match p {
        SocialProviderType::Discord => "discord"@,
        SocialProviderType::Google => "google"@,
    }
}

/// Which provider a route's provider key names.  Keys are matched exactly
/// and case-sensitively; anything but `discord` or `google` is unknown.
pub open spec fn spec_parse_provider(s: Seq<char>) -> Option<SocialProviderType> {
    if s == "discord"@ {
        Some(SocialProviderType::Discord)
    } else if s == "google"@ {
        Some(SocialProviderType::Google)
    } else {
        None
    }
}

pub fn parse_provider(s: &str) -> (r: Option<SocialProviderType>)
    ensures
        r == spec_parse_provider(s@),
{
    if str_eq(s, "discord") {
        Some(SocialProviderType::Discord)
    } else if str_eq(s, "google") {
        Some(SocialProviderType::Google)
    } else {
        None
    }
}

/// The key of a provider, as `spec_provider_key` gives it.
pub fn provider_key(p: SocialProviderType) -> (r: &'static str)
    ensures
        r@ == spec_provider_key(p),
{
    match p {
        SocialProviderType::Discord => "discord",
        SocialProviderType::Google => "google",
    }
}

/// The deployment configuration this core is handed at startup: base and
/// client URLs, the session signing key, and each provider's client
/// credentials.  Immutable for the life of the process.
pub struct AuthConfig {
    pub base_url: String,
    pub signature_key: String,
    pub client_url: String,
    pub client_signin_success_url: String,
    pub client_signin_fail_url: String,
    pub discord_client_id: String,
    pub discord_client_secret: String,
    pub google_client_id: String,
    pub google_client_secret: String,
}

pub open spec fn spec_client_id(config: AuthConfig, p: SocialProviderType) -> Seq<char> {
    match p {
        SocialProviderType::Discord => config.discord_client_id@,
        SocialProviderType::Google => config.google_client_id@,
    }
}

pub open spec fn spec_client_secret(config: AuthConfig, p: SocialProviderType) -> Seq<char> {
    match p {
        SocialProviderType::Discord => config.discord_client_secret@,
        SocialProviderType::Google => config.google_client_secret@,
    }
}

/// The callback URL registered with a provider: the deployment's base URL,
/// the fixed callback path, and the provider's key.
pub open spec fn spec_redirect_url(config: AuthConfig, p: SocialProviderType) -> Seq<char> {
    config.base_url@ + "/api/v1/auth/callback/"@ + spec_provider_key(p)
}

/// The provider's authorization endpoint with `response_type`, `scope`,
/// `client_id` and `redirect_uri` embedded as query parameters.
pub open spec fn spec_auth_url(config: AuthConfig, p: SocialProviderType) -> Seq<char> {
    match p {
        SocialProviderType::Discord =>
            "https://discord.com/api/oauth2/authorize?response_type=code&scope=identify&client_id="@
            + spec_client_id(config, p) + "&redirect_uri="@ + spec_redirect_url(config, p),
        SocialProviderType::Google =>
            "https://accounts.google.com/o/oauth2/v2/auth?response_type=code&scope=openid&client_id="@
            + spec_client_id(config, p) + "&redirect_uri="@ + spec_redirect_url(config, p),
    }
}

pub open spec fn spec_profile_url(p: SocialProviderType) -> Seq<char> {
    match p {
        SocialProviderType::Discord => "https://discord.com/api/users/@me"@,
        SocialProviderType::Google => "https://openidconnect.googleapis.com/v1/userinfo"@,
    }
}

pub open spec fn spec_token_url(p: SocialProviderType) -> Seq<char> {
    match p {
        SocialProviderType::Discord => "https://discord.com/api/oauth2/token"@,
        SocialProviderType::Google => "https://oauth2.googleapis.com/token"@,
    }
}

/// The runtime values of one provider for one request.
pub struct ProviderData {
    pub provider: SocialProviderType,
    pub auth_url: String,
    pub profile_url: String,
    pub token_url: String,
    pub redirect_url: String,
    pub client_id: String,
    pub client_secret: String,
}

impl ProviderData {
    /// Builds the runtime values of a supported provider from the
    /// deployment configuration.
    pub fn new(provider: &str, config: &AuthConfig) -> (r: ProviderData)
        requires
            spec_parse_provider(provider@) is Some,
        ensures
            ({
                let p = spec_parse_provider(provider@)->Some_0;
                &&& r.provider == p
                &&& r.auth_url@ == spec_auth_url(*config, p)
                &&& r.profile_url@ == spec_profile_url(p)
                &&& r.token_url@ == spec_token_url(p)
                &&& r.redirect_url@ == spec_redirect_url(*config, p)
                &&& r.client_id@ == spec_client_id(*config, p)
                &&& r.client_secret@ == spec_client_secret(*config, p)
            }),
    {
        let p = parse_provider(provider).unwrap();

        let mut redirect_url = config.base_url.clone();
        redirect_url.append("/api/v1/auth/callback/");
        redirect_url.append(provider_key(p));
        proof {
            assert(redirect_url@ =~= spec_redirect_url(*config, p));
        }

        let client_id = match p {
            SocialProviderType::Discord => config.discord_client_id.clone(),
            SocialProviderType::Google => config.google_client_id.clone(),
        };
        let client_secret = match p {
            SocialProviderType::Discord => config.discord_client_secret.clone(),
            SocialProviderType::Google => config.google_client_secret.clone(),
        };

        let mut auth_url = match p {
            SocialProviderType::Discord =>
                "https://discord.com/api/oauth2/authorize?response_type=code&scope=identify&client_id=".to_owned(),
            SocialProviderType::Google =>
                "https://accounts.google.com/o/oauth2/v2/auth?response_type=code&scope=openid&client_id=".to_owned(),
        };
        auth_url.append(client_id.as_str());
        auth_url.append("&redirect_uri=");
        auth_url.append(redirect_url.as_str());
        proof {
            assert(auth_url@ =~= spec_auth_url(*config, p));
        }

        let profile_url = match p {
            SocialProviderType::Discord => "https://discord.com/api/users/@me".to_owned(),
            SocialProviderType::Google =>
                "https://openidconnect.googleapis.com/v1/userinfo".to_owned(),
        };
        let token_url = match p {
            SocialProviderType::Discord => "https://discord.com/api/oauth2/token".to_owned(),
            SocialProviderType::Google => "https://oauth2.googleapis.com/token".to_owned(),
        };

        ProviderData {
            provider: p,
            auth_url,
            profile_url,
            token_url,
            redirect_url,
            client_id,
            client_secret,
        }
    }
}

} // verus!
