//! The callback leg of the sign-in flow: what this core decides and builds
//! around the two provider HTTP calls the surrounding program makes.
//!
//! `begin_callback` rejects unknown provider keys and assembles the
//! provider's runtime data; `token_request_form` and `bearer_header_value`
//! build the exchange request's pieces; `finish_callback` takes the decoded
//! raw profile, canonicalizes it, resolves it to a user through the store,
//! and answers the cookie-setting success response — or the one opaque
//! failure redirect, whatever went wrong.

use vstd::prelude::*;
use vstd::string::StringExecFns;

use crate::auth::get_fail_redirect;
use crate::auth::spec_fail_redirect_location;
use crate::auth::AuthRoute;
use crate::auth::AuthSuccessRedirect;
use crate::auth::FailReason;
use crate::auth::Redirect;
use crate::profile::normalize_profile;
use crate::profile::spec_normalize;
use crate::profile::RawProfile;
use crate::provider::spec_auth_url;
use crate::provider::spec_client_id;
use crate::provider::spec_client_secret;
use crate::provider::spec_parse_provider;
use crate::provider::spec_profile_url;
use crate::provider::spec_redirect_url;
use crate::provider::spec_token_url;
use crate::provider::AuthConfig;
use crate::provider::ProviderData;
use crate::provider::SocialProviderType;
use crate::session::session_cookie_value;
use crate::session::spec_session_cookie;
use crate::status::Status;
use crate::store::spec_resolve;
use crate::store::IdentityStore;
use crate::strutil::str_eq;

verus! {

/// Answers a callback the provider declined (`?error=...`): the browser
/// goes back to the client's own URL.
pub fn error_handler(
    _provider_type: &str,
    _error: &str,
    _error_description: &str,
    config: &AuthConfig,
) -> (r: Redirect)
    ensures
        r.status == Status::PermanentRedirect,
        r.location@ == config.client_url@,
{
    Redirect { status: Status::PermanentRedirect, location: config.client_url.clone() }
}

/// The first step of the success callback: an unknown provider key is
/// turned away with the failure redirect before anything else happens;
/// for a supported one the provider's runtime data is assembled.
pub fn begin_callback(provider_type: &str, config: &AuthConfig) -> (r: Result<
    ProviderData,
    Redirect,
>)
    ensures
        r is Ok <==> spec_parse_provider(provider_type@) is Some,
        r is Ok ==> ({
            let p = spec_parse_provider(provider_type@)->Some_0;
            let pd = r->Ok_0;
            &&& pd.provider == p
            &&& pd.auth_url@ == spec_auth_url(*config, p)
            &&& pd.profile_url@ == spec_profile_url(p)
            &&& pd.token_url@ == spec_token_url(p)
            &&& pd.redirect_url@ == spec_redirect_url(*config, p)
            &&& pd.client_id@ == spec_client_id(*config, p)
            &&& pd.client_secret@ == spec_client_secret(*config, p)
        }),
        r is Err ==> r->Err_0.status == Status::PermanentRedirect && r->Err_0.location@
            == spec_fail_redirect_location(*config, FailReason::UnknownProvider),
{
    if !str_eq(provider_type, "discord") && !str_eq(provider_type, "google") {
        return Err(get_fail_redirect(&FailReason::UnknownProvider, config));
    }
    Ok(ProviderData::new(provider_type, config))
}

/// The form fields of the token exchange: a `grant_type=authorization_code`
/// POST carrying the callback URL, the client credentials, and the
/// authorization code.
pub fn token_request_form(provider_data: &ProviderData, code: &str) -> (r: Vec<(String, String)>)
    ensures
        r@.len() == 5,
        r@[0].0@ == "grant_type"@ && r@[0].1@ == "authorization_code"@,
        r@[1].0@ == "redirect_uri"@ && r@[1].1@ == provider_data.redirect_url@,
        r@[2].0@ == "client_id"@ && r@[2].1@ == provider_data.client_id@,
        r@[3].0@ == "client_secret"@ && r@[3].1@ == provider_data.client_secret@,
        r@[4].0@ == "code"@ && r@[4].1@ == code@,
{
    let mut form: Vec<(String, String)> = Vec::new();
    form.push(("grant_type".to_owned(), "authorization_code".to_owned()));
    form.push(("redirect_uri".to_owned(), provider_data.redirect_url.clone()));
    form.push(("client_id".to_owned(), provider_data.client_id.clone()));
    form.push(("client_secret".to_owned(), provider_data.client_secret.clone()));
    form.push(("code".to_owned(), code.to_owned()));
    form
}

/// The `authorization` header of the profile fetch: the access token as a
/// bearer credential.
pub fn bearer_header_value(access_token: &str) -> (r: String)
    ensures
        r@ == "Bearer "@ + access_token@,
{
    let mut r = "Bearer ".to_owned();
    r.append(access_token);
    r
}

/// The last step of the success callback.  The decoded raw profile is
/// canonicalized and resolved to a user; a missing required field, like a
/// storage failure, collapses into the one internal-error redirect, and
/// success answers the cookie-setting redirect of the sign-in leg.
pub fn finish_callback(
    store: &mut IdentityStore,
    provider: SocialProviderType,
    raw: RawProfile,
    config: &AuthConfig,
) -> (r: Result<AuthSuccessRedirect, Redirect>)
    requires
        old(store)@.wf(),
    ensures
        final(store)@.wf(),
        match spec_normalize(raw) {
            None => final(store)@ == old(store)@ && r is Err,
            Some(pair) => {
                let resolved = spec_resolve(old(store)@, provider, pair.0, pair.1);
                &&& final(store)@ == resolved.0
                &&& (r is Ok <==> resolved.1 is Some)
                &&& (r is Ok ==> ({
                    let out = r->Ok_0;
                    &&& out.route is SingIn
                    &&& out.cookies@.len() == 1
                    &&& out.cookies@[0].0@ == "set-cookie"@
                    &&& out.cookies@[0].1@ == spec_session_cookie(
                        resolved.1->Some_0,
                        config.signature_key@,
                    )
                }))
            },
        },
        r is Err ==> r->Err_0.status == Status::PermanentRedirect && r->Err_0.location@
            == spec_fail_redirect_location(*config, FailReason::Internal),
{
    match normalize_profile(raw) {
        None => Err(get_fail_redirect(&FailReason::Internal, config)),
        Some(profile_data) => match store.resolve(&profile_data, provider) {
            Ok(user_id) => {
                let cookie = session_cookie_value(user_id, config.signature_key.as_str());
                let cookies = vec![("set-cookie".to_owned(), cookie)];
                Ok(AuthSuccessRedirect { cookies, route: AuthRoute::SingIn })
            },
            Err(_) => Err(get_fail_redirect(&FailReason::Internal, config)),
        },
    }
}

} // verus!
