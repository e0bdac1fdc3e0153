//! The sign-in route: sends the browser to the provider's authorization
//! URL, or to the failure URL when the provider key is unknown.

use vstd::prelude::*;

use crate::auth::get_fail_redirect;
use crate::auth::spec_fail_redirect_location;
use crate::auth::FailReason;
use crate::auth::Redirect;
use crate::provider::spec_auth_url;
use crate::provider::spec_parse_provider;
use crate::provider::AuthConfig;
use crate::provider::ProviderData;
use crate::status::Status;
use crate::strutil::str_eq;

verus! {

/// Answers a `GET /auth/signin/{provider}` request: a temporary redirect to
/// the provider's authorization URL for a supported provider, and the
/// permanent `Unknown provider` failure redirect for any other key.
pub fn handler(provider_type: &str, config: &AuthConfig) -> (r: Redirect)
    ensures
        spec_parse_provider(provider_type@) is Some ==> r.status == Status::TemporaryRedirect
            && r.location@ == spec_auth_url(*config, spec_parse_provider(provider_type@)->Some_0),
        spec_parse_provider(provider_type@) is None ==> r.status == Status::PermanentRedirect
            && r.location@ == spec_fail_redirect_location(*config, FailReason::UnknownProvider),
{
    if !str_eq(provider_type, "discord") && !str_eq(provider_type, "google") {
        return get_fail_redirect(&FailReason::UnknownProvider, config);
    }

    let provider_urls = ProviderData::new(provider_type, config);
    Redirect { status: Status::TemporaryRedirect, location: provider_urls.auth_url }
}

} // verus!
