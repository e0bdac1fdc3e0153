//! Shared pieces of the interactive sign-in flow: the collapsed failure
//! reasons shown to the end user, the redirect values the flow answers
//! with, and the cookie-setting success response.

use vstd::prelude::*;
use vstd::string::StringExecFns;
use vstd::string::StringSliceAdditionalSpecFns;
use vstd::utf8::encode_utf8;

use crate::provider::AuthConfig;
use crate::status::Status;
use crate::urlenc::spec_url_encode_bytes;
use crate::urlenc::url_encode;

verus! {

/// Why an interactive sign-in failed.  Every internal distinction collapses
/// to one of these two user-visible reasons.
pub enum FailReason {
    Internal,
    UnknownProvider,
}

pub open spec fn spec_fail_value(r: FailReason) -> Seq<char> {
    match r {
        FailReason::Internal => "Internal server error"@,
        FailReason::UnknownProvider => "Unknown provider"@,
    }
}

impl FailReason {
    /// The human-readable message carried to the client.
    pub fn value(self: &Self) -> (r: &str)
        ensures
            r@ == spec_fail_value(*self),
    {
        match self {
            FailReason::Internal => "Internal server error",
            FailReason::UnknownProvider => "Unknown provider",
        }
    }
}

/// A redirect answer: the status it is sent with and its `Location` target.
#[derive(Debug)]
pub struct Redirect {
    pub status: Status,
    pub location: String,
}

/// Where a failed sign-in sends the browser: the configured failure URL
/// with the percent-encoded reason as its `error_msg` query parameter.
pub open spec fn spec_fail_redirect_location(config: AuthConfig, reason: FailReason) -> Seq<
    char,
> {
    config.client_signin_fail_url@ + "?error_msg="@ + spec_url_encode_bytes(
        encode_utf8(spec_fail_value(reason)),
    )
}

/// The permanent redirect a failed sign-in answers with.
pub fn get_fail_redirect(fail_reason: &FailReason, config: &AuthConfig) -> (r: Redirect)
    ensures
        r.status == Status::PermanentRedirect,
        r.location@ == spec_fail_redirect_location(*config, *fail_reason),
{
    let mut location = config.client_signin_fail_url.clone();
    location.append("?error_msg=");
    let encoded = url_encode(fail_reason.value());
    location.append(encoded.as_str());
    proof {
        assert(location@ =~= spec_fail_redirect_location(*config, *fail_reason));
    }
    Redirect { status: Status::PermanentRedirect, location }
}

/// Which leg of the flow a success response belongs to.
pub enum AuthRoute {
    SingIn,
    SignOut,
}

/// A successful auth answer: the headers to set (cookie headers among them)
/// and the leg whose configured URL the browser is then sent to.
pub struct AuthSuccessRedirect {
    pub cookies: Vec<(String, String)>,
    pub route: AuthRoute,
}

impl AuthSuccessRedirect {
    /// The configured URL this response redirects to: the sign-in success
    /// URL after a sign-in, the client's own URL after a sign-out.
    pub fn redirect_url(&self, config: &AuthConfig) -> (r: String)
        ensures
            self.route is SingIn ==> r@ == config.client_signin_success_url@,
            self.route is SignOut ==> r@ == config.client_url@,
    {
        match self.route {
            AuthRoute::SingIn => config.client_signin_success_url.clone(),
            AuthRoute::SignOut => config.client_url.clone(),
        }
    }
}

} // verus!
