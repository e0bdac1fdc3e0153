//! The response value types of the API routes, the authenticated-identity
//! value that the session guard produces, and the shared length validator.

use vstd::prelude::*;
use vstd::string::StringExecFns;
use vstd::utf8::encode_utf8;

use crate::digits::format_u64;
use crate::digits::spec_decimal;
use crate::session::spec_verify;
use crate::session::verify_credential;
use crate::status::spec_reason;
use crate::status::Status;

verus! {

/// The body of every successful API answer: `success` is always true.
pub struct SuccessResponse<T> {
    pub success: bool,
    pub data: T,
}

impl<T> SuccessResponse<T> {
    pub fn new(data: T) -> (r: SuccessResponse<T>)
        ensures
            r.success == true,
            r.data == data,
    {
        SuccessResponse { success: true, data }
    }
}

/// The body of every failed API answer: `success` is always false.
#[derive(Debug)]
pub struct ErrorResponseBody {
    pub success: bool,
    pub error: String,
}

impl ErrorResponseBody {
    pub fn new(error_message: &str) -> (r: ErrorResponseBody)
        ensures
            r.success == false,
            r.error@ == error_message@,
    {
        ErrorResponseBody { success: false, error: error_message.to_owned() }
    }
}

/// A failed answer: its body and the status it is sent with.  When no
/// message is supplied, the status's canonical reason phrase is the message.
#[derive(Debug)]
pub struct ErrorResponse {
    pub body: ErrorResponseBody,
    pub status: Status,
}

impl ErrorResponse {
    pub fn new(err_message: Option<String>, status: Status) -> (r: ErrorResponse)
        ensures
            r.status == status,
            r.body.success == false,
            r.body.error@ == match err_message {
                Some(em) => em@,
                None => spec_reason(status),
            },
    {
        match err_message {
            Some(em) => ErrorResponse {
                body: ErrorResponseBody { success: false, error: em },
                status,
            },
            None => ErrorResponse {
                body: ErrorResponseBody::new(status.reason()),
                status,
            },
        }
    }
}

/// The request identity that the session guard hands to every protected
/// route after the session cookie verified.
pub struct AuthenticatedUser {
    pub user_id: i32,
}

/// The guard in front of every protected route: a request without the
/// session cookie, or whose cookie does not verify, is turned away with a
/// 401 and the body `Not authenticated`; otherwise the verified user id is
/// the request's identity.
pub fn authenticate(cookie_value: Option<&str>, signature_key: &str) -> (r: Result<
    AuthenticatedUser,
    ErrorResponse,
>)
    ensures
        r is Ok <==> (cookie_value is Some && spec_verify(cookie_value->Some_0@, signature_key@)
            is Some),
        r is Ok ==> Some(r->Ok_0.user_id as int) == spec_verify(
            cookie_value->Some_0@,
            signature_key@,
        ),
        r is Err ==> r->Err_0.status == Status::Unauthorized && r->Err_0.body.error@
            == "Not authenticated"@,
{
    match cookie_value {
        None => Err(
            ErrorResponse::new(Some("Not authenticated".to_owned()), Status::Unauthorized),
        ),
        Some(value) => match verify_credential(value, signature_key) {
            Some(user_id) => Ok(AuthenticatedUser { user_id }),
            None => Err(
                ErrorResponse::new(Some("Not authenticated".to_owned()), Status::Unauthorized),
            ),
        },
    }
}

/// The message of a length-validation failure.
pub open spec fn spec_len_error_message(property: Seq<char>, min_len: int, max_len: int) -> Seq<
    char,
> {
    property + " length must be between "@ + spec_decimal(min_len) + " and "@ + spec_decimal(
        max_len,
    ) + " characters"@
}

/// Accepts an input whose byte length lies between the two bounds, and
/// otherwise answers a 400 naming the property and the bounds.
pub fn validate_len(input: &String, min_len: usize, max_len: usize, property: &str) -> (r: Option<
    ErrorResponse,
>)
    ensures
        r is None <==> min_len <= encode_utf8(input@).len() <= max_len,
        r is Some ==> r->Some_0.status == Status::BadRequest && r->Some_0.body.error@
            == spec_len_error_message(property@, min_len as int, max_len as int),
{
    let n = input.as_str().as_bytes().len();
    if n < min_len || n > max_len {
        let mut message = property.to_owned();
        message.append(" length must be between ");
        let min_str = format_u64(min_len as u64);
        message.append(min_str.as_str());
        message.append(" and ");
        let max_str = format_u64(max_len as u64);
        message.append(max_str.as_str());
        message.append(" characters");
        proof {
            assert(message@ =~= spec_len_error_message(
                property@,
                min_len as int,
                max_len as int,
            ));
        }
        return Some(ErrorResponse::new(Some(message), Status::BadRequest));
    }
    None
}

} // verus!
