//! The sign-out route: clears the session cookie and sends the browser
//! back to the client.

use vstd::prelude::*;

use crate::auth::AuthRoute;
use crate::auth::AuthSuccessRedirect;

verus! {

/// Answers a `GET /auth/signout` request: overwrites the session cookie
/// with an immediately expiring zero value, forbids caching, and redirects
/// to the client URL.
pub fn handler() -> (r: AuthSuccessRedirect)
    ensures
        r.route is SignOut,
        r.cookies@.len() == 2,
        r.cookies@[0].0@ == "set-cookie"@,
        r.cookies@[0].1@ == "id=0; HttpOnly=true; Max-Age=0; Path=/; SameSite=Strict; Secure=true;"@,
        r.cookies@[1].0@ == "Cache-control"@,
        r.cookies@[1].1@ == "no-store"@,
{
    let clear_cookie = (
        "set-cookie".to_owned(),
        "id=0; HttpOnly=true; Max-Age=0; Path=/; SameSite=Strict; Secure=true;".to_owned(),
    );
    let no_store = ("Cache-control".to_owned(), "no-store".to_owned());
    let cookies = vec![clear_cookie, no_store];
    AuthSuccessRedirect { cookies, route: AuthRoute::SignOut }
}

} // verus!
