//! The dispatch table: exact method-and-path matches for the three
//! handlers; everything else is not found.

use vstd::prelude::*;
use vstd::string::*;
use crate::reply::Reply;

verus! {

/// Where a request goes.
#[derive(Debug, PartialEq, Eq, Structural)]
pub enum Route {
    Login,
    Callback,
    Stream,
    NotFound,
}

/// Matches the request's method and path against the three handler routes.
pub fn route(method: &String, path: &String) -> (r: Route)
    ensures
        method@ == "GET"@ && path@ == "/login"@ ==> r == Route::Login,
        method@ == "GET"@ && path@ == "/login/callback"@ ==> r == Route::Callback,
        method@ == "GET"@ && path@ == "/codico"@ ==> r == Route::Stream,
        !(method@ == "GET"@ && (path@ == "/login"@ || path@ == "/login/callback"@ || path@
            == "/codico"@)) ==> r == Route::NotFound,
{
    proof {
        reveal_strlit("/login");
        reveal_strlit("/login/callback");
        reveal_strlit("/codico");
        assert("/login"@.len() == 6);
        assert("/login/callback"@.len() == 15);
        assert("/login"@ != "/login/callback"@);
    }
    let get = String::from_str("GET");
    if *method == get {
        if *path == String::from_str("/login") {
            return Route::Login;
        }
        if *path == String::from_str("/login/callback") {
            return Route::Callback;
        }
        if *path == String::from_str("/codico") {
            return Route::Stream;
        }
    }
    Route::NotFound
}

/// The answer to any request outside the dispatch table.
pub fn not_found_reply() -> (r: Reply)
    ensures
        r.status == 404,
        r.body@ == Seq::<char>::empty(),
{
    Reply { status: 404, body: String::new() }
}

} // verus!
