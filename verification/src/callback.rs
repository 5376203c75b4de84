//! The callback protocol: parse the authorization code, exchange it,
//! verify the identity behind the fresh token, apply the record, respond.
//! Each step's decision is a function here; the surrounding server performs
//! the outside calls between the steps and hands their outcomes in.

use vstd::prelude::*;
use vstd::string::*;
use crate::config::Config;
use crate::query::{lookup_param, parse_query_params, find_param, query_pairs_of};
use crate::reply::{Reply, spec_success_body, spec_failed_body};
use crate::store::{TokenData, PersistError};
use crate::utils::User;

verus! {

/// The rejection every failed callback step answers with.
pub fn get_bad_request() -> (r: Reply)
    ensures
        r.status == 400,
        r.body@ == spec_failed_body(),
{
    Reply { status: 400, body: String::from_str("{\"success\": false}") }
}

/// The token-exchange URL for the authorization-code grant.
pub open spec fn spec_token_url(
    client_id: Seq<char>,
    client_secret: Seq<char>,
    code: Seq<char>,
    base_url: Seq<char>,
) -> Seq<char> {
    "https://id.twitch.tv/oauth2/token?client_id="@ + client_id + "&client_secret="@ + client_secret
        + "&grant_type=authorization_code&code="@ + code + "&redirect_uri="@ + base_url
        + "/login/callback"@
}

/// Builds the exchange URL for the received authorization code.
pub fn get_token_url(cfg: &Config, code: &String) -> (r: String)
    ensures
        r@ == spec_token_url(cfg.client_id@, cfg.client_secret@, code@, cfg.base_url@),
{
    let mut u = String::from_str("https://id.twitch.tv/oauth2/token?client_id=");
    u.append(cfg.client_id.as_str());
    u.append("&client_secret=");
    u.append(cfg.client_secret.as_str());
    u.append("&grant_type=authorization_code&code=");
    u.append(code.as_str());
    u.append("&redirect_uri=");
    u.append(cfg.base_url.as_str());
    u.append("/login/callback");
    proof {
        assert(u@ =~= spec_token_url(cfg.client_id@, cfg.client_secret@, code@, cfg.base_url@));
    }
    u
}

/// First step: the request's query must carry a `code` parameter. A request
/// whose URL cannot be read, or that carries no code, is rejected with
/// `400 {"success": false}`.
pub fn callback_parse(base_url: &String, path_and_query: &String) -> (r: Result<String, Reply>)
    ensures
        match query_pairs_of(base_url@ + path_and_query@) {
            Some(pairs) => match lookup_param(pairs, "code"@) {
                Some(c) => r matches Ok(v) && v@ == c,
                None => r matches Err(rep) && rep.status == 400 && rep.body@ == spec_failed_body(),
            },
            None => r matches Err(rep) && rep.status == 400 && rep.body@ == spec_failed_body(),
        },
{
    match parse_query_params(base_url, path_and_query) {
        Some(pairs) => {
            let key = String::from_str("code");
            match find_param(&pairs, &key) {
                Some(code) => Ok(code),
                None => Err(get_bad_request()),
            }
        },
        None => Err(get_bad_request()),
    }
}

/// Second step: the provider's response to the exchange either decoded
/// into a full record, or the callback fails with `400 {"success": false}`.
/// The caller performs the exchange and hands the decoded outcome in;
/// `None` covers a transport failure as well as a malformed body.
pub fn callback_decode(decoded: Option<TokenData>) -> (r: Result<TokenData, Reply>)
    ensures
        decoded matches Some(td) ==> (r matches Ok(v) && v == td),
        decoded is None ==> (r matches Err(rep) && rep.status == 400 && rep.body@
            == spec_failed_body()),
{
    match decoded {
        Some(td) => Ok(td),
        None => Err(get_bad_request()),
    }
}

/// Third step, the identity gate: the profile fetched with the fresh access
/// token must be present and carry exactly the allow-listed identifier;
/// otherwise the callback is rejected with `400 {"success": false}` and the
/// record is never applied.
pub fn callback_verify(user: &Option<User>, expected_id: &String) -> (r: Result<(), Reply>)
    ensures
        (user matches Some(u) && u.id@ == expected_id@) ==> r is Ok,
        (user matches Some(u) && u.id@ != expected_id@) ==> (r matches Err(rep) && rep.status
            == 400 && rep.body@ == spec_failed_body()),
        user is None ==> (r matches Err(rep) && rep.status == 400 && rep.body@
            == spec_failed_body()),
{
    match user {
        Some(u) => {
            if u.id == *expected_id {
                Ok(())
            } else {
                Err(get_bad_request())
            }
        },
        None => Err(get_bad_request()),
    }
}

/// Last step: a successful apply answers `200 {"success": true}`; a failed
/// persistence answers with a server error, the store left as it was by
/// `apply`'s own contract.
pub fn callback_finish(applied: &Result<(), PersistError>) -> (r: Reply)
    ensures
        applied is Ok ==> r.status == 200 && r.body@ == spec_success_body(),
        applied is Err ==> r.status == 500 && r.body@ == spec_failed_body(),
{
    match applied {
        Ok(_) => Reply { status: 200, body: String::from_str("{\"success\": true}") },
        Err(_) => Reply { status: 500, body: String::from_str("{\"success\": false}") },
    }
}

} // verus!
