//! The authorized-fetch protocol: check freshness, refresh and apply when
//! due, then fetch the live-stream status with the current access token.
//! The decisions are functions here; the surrounding server performs the
//! outside calls between them and hands their outcomes in.

use vstd::prelude::*;
use vstd::string::*;
use crate::config::Config;
use crate::reply::Reply;
use crate::store::{Store, TokenData, spec_should_refresh, spec_can_refresh};

verus! {

/// A stale record without a refresh token cannot proceed at all; operator
/// action is needed.
#[derive(Debug, PartialEq, Eq, Structural)]
pub enum FetchError {
    Unrefreshable,
}

/// What the freshness gate decided: fetch with the record as it stands, or
/// refresh first with the stored refresh token.
#[derive(Debug)]
pub enum FetchPlan {
    Direct,
    RefreshWith(String),
}

/// The freshness gate, decided at `now`: a fresh record is used as it is; a
/// stale one demands a refresh with the stored refresh token; a stale
/// record without one fails here, before any outside call is made.
pub fn plan_fetch(store: &Store, now: u64) -> (r: Result<FetchPlan, FetchError>)
    ensures
        !spec_should_refresh(*store, now) ==> (r matches Ok(p) && p is Direct),
        spec_should_refresh(*store, now) && !spec_can_refresh(*store) ==> r is Err,
        spec_should_refresh(*store, now) && spec_can_refresh(*store) ==> (r matches Ok(p) && (
        p matches FetchPlan::RefreshWith(t) && t == store.token_data.refresh_token)),
{
    if store.should_refresh_at(now) {
        if store.can_refresh() {
            Ok(FetchPlan::RefreshWith(store.refresh_token()))
        } else {
            Err(FetchError::Unrefreshable)
        }
    } else {
        Ok(FetchPlan::Direct)
    }
}

/// The token-exchange URL for the refresh-token grant.
pub open spec fn spec_refresh_url(
    client_id: Seq<char>,
    client_secret: Seq<char>,
    refresh_token: Seq<char>,
) -> Seq<char> {
    "https://id.twitch.tv/oauth2/token?client_id="@ + client_id + "&client_secret="@ + client_secret
        + "&grant_type=refresh_token&refresh_token="@ + refresh_token
}

/// Builds the exchange URL for the stored refresh token.
pub fn get_refresh_url(cfg: &Config, refresh_token: &String) -> (r: String)
    ensures
        r@ == spec_refresh_url(cfg.client_id@, cfg.client_secret@, refresh_token@),
{
    let mut u = String::from_str("https://id.twitch.tv/oauth2/token?client_id=");
    u.append(cfg.client_id.as_str());
    u.append("&client_secret=");
    u.append(cfg.client_secret.as_str());
    u.append("&grant_type=refresh_token&refresh_token=");
    u.append(refresh_token.as_str());
    proof {
        assert(u@ =~= spec_refresh_url(cfg.client_id@, cfg.client_secret@, refresh_token@));
    }
    u
}

/// A refresh response may omit the refresh token; the prior one is then
/// retained, never cleared, so a refreshable record stays refreshable.
pub fn merge_refreshed(prior_refresh: &String, fresh: TokenData) -> (r: TokenData)
    ensures
        r.access_token == fresh.access_token,
        r.expires_in == fresh.expires_in,
        fresh.refresh_token@.len() == 0 ==> r.refresh_token == *prior_refresh,
        fresh.refresh_token@.len() > 0 ==> r.refresh_token == fresh.refresh_token,
{
    if fresh.refresh_token.as_str().is_empty() {
        TokenData {
            access_token: fresh.access_token,
            refresh_token: prior_refresh.clone(),
            expires_in: fresh.expires_in,
        }
    } else {
        fresh
    }
}

/// Decode step of the refresh path: a response that did not decode fails
/// the request with a plain bad-request answer; a decoded record is merged
/// with the prior refresh token. `None` covers a transport failure as well
/// as a malformed body.
pub fn refresh_decode(decoded: Option<TokenData>, prior_refresh: &String) -> (r: Result<
    TokenData,
    Reply,
>)
    ensures
        decoded is None ==> (r matches Err(rep) && rep.status == 400 && rep.body@
            == Seq::<char>::empty()),
        decoded matches Some(td) ==> (r matches Ok(m) && {
            &&& m.access_token == td.access_token
            &&& m.expires_in == td.expires_in
            &&& td.refresh_token@.len() == 0 ==> m.refresh_token == *prior_refresh
            &&& td.refresh_token@.len() > 0 ==> m.refresh_token == td.refresh_token
        }),
{
    match decoded {
        Some(td) => Ok(merge_refreshed(prior_refresh, td)),
        None => Err(Reply { status: 400, body: String::new() }),
    }
}

/// A failed persistence on the refresh path answers with a plain server
/// error; the store keeps its prior record by `apply`'s contract.
pub fn refresh_persist_reply() -> (r: Reply)
    ensures
        r.status == 500,
        r.body@ == Seq::<char>::empty(),
{
    Reply { status: 500, body: String::new() }
}

/// The answer when the record is stale and cannot be refreshed: a plain
/// server error, sent before any outside call.
pub fn fetch_error_reply(e: &FetchError) -> (r: Reply)
    ensures
        r.status == 500,
        r.body@ == Seq::<char>::empty(),
{
    match e {
        FetchError::Unrefreshable => Reply { status: 500, body: String::new() },
    }
}

/// The downstream query URL for the allow-listed account's live streams.
pub open spec fn spec_stream_url(check_id: Seq<char>) -> Seq<char> {
    "https://api.twitch.tv/helix/streams?user_id="@ + check_id
}

/// Builds the downstream query URL.
pub fn get_stream_url(cfg: &Config) -> (r: String)
    ensures
        r@ == spec_stream_url(cfg.check_id@),
{
    let mut u = String::from_str("https://api.twitch.tv/helix/streams?user_id=");
    u.append(cfg.check_id.as_str());
    proof {
        assert(u@ =~= spec_stream_url(cfg.check_id@));
    }
    u
}

/// The outward answer of the fetch: the downstream payload when a stream
/// matched, else the fixed not-live payload — absence of a live stream is
/// a well-defined answer, not an error.
pub fn stream_reply(payload: Option<String>) -> (r: Reply)
    ensures
        payload matches Some(p) ==> r.status == 200 && r.body == p,
        payload is None ==> r.status == 200 && r.body@ == "{\"isLive\": false}"@,
{
    match payload {
        Some(p) => Reply { status: 200, body: p },
        None => Reply { status: 200, body: String::from_str("{\"isLive\": false}") },
    }
}

} // verus!
