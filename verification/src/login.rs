//! The login route: it answers with a redirect to the identity provider's
//! authorization endpoint, carrying this service's callback as redirect URI.

use vstd::prelude::*;
use vstd::string::*;
use crate::config::Config;

verus! {

/// The identity provider's authorization URL for this service: client id,
/// redirect URI, the code response type, and the fixed scope and claims.
pub open spec fn spec_login_url(client_id: Seq<char>, base_url: Seq<char>) -> Seq<char> {
    "https://id.twitch.tv/oauth2/authorize?client_id="@ + client_id + "&redirect_uri="@ + base_url
        + "/login/callback&response_type=code&scope=openid&claims={\"id_token\":{\"email_verified\":null}}"@
}

/// Builds the authorization URL the login route redirects to.
pub fn get_login_url(cfg: &Config) -> (r: String)
    ensures
        r@ == spec_login_url(cfg.client_id@, cfg.base_url@),
{
    let mut u = String::from_str("https://id.twitch.tv/oauth2/authorize?client_id=");
    u.append(cfg.client_id.as_str());
    u.append("&redirect_uri=");
    u.append(cfg.base_url.as_str());
    u.append(
        "/login/callback&response_type=code&scope=openid&claims={\"id_token\":{\"email_verified\":null}}",
    );
    proof {
        assert(u@ =~= spec_login_url(cfg.client_id@, cfg.base_url@));
    }
    u
}

} // verus!
