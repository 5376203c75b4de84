use stream_auth::callback::{
    callback_decode, callback_finish, callback_parse, callback_verify, get_bad_request,
    get_token_url,
};
use stream_auth::config::Config;
use stream_auth::get_stream::{
    fetch_error_reply, get_refresh_url, get_stream_url, merge_refreshed, plan_fetch,
    refresh_decode, refresh_persist_reply, stream_reply, FetchError, FetchPlan,
};
use stream_auth::login::get_login_url;
use stream_auth::query::{find_param, parse_query_params};
use stream_auth::router::{not_found_reply, route, Route};
use stream_auth::store::{PersistError, Store, TokenData};
use stream_auth::utils::{pick_last, User};

fn test_config() -> Config {
    Config {
        client_id: "cid".to_string(),
        client_secret: "sec".to_string(),
        base_url: "http://localhost:8000".to_string(),
        port: 8000,
        check_id: "41701337".to_string(),
    }
}

#[test]
fn routes_match_method_and_path() {
    assert_eq!(route(&"GET".to_string(), &"/login".to_string()), Route::Login);
    assert_eq!(
        route(&"GET".to_string(), &"/login/callback".to_string()),
        Route::Callback
    );
    assert_eq!(route(&"GET".to_string(), &"/codico".to_string()), Route::Stream);
    assert_eq!(route(&"POST".to_string(), &"/login".to_string()), Route::NotFound);
    assert_eq!(route(&"GET".to_string(), &"/other".to_string()), Route::NotFound);
    let nf = not_found_reply();
    assert_eq!(nf.status, 404);
    assert_eq!(nf.body, "");
}

#[test]
fn login_url_is_exact() {
    let url = get_login_url(&test_config());
    assert_eq!(
        url,
        "https://id.twitch.tv/oauth2/authorize?client_id=cid\
&redirect_uri=http://localhost:8000/login/callback\
&response_type=code&scope=openid\
&claims={\"id_token\":{\"email_verified\":null}}"
    );
}

#[test]
fn exchange_urls_are_exact() {
    let cfg = test_config();
    assert_eq!(
        get_token_url(&cfg, &"thecode".to_string()),
        "https://id.twitch.tv/oauth2/token?client_id=cid&client_secret=sec&grant_type=authorization_code&code=thecode&redirect_uri=http://localhost:8000/login/callback"
    );
    assert_eq!(
        get_refresh_url(&cfg, &"thetoken".to_string()),
        "https://id.twitch.tv/oauth2/token?client_id=cid&client_secret=sec&grant_type=refresh_token&refresh_token=thetoken"
    );
    assert_eq!(
        get_stream_url(&cfg),
        "https://api.twitch.tv/helix/streams?user_id=41701337"
    );
}

#[test]
fn query_pairs_are_decoded() {
    let base = "http://localhost:8000".to_string();
    let pairs = parse_query_params(&base, &"/login/callback?code=a%20b&x=y".to_string())
        .expect("a well-formed URL");
    assert_eq!(
        pairs,
        vec![
            ("code".to_string(), "a b".to_string()),
            ("x".to_string(), "y".to_string())
        ]
    );
    assert_eq!(
        find_param(&pairs, &"code".to_string()),
        Some("a b".to_string())
    );
    assert_eq!(find_param(&pairs, &"missing".to_string()), None);
}

#[test]
fn find_param_takes_the_last_duplicate() {
    let pairs = vec![
        ("code".to_string(), "first".to_string()),
        ("other".to_string(), "v".to_string()),
        ("code".to_string(), "second".to_string()),
    ];
    assert_eq!(
        find_param(&pairs, &"code".to_string()),
        Some("second".to_string())
    );
}

#[test]
fn callback_without_code_is_rejected() {
    let base = "http://localhost:8000".to_string();
    let rejected = callback_parse(&base, &"/login/callback".to_string());
    match rejected {
        Ok(_) => panic!("no code was present"),
        Err(reply) => {
            assert_eq!(reply.status, 400);
            assert_eq!(reply.body, "{\"success\": false}");
        }
    }
    let accepted = callback_parse(&base, &"/login/callback?code=abc".to_string());
    match accepted {
        Ok(code) => assert_eq!(code, "abc"),
        Err(_) => panic!("a code was present"),
    }
}

#[test]
fn callback_decode_rejects_undecoded_response() {
    let record = TokenData {
        access_token: "at".to_string(),
        refresh_token: "rt".to_string(),
        expires_in: 60,
    };
    match callback_decode(Some(record)) {
        Ok(td) => assert_eq!(td.access_token, "at"),
        Err(_) => panic!("the record was decoded"),
    }
    match callback_decode(None) {
        Ok(_) => panic!("nothing was decoded"),
        Err(reply) => {
            assert_eq!(reply.status, 400);
            assert_eq!(reply.body, "{\"success\": false}");
        }
    }
}

#[test]
fn mismatched_identity_is_rejected_and_store_untouched() {
    let mut store = Store::new();
    store.set_access_token("prior-at".to_string());
    store.set_refresh_token("prior-rt".to_string());
    let user = User {
        id: "someone-else".to_string(),
        login: "other".to_string(),
    };
    let verdict = callback_verify(&Some(user), &"41701337".to_string());
    match verdict {
        Ok(_) => panic!("the identity did not match"),
        Err(reply) => {
            assert_eq!(reply.status, 400);
            assert_eq!(reply.body, "{\"success\": false}");
        }
    }
    assert_eq!(store.access_token(), "prior-at");
    assert_eq!(store.refresh_token(), "prior-rt");

    let matching = User {
        id: "41701337".to_string(),
        login: "ok".to_string(),
    };
    assert!(callback_verify(&Some(matching), &"41701337".to_string()).is_ok());
    assert!(callback_verify(&None, &"41701337".to_string()).is_err());
}

#[test]
fn callback_finish_reports_persistence() {
    let ok = callback_finish(&Ok(()));
    assert_eq!(ok.status, 200);
    assert_eq!(ok.body, "{\"success\": true}");
    let failed = callback_finish(&Err(PersistError {}));
    assert_eq!(failed.status, 500);
    assert_eq!(failed.body, "{\"success\": false}");
    let bad = get_bad_request();
    assert_eq!(bad.status, 400);
    assert_eq!(bad.body, "{\"success\": false}");
}

#[test]
fn stale_unrefreshable_store_fails_before_any_call() {
    let mut store = Store::new();
    store.set_access_token("at".to_string());
    store.set_refreshed_at(900);
    store.set_expires_in(10);
    let plan = plan_fetch(&store, 1000);
    assert!(matches!(plan, Err(FetchError::Unrefreshable)));
    let reply = fetch_error_reply(&FetchError::Unrefreshable);
    assert_eq!(reply.status, 500);
    assert_eq!(reply.body, "");
}

#[test]
fn fresh_store_fetches_directly() {
    let mut store = Store::new();
    store.set_refreshed_at(990);
    store.set_expires_in(100);
    assert!(matches!(plan_fetch(&store, 1000), Ok(FetchPlan::Direct)));
}

#[test]
fn stale_refreshable_store_plans_a_refresh() {
    let mut store = Store::new();
    store.set_refresh_token("rt".to_string());
    let plan = plan_fetch(&store, 1000);
    match plan {
        Ok(FetchPlan::RefreshWith(token)) => assert_eq!(token, "rt"),
        _ => panic!("a refresh was due and possible"),
    }
}

#[test]
fn refresh_keeps_prior_token_when_response_omits_one() {
    let fresh = TokenData {
        access_token: "new-at".to_string(),
        refresh_token: String::new(),
        expires_in: 60,
    };
    let merged = merge_refreshed(&"prior-rt".to_string(), fresh);
    assert_eq!(merged.access_token, "new-at");
    assert_eq!(merged.refresh_token, "prior-rt");
    assert_eq!(merged.expires_in, 60);

    let replacing = TokenData {
        access_token: "new-at".to_string(),
        refresh_token: "new-rt".to_string(),
        expires_in: 60,
    };
    let merged2 = merge_refreshed(&"prior-rt".to_string(), replacing);
    assert_eq!(merged2.refresh_token, "new-rt");
}

#[test]
fn refresh_decode_failure_is_bad_request() {
    match refresh_decode(None, &"prior-rt".to_string()) {
        Ok(_) => panic!("nothing was decoded"),
        Err(reply) => {
            assert_eq!(reply.status, 400);
            assert_eq!(reply.body, "");
        }
    }
    let fresh = TokenData {
        access_token: "new-at".to_string(),
        refresh_token: String::new(),
        expires_in: 60,
    };
    match refresh_decode(Some(fresh), &"prior-rt".to_string()) {
        Ok(merged) => assert_eq!(merged.refresh_token, "prior-rt"),
        Err(_) => panic!("the record was decoded"),
    }
    let persist = refresh_persist_reply();
    assert_eq!(persist.status, 500);
    assert_eq!(persist.body, "");
}

#[test]
fn stream_reply_defaults_to_not_live() {
    let with_payload = stream_reply(Some("{\"data\":1}".to_string()));
    assert_eq!(with_payload.status, 200);
    assert_eq!(with_payload.body, "{\"data\":1}");
    let without = stream_reply(None);
    assert_eq!(without.status, 200);
    assert_eq!(without.body, "{\"isLive\": false}");
}

#[test]
fn pick_last_takes_the_listing_tail() {
    assert_eq!(pick_last::<String>(vec![]), None);
    let items = vec!["first".to_string(), "second".to_string()];
    assert_eq!(pick_last(items), Some("second".to_string()));
}

#[test]
fn user_id_is_a_copy() {
    let user = User {
        id: "41701337".to_string(),
        login: "name".to_string(),
    };
    assert_eq!(user.id(), "41701337");
}
