//! The wire-facing record shapes of the downstream API, held as plain
//! values, and the allow-listed account identifier.

use vstd::prelude::*;
use vstd::string::*;

verus! {

/// An account profile as the downstream API reports it.
#[derive(Clone, Debug)]
pub struct User {
    pub id: String,
    pub login: String,
}

impl User {
    /// The profile's identifier (a copy).
    pub fn id(&self) -> (r: String)
        ensures
            r == self.id,
    {
        self.id.clone()
    }
}

/// A live stream as the downstream API reports it.
#[derive(Clone, Debug)]
pub struct Stream {
    pub id: String,
    pub user_id: String,
    pub user_login: String,
    pub user_name: String,
    pub title: String,
    pub game_name: String,
    pub viewer_count: u16,
}

/// The record a downstream listing answers with: the last of the decoded
/// list, the one popping the response's data picks; an empty list means no
/// match.
pub fn pick_last<T>(items: Vec<T>) -> (r: Option<T>)
    ensures
        items@.len() == 0 ==> r is None,
        items@.len() > 0 ==> (r matches Some(v) && v == items@.last()),
{
    let mut items = items;
    items.pop()
}

/// The allow-listed account identifier: the configured value when one was
/// given, else the fixed fallback.
pub fn get_check_twitch_id(env_value: Option<String>) -> (r: String)
    ensures
        match env_value {
            Some(v) => r == v,
            None => r@ == "41701337"@,
        },
{
    match env_value {
        Some(v) => v,
        None => String::from_str("41701337"),
    }
}

} // verus!
