//! The credential store: one record of OAuth tokens, its freshness stamp,
//! and the rule that decides when a refresh is due.
//!
//! The store holds the single credential record of the process. Its durable
//! fields (`TokenData`) mirror the persistence file; the freshness stamp
//! (`refreshed_at`) lives only in memory, so a cold start always looks stale
//! and forces a refresh check before the first authorized call.

use vstd::prelude::*;

verus! {

/// The durable fields of the credential record: exactly what the
/// persistence file holds. The freshness stamp is never part of it.
#[derive(Clone, Debug)]
pub struct TokenData {
    /// Bearer credential for downstream calls; empty means absent.
    pub access_token: String,
    /// Credential used to obtain a new access token; empty means the
    /// record can never be refreshed.
    pub refresh_token: String,
    /// Validity duration in seconds, as declared by the provider.
    pub expires_in: u64,
}

/// Failure to write the durable fields; a failed write must leave the
/// in-memory record untouched.
#[derive(Debug, PartialEq, Eq, Structural)]
pub struct PersistError {}

/// The one credential record of the process plus its freshness stamp.
/// `refreshed_at == 0` is the sentinel for "never set".
#[derive(Clone, Debug)]
pub struct Store {
    pub token_data: TokenData,
    pub refreshed_at: u64,
}

/// A record is stale when it was never stamped, or when the clock has
/// reached the end of the freshness window `[refreshed_at, refreshed_at + expires_in)`.
pub open spec fn spec_should_refresh(s: Store, now: u64) -> bool {
    s.refreshed_at == 0 || now >= s.refreshed_at + s.token_data.expires_in
}

/// A record can be refreshed exactly when it holds a refresh token.
pub open spec fn spec_can_refresh(s: Store) -> bool {
    s.token_data.refresh_token@.len() > 0
}

impl Store {
    /// The empty store: no tokens, zero lifetime, never stamped.
    pub fn new() -> (r: Store)
        ensures
            r.token_data.access_token@ == Seq::<char>::empty(),
            r.token_data.refresh_token@ == Seq::<char>::empty(),
            r.token_data.expires_in == 0,
            r.refreshed_at == 0,
    {
        Store {
            token_data: TokenData {
                access_token: String::new(),
                refresh_token: String::new(),
                expires_in: 0,
            },
            refreshed_at: 0,
        }
    }

    /// Builds the store from what was loaded off the persistence file:
    /// the loaded record when there was one, the empty record when the
    /// file was missing or corrupt. Either way the stamp starts at 0,
    /// so the first authorized call sees a stale record.
    pub fn from_loaded(loaded: Option<TokenData>) -> (r: Store)
        ensures
            r.refreshed_at == 0,
            match loaded {
                Some(td) => r.token_data == td,
                None => {
                    &&& r.token_data.access_token@ == Seq::<char>::empty()
                    &&& r.token_data.refresh_token@ == Seq::<char>::empty()
                    &&& r.token_data.expires_in == 0
                },
            },
    {
        match loaded {
            Some(td) => Store { token_data: td, refreshed_at: 0 },
            None => Store::new(),
        }
    }

    /// The current access token (a copy; may be empty).
    pub fn access_token(&self) -> (r: String)
        ensures
            r == self.token_data.access_token,
    {
        self.token_data.access_token.clone()
    }

    pub fn set_access_token(&mut self, access_token: String) -> (r: &Store)
        ensures
            final(self).token_data.access_token == access_token,
            final(self).token_data.refresh_token == old(self).token_data.refresh_token,
            final(self).token_data.expires_in == old(self).token_data.expires_in,
            final(self).refreshed_at == old(self).refreshed_at,
            *r == *final(self),
    {
        self.token_data.access_token = access_token;
        self
    }

    /// The current refresh token (a copy; may be empty).
    pub fn refresh_token(&self) -> (r: String)
        ensures
            r == self.token_data.refresh_token,
    {
        self.token_data.refresh_token.clone()
    }

    pub fn set_refresh_token(&mut self, refresh_token: String) -> (r: &Store)
        ensures
            final(self).token_data.refresh_token == refresh_token,
            final(self).token_data.access_token == old(self).token_data.access_token,
            final(self).token_data.expires_in == old(self).token_data.expires_in,
            final(self).refreshed_at == old(self).refreshed_at,
            *r == *final(self),
    {
        self.token_data.refresh_token = refresh_token;
        self
    }

    pub fn set_expires_in(&mut self, expires_in: u64) -> (r: &Store)
        ensures
            final(self).token_data.expires_in == expires_in,
            final(self).token_data.access_token == old(self).token_data.access_token,
            final(self).token_data.refresh_token == old(self).token_data.refresh_token,
            final(self).refreshed_at == old(self).refreshed_at,
            *r == *final(self),
    {
        self.token_data.expires_in = expires_in;
        self
    }

    pub fn set_refreshed_at(&mut self, refreshed_at: u64) -> (r: &Store)
        ensures
            final(self).refreshed_at == refreshed_at,
            final(self).token_data == old(self).token_data,
            *r == *final(self),
    {
        self.refreshed_at = refreshed_at;
        self
    }

    /// Whether the record is stale at the given time.
    pub fn should_refresh_at(&self, now: u64) -> (r: bool)
        ensures
            r == spec_should_refresh(*self, now),
    {
        if self.refreshed_at == 0 {
            true
        } else if now < self.refreshed_at {
            false
        } else {
            now - self.refreshed_at >= self.token_data.expires_in
        }
    }

    /// Whether the record is stale right now. Reads the wall clock, so the
    /// two cases the clock does not decide are pinned here: a never-stamped
    /// record is stale on every reading, and a stamped record whose window
    /// ends past the clock type's range is fresh on every reading. The full
    /// rule is `should_refresh_at`, which this calls on the clock's reading.
    pub fn should_refresh(&self) -> (r: bool)
        ensures
            self.refreshed_at == 0 ==> r,
            self.refreshed_at > 0 && self.refreshed_at + self.token_data.expires_in > u64::MAX
                ==> !r,
    {
        let now = get_time();
        self.should_refresh_at(now)
    }

    /// Whether a refresh is possible at all.
    pub fn can_refresh(&self) -> (r: bool)
        ensures
            r == spec_can_refresh(*self),
    {
        !self.token_data.refresh_token.as_str().is_empty()
    }

    /// Replaces the record with `record` and stamps it `now`, but only when
    /// the durable write already succeeded (`persist_ok`); on a failed write
    /// the store is left exactly as it was and the error is surfaced. The
    /// caller performs the write of `record`'s fields first and reports its
    /// outcome here, so the store never holds a token that was not durably
    /// recorded.
    pub fn apply(&mut self, record: TokenData, now: u64, persist_ok: bool) -> (r: Result<
        (),
        PersistError,
    >)
        ensures
            persist_ok ==> {
                &&& r is Ok
                &&& final(self).token_data == record
                &&& final(self).refreshed_at == now
            },
            !persist_ok ==> {
                &&& r is Err
                &&& *final(self) == *old(self)
            },
    {
        if persist_ok {
            self.token_data = record;
            self.refreshed_at = now;
            Ok(())
        } else {
            Err(PersistError {})
        }
    }
}

/// A store that was never stamped is stale at every time, whatever its
/// lifetime says.
pub proof fn lemma_unset_store_is_stale(s: Store, now: u64)
    requires
        s.refreshed_at == 0,
    ensures
        spec_should_refresh(s, now),
{
}

/// For a stamped store the staleness rule is exactly the freshness window:
/// fresh strictly before `refreshed_at + expires_in`, stale from that
/// moment on.
pub proof fn lemma_freshness_window(s: Store, now: u64)
    requires
        s.refreshed_at > 0,
    ensures
        now < s.refreshed_at + s.token_data.expires_in ==> !spec_should_refresh(s, now),
        now >= s.refreshed_at + s.token_data.expires_in ==> spec_should_refresh(s, now),
{
}

/// A record applied at a positive time with a positive lifetime leaves the
/// store holding exactly the applied record's tokens — what the getters
/// return by their contracts — and fresh at that same time. (At time 0 the
/// stamp would recreate the never-set sentinel, so a positive reading is
/// asked.)
pub proof fn lemma_apply_makes_fresh(record: TokenData, now: u64)
    requires
        now > 0,
        record.expires_in > 0,
    ensures
        ({
            let s = Store { token_data: record, refreshed_at: now };
            &&& s.token_data.access_token == record.access_token
            &&& s.token_data.refresh_token == record.refresh_token
            &&& !spec_should_refresh(s, now)
        }),
{
}

/// Relies on std::time::SystemTime::now, read as whole seconds since the
/// Unix epoch (0 if the clock stands before the epoch). Nothing is promised
/// of the value: callers must hold for every reading the clock could give.
#[verifier::external_body]
pub fn get_time() -> u64 {
    match std::time::SystemTime::now().duration_since(std::time::UNIX_EPOCH) {
        Ok(d) => d.as_secs(),
        Err(_) => 0,
    }
}

} // verus!
