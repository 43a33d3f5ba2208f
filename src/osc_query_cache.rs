//! Memory of the peer's metadata, fetched over HTTP and kept for a while.

use vstd::prelude::*;
use crate::osc_server::OscServer;
use crate::utils::{json_as_str, json_parse, json_pointer, parse_json, pointer_value, value_text};

verus! {

/// How long a fetched parameter tree is served from memory, in milliseconds.
pub const TREE_TTL_MS: u64 = 5000;

/// Clearing is refused this soon after the last fetch, in milliseconds.
pub const CLEAR_DEBOUNCE_MS: u64 = 500;

/// What a lookup needs next.
#[derive(Clone, Debug)]
pub enum Lookup<T> {
    /// The answer, served from memory.
    Cached(T),
    /// No metadata endpoint is known: the answer is empty.
    NoEndpoint,
    /// The document at this URL must be fetched and handed back.
    Fetch(String),
}

/// Memory of the peer's metadata. Times are milliseconds on a clock that
/// never runs backwards.
pub struct OscQueryCache {
    pub last_fetched: Option<u64>,
    pub cached_data: Option<serde_json::Value>,
    pub avatar_id: Option<String>,
    pub avatar_name: Option<String>,
}

/// Milliseconds from `from` to `now`, none if `now` is earlier.
pub open spec fn since(from: u64, now: u64) -> int {
    if now >= from {
        now - from
    } else {
        0
    }
}

/// The cached tree may be served at `now`.
pub open spec fn tree_fresh(c: OscQueryCache, now: u64) -> bool {
    &&& c.cached_data is Some
    &&& c.last_fetched matches Some(t) && since(t, now) < TREE_TTL_MS
}

/// The cache after a fetch of the tree at `now` brought `body`: a JSON body
/// is kept and stamped, anything else changes nothing.
pub open spec fn after_tree_fetch(c: OscQueryCache, now: u64, body: Option<Seq<char>>) -> OscQueryCache {
    match body {
        Some(b) => match json_parse(b) {
            Some(doc) => OscQueryCache { last_fetched: Some(now), cached_data: Some(doc), ..c },
            None => c,
        },
        None => c,
    }
}

pub open spec fn view_text(t: Option<String>) -> Option<Seq<char>> {
    match t {
        Some(s) => Some(s@),
        None => None,
    }
}

impl OscQueryCache {
    pub fn new() -> (r: OscQueryCache)
        ensures
            r.last_fetched is None,
            r.cached_data is None,
            r.avatar_id is None,
            r.avatar_name is None,
    {
        OscQueryCache { last_fetched: None, cached_data: None, avatar_id: None, avatar_name: None }
    }

    /// Forgets the avatar (its identifier, name and tree) unless the last
    /// fetch was within `CLEAR_DEBOUNCE_MS`; a clear counts as a fetch for the
    /// next one. With no fetch yet, nothing changes.
    pub fn clear_avatar(&mut self, now: u64)
        ensures
            (old(self).last_fetched matches Some(t) && since(t, now) > CLEAR_DEBOUNCE_MS) ==> (
            final(self).avatar_id is None && final(self).avatar_name is None
                && final(self).cached_data is None && final(self).last_fetched == Some(now)),
            !(old(self).last_fetched matches Some(t) && since(t, now) > CLEAR_DEBOUNCE_MS)
                ==> *final(self) == *old(self),
    {
        if let Some(t) = self.last_fetched {
            if now >= t && now - t > CLEAR_DEBOUNCE_MS {
                self.avatar_id = None;
                self.avatar_name = None;
                self.cached_data = None;
                self.last_fetched = Some(now);
            }
        }
    }

    /// Reads the parameter tree: a fresh tree is served from memory;
    /// otherwise, with an endpoint known, `{base}/avatar/parameters` is to be
    /// fetched, its body then going to `store_avatar_parameters`. The cache,
    /// the avatar identifier included, is left as it is.
    pub fn get_avatar_parameters(&self, server: &OscServer, now: u64) -> (r: Lookup<
        serde_json::Value,
    >)
        ensures
            tree_fresh(*self, now) ==> r == Lookup::Cached(self.cached_data.unwrap()),
            (!tree_fresh(*self, now) && server.osc_query is None) ==> r is NoEndpoint,
            (!tree_fresh(*self, now) && server.osc_query is Some) ==> (r matches Lookup::Fetch(u)
                && u@ == crate::osc_server::base_url_text(
                server.osc_query.unwrap().host@,
                server.osc_query.unwrap().port,
            ) + "/avatar/parameters"@),
    {
        if let (Some(t), Some(data)) = (self.last_fetched, &self.cached_data) {
            if now < t || now - t < TREE_TTL_MS {
                return Lookup::Cached(data.clone());
            }
        }
        match server.get_osc_query() {
            None => Lookup::NoEndpoint,
            Some(base) => {
                let mut url = base;
                url.append("/avatar/parameters");
                Lookup::Fetch(url)
            },
        }
    }

    /// Takes what a fetch of the parameter tree brought (`None` if it
    /// failed). A JSON body is kept, stamped `now` and
    /// returned; anything else gives no tree.
    pub fn store_avatar_parameters(&mut self, now: u64, body: Option<String>) -> (r: Option<
        serde_json::Value,
    >)
        ensures
            *final(self) == after_tree_fetch(*old(self), now, view_text(body)),
            r == match view_text(body) {
                Some(b) => json_parse(b),
                None => None,
            },
    {
        match body {
            None => None,
            Some(b) => match parse_json(b.as_str()) {
                Some(doc) => {
                    self.last_fetched = Some(now);
                    self.cached_data = Some(doc.clone());
                    Some(doc)
                },
                None => None,
            },
        }
    }

    /// Reads the avatar identifier: a known one is served from memory;
    /// otherwise, with an endpoint known, `{base}/avatar/change` is to be
    /// fetched, its body then going to `store_avatar_id`.
    pub fn get_avatar_id(&self, server: &OscServer) -> (r: Lookup<String>)
        ensures
            self.avatar_id matches Some(id) ==> (r matches Lookup::Cached(x) && x@ == id@),
            (self.avatar_id is None && server.osc_query is None) ==> r is NoEndpoint,
            (self.avatar_id is None && server.osc_query is Some) ==> (r matches Lookup::Fetch(u)
                && u@ == crate::osc_server::base_url_text(
                server.osc_query.unwrap().host@,
                server.osc_query.unwrap().port,
            ) + "/avatar/change"@),
    {
        match &self.avatar_id {
            Some(id) => Lookup::Cached(id.clone()),
            None => match server.get_osc_query() {
                None => Lookup::NoEndpoint,
                Some(base) => {
                    let mut url = base;
                    url.append("/avatar/change");
                    Lookup::Fetch(url)
                },
            },
        }
    }

    /// Takes what a fetch of the avatar identifier brought. A JSON body
    /// gives the string at `/VALUE/0`, which is kept (or nothing, which is
    /// kept too); a body that is not JSON gives the empty identifier, and a
    /// failed fetch none; neither is kept.
    pub fn store_avatar_id(&mut self, body: Option<String>) -> (r: Option<String>)
        ensures
            final(self).last_fetched == old(self).last_fetched,
            final(self).cached_data == old(self).cached_data,
            final(self).avatar_name == old(self).avatar_name,
            body is None ==> r is None && *final(self) == *old(self),
            body matches Some(b) ==> match json_parse(b@) {
                Some(doc) => {
                    let id = match json_pointer(doc, "/VALUE/0"@) {
                        Some(v) => json_as_str(v),
                        None => None,
                    };
                    view_text(r) == id && view_text(final(self).avatar_id) == id
                },
                None => (r matches Some(e) && e@.len() == 0) && *final(self) == *old(self),
            },
    {
        match body {
            None => None,
            Some(b) => match parse_json(b.as_str()) {
                Some(doc) => {
                    let id = match pointer_value(&doc, "/VALUE/0") {
                        Some(v) => value_text(&v),
                        None => None,
                    };
                    self.avatar_id = id.clone();
                    id
                },
                None => Some(String::new()),
            },
        }
    }
}

/// A tree fetched at `t0` is served unchanged from memory, with no new fetch,
/// by every lookup less than `TREE_TTL_MS` later; from then on it is fetched
/// again.
pub proof fn lemma_tree_cached_within_ttl(c: OscQueryCache, t0: u64, body: Seq<char>, t1: u64)
    requires
        json_parse(body) is Some,
        t0 <= t1,
    ensures
        t1 - t0 < TREE_TTL_MS ==> tree_fresh(after_tree_fetch(c, t0, Some(body)), t1)
            && after_tree_fetch(c, t0, Some(body)).cached_data == json_parse(body),
        t1 - t0 >= TREE_TTL_MS ==> !tree_fresh(after_tree_fetch(c, t0, Some(body)), t1),
{
}

} // verus!
