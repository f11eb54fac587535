//! The revocation list: a key-value store with a time to live per key, kept
//! outside this library. A revoked token is listed under the token itself.
//!
//! The library never talks to the store. It says what to ask of it
//! ([`RevocationRequest`], the key of a lookup) and decides on what came back
//! ([`StoreReply`]). [`StoreModel`] is the store as the contracts think of
//! it: consistent, and forgetting each entry when its time is up.

use vstd::prelude::*;

verus! {

/// The value stored under the key of a revoked token.
pub const REVOKED_MARKER: &'static str = "true";

/// How long, in seconds, an entry outlives the token it revokes.
pub const GRACE_SECONDS: i64 = 60;

/// The key under which `token` is listed: the token itself, as it was
/// presented. An entry is written and looked up under the same key.
pub open spec fn spec_blacklist_key(token: Seq<char>) -> Seq<char> {
    token
}

/// The key under which `token` is listed: the token itself.
pub fn blacklist_key(token: &str) -> (key: String)
    ensures
        key@ == spec_blacklist_key(token@),
        key@ == token@,
{
    token.to_owned()
}

/// What a lookup in the store came back with.
#[derive(Clone, Debug)]
pub enum StoreReply {
    /// The key is there, with this value.
    Found(String),
    /// The key is not there.
    Missing,
    /// The store could not be reached.
    Unavailable,
}

/// A [`StoreReply`] as a mathematical value.
pub enum StoreReplyView {
    Found(Seq<char>),
    Missing,
    Unavailable,
}

impl View for StoreReply {
    type V = StoreReplyView;

    open spec fn view(&self) -> StoreReplyView {
        match self {
            StoreReply::Found(value) => StoreReplyView::Found(value@),
            StoreReply::Missing => StoreReplyView::Missing,
            StoreReply::Unavailable => StoreReplyView::Unavailable,
        }
    }
}

/// Whether a reply means that the key is revoked. Only the marker under the
/// key does; a store that cannot be reached revokes nothing.
pub open spec fn spec_is_revoked(reply: StoreReplyView) -> bool {
    reply matches StoreReplyView::Found(value) && value == REVOKED_MARKER@
}

impl StoreReply {
    /// Whether this reply means that the key is revoked.
    pub fn is_revoked(&self) -> (revoked: bool)
        ensures
            revoked == spec_is_revoked(self@),
    {
        match self {
            StoreReply::Found(value) => {
                let marker = REVOKED_MARKER.to_owned();
                *value == marker
            },
            StoreReply::Missing => false,
            StoreReply::Unavailable => false,
        }
    }

    /// Whether the store failed to answer, which the caller should log.
    pub fn is_unavailable(&self) -> (unavailable: bool)
        ensures
            unavailable == (self@ is Unavailable),
    {
        match self {
            StoreReply::Unavailable => true,
            _ => false,
        }
    }
}

/// An entry to write to the store: the marker under `key`, to be forgotten
/// after `ttl_seconds`.
#[derive(Clone, Debug)]
pub struct RevocationRequest {
    pub key: String,
    pub ttl_seconds: u64,
}

/// A [`RevocationRequest`] as a mathematical value.
pub struct RevocationRequestView {
    pub key: Seq<char>,
    pub ttl_seconds: int,
}

impl View for RevocationRequest {
    type V = RevocationRequestView;

    open spec fn view(&self) -> RevocationRequestView {
        RevocationRequestView { key: self.key@, ttl_seconds: self.ttl_seconds as int }
    }
}

/// What revoking `token` for `ttl_seconds` writes: nothing when the time to
/// live is not positive, else the marker under the token itself.
pub open spec fn spec_revoke(token: Seq<char>, ttl_seconds: int) -> Option<RevocationRequestView> {
    if ttl_seconds <= 0 {
        None
    } else {
        Some(RevocationRequestView { key: spec_blacklist_key(token), ttl_seconds })
    }
}

/// The entry that revokes `token` for `ttl_seconds`, or nothing when the time
/// to live is not positive: such a token is past saving already.
pub fn revoke(token: &str, ttl_seconds: i128) -> (request: Option<RevocationRequest>)
    requires
        ttl_seconds <= u64::MAX,
    ensures
        request is Some <==> spec_revoke(token@, ttl_seconds as int) is Some,
        request matches Some(entry) ==> spec_revoke(token@, ttl_seconds as int) == Some(entry@),
{
    if ttl_seconds <= 0 {
        None
    } else {
        Some(RevocationRequest { key: blacklist_key(token), ttl_seconds: ttl_seconds as u64 })
    }
}

/// One entry of the store.
pub struct StoreEntry {
    pub value: Seq<char>,
    /// The second from which on the entry is gone.
    pub expires_at: int,
}

/// The store as the contracts think of it.
pub struct StoreModel {
    pub entries: Map<Seq<char>, StoreEntry>,
}

impl StoreModel {
    /// A store without entries.
    pub open spec fn empty() -> StoreModel {
        StoreModel { entries: Map::empty() }
    }

    /// What a lookup of `key` at second `now` comes back with.
    pub open spec fn lookup(self, key: Seq<char>, now: int) -> StoreReplyView {
        if self.entries.contains_key(key) && now < self.entries[key].expires_at {
            StoreReplyView::Found(self.entries[key].value)
        } else {
            StoreReplyView::Missing
        }
    }

    /// The store after `request` was carried out at second `now`.
    pub open spec fn apply(self, request: Option<RevocationRequestView>, now: int) -> StoreModel {
        match request {
            None => self,
            Some(entry) => StoreModel {
                entries: self.entries.insert(
                    entry.key,
                    StoreEntry { value: REVOKED_MARKER@, expires_at: now + entry.ttl_seconds },
                ),
            },
        }
    }
}

/// A token that was revoked with a positive time to live reads as revoked in
/// a lookup made in the same second, whatever the store held before.
pub proof fn law_revoked_entry_is_seen(
    store: StoreModel,
    token: Seq<char>,
    ttl_seconds: int,
    now: int,
)
    requires
        ttl_seconds > 0,
    ensures
        spec_is_revoked(
            store.apply(spec_revoke(token, ttl_seconds), now).lookup(spec_blacklist_key(token), now),
        ),
{
}

/// Revoking with a time to live that is not positive leaves the store as it
/// was.
pub proof fn law_expired_revocation_stores_nothing(
    store: StoreModel,
    token: Seq<char>,
    ttl_seconds: int,
    now: int,
)
    requires
        ttl_seconds <= 0,
    ensures
        store.apply(spec_revoke(token, ttl_seconds), now) == store,
{
}

} // verus!
