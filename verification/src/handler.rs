//! The request handlers: Generate and Resolve.
//!
//! Each handler returns a small tagged outcome; translating an outcome to a
//! transport-specific response (JSON body, HTTP status, redirect) is the
//! caller's business, guided by the `status_text` and `status_code` methods.

use vstd::prelude::*;

use crate::ident::fresh_identifier;
use crate::store::Store;
use crate::validator::is_valid_url;
use crate::validator::validate;

verus! {

/// Caller-visible result of one Generate request.
pub enum GenerateOutcome {
    /// The URL was valid and a new link record was stored under `id`.
    Persisted { id: String },
    /// The submitted string is not a syntactically valid URL.
    Rejected,
    /// The store could not complete the write.
    Failed,
}

/// Caller-visible result of one Resolve request.
pub enum ResolveOutcome {
    /// The identifier is bound; the caller should redirect to `url`.
    Found { url: String },
    /// The identifier is not bound to any record.
    NotFound,
    /// The store could not complete the read.
    Failed,
}

/// Generate handler: validates `link`, draws a fresh identifier, and stores
/// the record through the gateway.
///
/// A malformed URL is rejected with the store untouched; on success the
/// returned identifier is non-empty, was not bound before, and is now bound
/// to exactly the submitted URL; any storage failure (conflict included)
/// leaves the store unchanged and is reported as `Failed`.
pub fn generate(store: &mut Store, link: &str) -> (r: GenerateOutcome)
    ensures
        r is Rejected <==> !is_valid_url(link@),
        r is Rejected ==> final(store)@ == old(store)@,
        r is Failed ==> final(store)@ == old(store)@,
        r matches GenerateOutcome::Persisted { id } ==> (id@.len() == 36 && !old(
            store,
        )@.contains_key(id@) && final(store)@ == old(store)@.insert(id@, link@)),
{
    match validate(link) {
        Err(_) => GenerateOutcome::Rejected,
        Ok(valid) => {
            let id = fresh_identifier();
            match store.insert(id.as_str(), valid.as_str()) {
                Ok(_) => GenerateOutcome::Persisted { id },
                Err(_) => GenerateOutcome::Failed,
            }
        },
    }
}

/// Resolve handler: looks the identifier up through the gateway.
///
/// A found URL is exactly the one stored under the identifier; not-found is
/// reported only for an identifier that is bound to no record; a storage
/// failure is reported as `Failed`.
pub fn redirect(store: &Store, id: &str) -> (r: ResolveOutcome)
    ensures
        r matches ResolveOutcome::Found { url } ==> store@.contains_key(id@) && url@ == store@[id@],
        r is NotFound ==> !store@.contains_key(id@),
{
    match store.lookup(id) {
        Ok(Some(url)) => ResolveOutcome::Found { url },
        Ok(None) => ResolveOutcome::NotFound,
        Err(_) => ResolveOutcome::Failed,
    }
}

impl GenerateOutcome {
    /// The status text of the JSON body for this outcome.
    pub fn status_text(&self) -> (s: &'static str)
        ensures
            self is Persisted ==> s@ == "ok"@,
            self is Rejected ==> s@ == "invalid url"@,
            self is Failed ==> s@ == "internal server error"@,
    {
        match self {
            GenerateOutcome::Persisted { .. } => "ok",
            GenerateOutcome::Rejected => "invalid url",
            GenerateOutcome::Failed => "internal server error",
        }
    }

    /// The HTTP status code for this outcome.
    pub fn status_code(&self) -> (c: u16)
        ensures
            self is Persisted ==> c == 200,
            self is Rejected ==> c == 400,
            self is Failed ==> c == 500,
    {
        match self {
            GenerateOutcome::Persisted { .. } => 200,
            GenerateOutcome::Rejected => 400,
            GenerateOutcome::Failed => 500,
        }
    }
}

impl ResolveOutcome {
    /// The status text of the JSON body for this outcome.  A found record is
    /// answered with a redirect, not a JSON body, so its text is plain "ok".
    pub fn status_text(&self) -> (s: &'static str)
        ensures
            self is Found ==> s@ == "ok"@,
            self is NotFound ==> s@ == "not found"@,
            self is Failed ==> s@ == "internal server error"@,
    {
        match self {
            ResolveOutcome::Found { .. } => "ok",
            ResolveOutcome::NotFound => "not found",
            ResolveOutcome::Failed => "internal server error",
        }
    }

    /// The HTTP status code for this outcome: a see-other redirect when the
    /// record was found.
    pub fn status_code(&self) -> (c: u16)
        ensures
            self is Found ==> c == 303,
            self is NotFound ==> c == 404,
            self is Failed ==> c == 500,
    {
        match self {
            ResolveOutcome::Found { .. } => 303,
            ResolveOutcome::NotFound => 404,
            ResolveOutcome::Failed => 500,
        }
    }
}

/// Round trip: a record just persisted by Generate is found by Resolve.
///
/// Generate run against store contents `m` that answers `Persisted { id }`
/// leaves contents `m.insert(id, url)` for the submitted `url`; in those
/// contents the identifier is bound, and bound to exactly `url`, which is
/// the only URL the Resolve contract can then return for it.
pub proof fn lemma_generate_then_resolve(m: Map<Seq<char>, Seq<char>>, id: Seq<char>, url: Seq<
    char,
>)
    ensures
        m.insert(id, url).contains_key(id),
        m.insert(id, url)[id] == url,
{
}

/// An identifier never issued by Generate is not found: Generate binds only
/// the identifiers it answers with, so an identifier outside the store
/// contents cannot satisfy the Found contract of Resolve.
pub proof fn lemma_unknown_identifier(m: Map<Seq<char>, Seq<char>>, id: Seq<char>, r: ResolveOutcome)
    requires
        !m.contains_key(id),
        r matches ResolveOutcome::Found { url } ==> m.contains_key(id) && url@ == m[id],
    ensures
        !(r is Found),
{
}

/// Two Generate calls that both persist draw distinct identifiers, and each
/// identifier afterwards resolves to its own URL: the second insert succeeds
/// only on an identifier the first one did not bind.
pub proof fn lemma_distinct_generates(
    m: Map<Seq<char>, Seq<char>>,
    id1: Seq<char>,
    url1: Seq<char>,
    id2: Seq<char>,
    url2: Seq<char>,
)
    requires
        !m.contains_key(id1),
        !m.insert(id1, url1).contains_key(id2),
    ensures
        id1 != id2,
        m.insert(id1, url1).insert(id2, url2)[id1] == url1,
        m.insert(id1, url1).insert(id2, url2)[id2] == url2,
{
}

/// Resolve is idempotent over given store contents: any two URLs the Found
/// contract admits for the same identifier against the same contents are
/// equal.
pub proof fn lemma_resolve_idempotent(
    m: Map<Seq<char>, Seq<char>>,
    id: Seq<char>,
    r1: ResolveOutcome,
    r2: ResolveOutcome,
)
    requires
        r1 matches ResolveOutcome::Found { url } ==> m.contains_key(id) && url@ == m[id],
        r2 matches ResolveOutcome::Found { url } ==> m.contains_key(id) && url@ == m[id],
    ensures
        r1 matches ResolveOutcome::Found { url: u1 } ==> (r2 matches ResolveOutcome::Found {
            url: u2,
        } ==> u1@ == u2@),
{
}

/// Link records are immutable: a Generate that persists a fresh identifier
/// leaves every existing record unchanged, so Resolve returns the same URL
/// for an identifier before and after any number of later Generates.
pub proof fn lemma_resolve_stable(
    m: Map<Seq<char>, Seq<char>>,
    id: Seq<char>,
    id2: Seq<char>,
    url2: Seq<char>,
)
    requires
        m.contains_key(id),
        !m.contains_key(id2),
    ensures
        m.insert(id2, url2).contains_key(id),
        m.insert(id2, url2)[id] == m[id],
{
}

} // verus!
