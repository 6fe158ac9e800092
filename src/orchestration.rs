//! Cache-aside lookups and write-through registrations.
//!
//! Serving one request alternates between decisions and outside work: asking
//! the local cache, calling the backend, writing the cache. The decisions are
//! the functions of this module; the caller performs each piece of outside
//! work they ask for and hands the outcome back.
//!
//! The local cache is modelled as a map from key text to hash bytes. A hash
//! travels as text to clients and as its UTF-8 bytes to the cache and the
//! backend.
use vstd::prelude::*;
use vstd::string::StrSliceExecFns;
use vstd::utf8::{encode_utf8, valid_utf8};

use crate::message::cache_server as cs;
use crate::message::data_server as ds;

verus! {

/// What a client is told, with the hash given as bytes.
pub enum Reply {
    Found { key: Seq<char>, hash: Seq<u8> },
    NotFound,
    Stored,
    Refused,
}

/// The next thing to do for a request, in the model.
pub enum Plan {
    /// Answer the client: `None` ends the session without an answer.
    Answer(Option<Reply>),
    /// Ask the backend for the hash of the key.
    Resolve(Seq<char>),
    /// Register the hash bytes for the key with the backend.
    Register(Seq<char>, Seq<u8>),
}

/// A request ends the session when a hash to be told to a client is not text.
#[derive(Clone, Copy, Debug, PartialEq, Eq)]
pub enum HandlerError {
    HashNotUtf8,
}

/// The next thing to do for a request.
#[derive(Clone, Debug, PartialEq, Eq)]
pub enum Step {
    Respond(cs::Response),
    Resolve(ds::request::Load),
    Register(ds::request::Store),
}

/// A write of hash bytes for a key into the local cache.
#[derive(Clone, Debug, PartialEq, Eq)]
pub struct CacheEntry {
    pub key: String,
    pub hash: Vec<u8>,
}

/// What a request ends with once the backend has answered: the cache write to
/// make, then the answer for the client.
#[derive(Debug, PartialEq, Eq)]
pub struct Outcome {
    pub write: Option<CacheEntry>,
    pub reply: Result<cs::Response, HandlerError>,
}

pub open spec fn reply_of(r: cs::Response) -> Reply {
    match r {
        cs::Response::Load(cs::response::Load::Success { requested_key, requested_hash }) =>
            Reply::Found { key: requested_key@, hash: encode_utf8(requested_hash@) },
        cs::Response::Load(cs::response::Load::NotFound) => Reply::NotFound,
        cs::Response::Store(cs::response::Store::Success) => Reply::Stored,
        cs::Response::Store(cs::response::Store::Error) => Reply::Refused,
    }
}

pub open spec fn answer_of(r: Result<cs::Response, HandlerError>) -> Option<Reply> {
    match r {
        Ok(resp) => Some(reply_of(resp)),
        Err(_) => None,
    }
}

pub open spec fn plan_of(r: Result<Step, HandlerError>) -> Plan {
    match r {
        Ok(Step::Respond(resp)) => Plan::Answer(Some(reply_of(resp))),
        Ok(Step::Resolve(q)) => Plan::Resolve(q.key@),
        Ok(Step::Register(q)) => Plan::Register(q.key@, q.hash@),
        Err(_) => Plan::Answer(None),
    }
}

pub open spec fn bytes_of(v: Option<Vec<u8>>) -> Option<Seq<u8>> {
    match v {
        Some(b) => Some(b@),
        None => None,
    }
}

pub open spec fn write_of(w: Option<CacheEntry>) -> Option<(Seq<char>, Seq<u8>)> {
    match w {
        Some(e) => Some((e.key@, e.hash@)),
        None => None,
    }
}

/// What the cache holds for `key`.
pub open spec fn lookup(cache: Map<Seq<char>, Seq<u8>>, key: Seq<char>) -> Option<Seq<u8>> {
    if cache.contains_key(key) {
        Some(cache[key])
    } else {
        None
    }
}

/// The cache after an optional write.
pub open spec fn apply_write(
    cache: Map<Seq<char>, Seq<u8>>,
    write: Option<(Seq<char>, Seq<u8>)>,
) -> Map<Seq<char>, Seq<u8>> {
    match write {
        Some((k, h)) => cache.insert(k, h),
        None => cache,
    }
}

/// Telling a client the hash `stored` of `key`: it must be text.
pub open spec fn found(key: Seq<char>, stored: Seq<u8>) -> Option<Reply> {
    if valid_utf8(stored) {
        Some(Reply::Found { key, hash: stored })
    } else {
        None
    }
}

/// A lookup answers from the cache on a hit and asks the backend on a miss.
pub open spec fn load_plan(key: Seq<char>, cached: Option<Seq<u8>>) -> Plan {
    match cached {
        Some(stored) => Plan::Answer(found(key, stored)),
        None => Plan::Resolve(key),
    }
}

/// A hash that the backend resolved is cached; a miss is not.
pub open spec fn load_write(key: Seq<char>, resolved: Option<Seq<u8>>) -> Option<(Seq<char>, Seq<u8>)> {
    match resolved {
        Some(h) => Some((key, h)),
        None => None,
    }
}

pub open spec fn load_answer(key: Seq<char>, resolved: Option<Seq<u8>>) -> Option<Reply> {
    match resolved {
        Some(h) => found(key, h),
        None => Some(Reply::NotFound),
    }
}

/// A registration of the hash already cached for the key is answered at once;
/// any other goes to the backend.
pub open spec fn store_plan(key: Seq<char>, hash: Seq<u8>, cached: Option<Seq<u8>>) -> Plan {
    if cached == Some(hash) {
        Plan::Answer(Some(Reply::Stored))
    } else {
        Plan::Register(key, hash)
    }
}

/// Whatever the backend says, the registered hash is cached.
pub open spec fn store_write(key: Seq<char>, hash: Seq<u8>) -> Option<(Seq<char>, Seq<u8>)> {
    Some((key, hash))
}

pub open spec fn store_answer(accepted: bool) -> Option<Reply> {
    if accepted {
        Some(Reply::Stored)
    } else {
        Some(Reply::Refused)
    }
}

/// Serving a lookup of `key` against `cache`, where `resolved` is what the
/// backend answers if it is asked: the cache afterwards, the client's answer,
/// and the number of backend calls made.
pub open spec fn load_request(
    cache: Map<Seq<char>, Seq<u8>>,
    key: Seq<char>,
    resolved: Option<Seq<u8>>,
) -> (Map<Seq<char>, Seq<u8>>, Option<Reply>, nat) {
    match load_plan(key, lookup(cache, key)) {
        Plan::Resolve(k) => (
            apply_write(cache, load_write(k, resolved)),
            load_answer(k, resolved),
            1,
        ),
        Plan::Answer(a) => (cache, a, 0),
        Plan::Register(_, _) => (cache, None, 0),
    }
}

/// Serving a registration of `hash` for `key` against `cache`, where `accepted`
/// is the backend's verdict if it is asked: the cache afterwards, the client's
/// answer, and the number of backend calls made.
pub open spec fn store_request(
    cache: Map<Seq<char>, Seq<u8>>,
    key: Seq<char>,
    hash: Seq<u8>,
    accepted: bool,
) -> (Map<Seq<char>, Seq<u8>>, Option<Reply>, nat) {
    match store_plan(key, hash, lookup(cache, key)) {
        Plan::Register(k, h) => (apply_write(cache, store_write(k, h)), store_answer(accepted), 1),
        Plan::Answer(a) => (cache, a, 0),
        Plan::Resolve(_) => (cache, None, 0),
    }
}

/// A lookup of a key whose hash is cached is answered with that hash and never
/// reaches the backend, whatever the backend would have said.
pub proof fn lemma_cache_hit_short_circuit(
    cache: Map<Seq<char>, Seq<u8>>,
    key: Seq<char>,
    resolved: Option<Seq<u8>>,
)
    requires
        cache.contains_key(key),
        valid_utf8(cache[key]),
    ensures
        load_plan(key, lookup(cache, key)) == Plan::Answer(
            Some(Reply::Found { key, hash: cache[key] }),
        ),
        load_request(cache, key, resolved) == (
            cache,
            Some(Reply::Found { key, hash: cache[key] }),
            0nat,
        ),
{
}

/// A lookup of an uncached key asks the backend; a hash it resolves is cached
/// for the key and told to the client.
pub proof fn lemma_cache_populated_on_miss(
    cache: Map<Seq<char>, Seq<u8>>,
    key: Seq<char>,
    hash: Seq<u8>,
)
    requires
        !cache.contains_key(key),
        valid_utf8(hash),
    ensures
        load_plan(key, lookup(cache, key)) == Plan::Resolve(key),
        load_request(cache, key, Some(hash)) == (
            cache.insert(key, hash),
            Some(Reply::Found { key, hash }),
            1nat,
        ),
{
}

/// A key that the backend cannot resolve is not cached, so the next lookup of
/// it asks the backend again.
pub proof fn lemma_miss_not_cached(cache: Map<Seq<char>, Seq<u8>>, key: Seq<char>)
    requires
        !cache.contains_key(key),
    ensures
        load_request(cache, key, None) == (cache, Some(Reply::NotFound), 1nat),
        !load_request(cache, key, None).0.contains_key(key),
        load_request(load_request(cache, key, None).0, key, None).2 == 1,
{
}

/// Registering a hash for a key a second time in a row is answered at once
/// and never reaches the backend, whatever the backend said the first time.
pub proof fn lemma_store_idempotent(
    cache: Map<Seq<char>, Seq<u8>>,
    key: Seq<char>,
    hash: Seq<u8>,
    first: bool,
    second: bool,
)
    ensures
        store_plan(key, hash, lookup(store_request(cache, key, hash, first).0, key))
            == Plan::Answer(Some(Reply::Stored)),
        store_request(store_request(cache, key, hash, first).0, key, hash, second) == (
            store_request(cache, key, hash, first).0,
            Some(Reply::Stored),
            0nat,
        ),
{
}

/// After a registration the cache holds the registered hash for the key,
/// whether the backend accepted it or not.
pub proof fn lemma_store_updates_cache(
    cache: Map<Seq<char>, Seq<u8>>,
    key: Seq<char>,
    hash: Seq<u8>,
    accepted: bool,
)
    ensures
        store_request(cache, key, hash, accepted).0.contains_key(key),
        store_request(cache, key, hash, accepted).0[key] == hash,
{
}

/// Relies on `String::from_utf8`: it succeeds exactly on well-formed UTF-8, and
/// the string it returns is made of those bytes.
#[verifier::external_body]
fn text_from_bytes(bytes: &Vec<u8>) -> (r: Option<String>)
    ensures
        r is Some <==> valid_utf8(bytes@),
        r matches Some(s) ==> encode_utf8(s@) == bytes@,
{
    String::from_utf8(bytes.to_vec()).ok()
}

fn bytes_equal(a: &Vec<u8>, b: &Vec<u8>) -> (r: bool)
    ensures
        r == (a@ == b@),
{
    if a.len() != b.len() {
        return false;
    }
    let mut i: usize = 0;
    while i < a.len()
        invariant
            a@.len() == b@.len(),
            i <= a@.len(),
            a@.subrange(0, i as int) == b@.subrange(0, i as int),
        decreases a@.len() - i,
    {
        if a[i] != b[i] {
            assert(a@[i as int] != b@[i as int]);
            return false;
        }
        assert(a@.subrange(0, i + 1) == a@.subrange(0, i as int).push(a@[i as int]));
        assert(b@.subrange(0, i + 1) == b@.subrange(0, i as int).push(b@[i as int]));
        i = i + 1;
    }
    assert(a@ == a@.subrange(0, a@.len() as int));
    assert(b@ == b@.subrange(0, b@.len() as int));
    true
}

/// The answer telling a client that `key` has the hash `stored`.
fn found_response(key: String, stored: &Vec<u8>) -> (r: Result<cs::Response, HandlerError>)
    ensures
        answer_of(r) == found(key@, stored@),
{
    match text_from_bytes(stored) {
        Some(text) => Ok(
            cs::Response::Load(
                cs::response::Load::Success { requested_key: key, requested_hash: text },
            ),
        ),
        None => Err(HandlerError::HashNotUtf8),
    }
}

/// First step of a client's lookup, once the local cache has been asked for the
/// key: `cached` is what it holds.
pub fn load_on_lookup(request: cs::request::Load, cached: Option<Vec<u8>>) -> (r: Result<
    Step,
    HandlerError,
>)
    ensures
        plan_of(r) == load_plan(request.key@, bytes_of(cached)),
{
    match cached {
        Some(stored) => match found_response(request.key, &stored) {
            Ok(resp) => Ok(Step::Respond(resp)),
            Err(e) => Err(e),
        },
        None => Ok(Step::Resolve(ds::request::Load { key: request.key })),
    }
}

/// Last step of a client's lookup that missed the cache: `answer` is what the
/// backend resolved the key to.
pub fn load_on_resolve(request: cs::request::Load, answer: ds::response::Load) -> (r: Outcome)
    ensures
        write_of(r.write) == load_write(request.key@, bytes_of(answer.hash)),
        answer_of(r.reply) == load_answer(request.key@, bytes_of(answer.hash)),
{
    match answer.hash {
        Some(hash) => {
            let reply = found_response(request.key.clone(), &hash);
            Outcome { write: Some(CacheEntry { key: request.key, hash }), reply }
        },
        None => Outcome {
            write: None,
            reply: Ok(cs::Response::Load(cs::response::Load::NotFound)),
        },
    }
}

/// First step of a client's registration, once the local cache has been asked
/// for the key: `cached` is what it holds.
pub fn store_on_lookup(request: cs::request::Store, cached: Option<Vec<u8>>) -> (r: Step)
    ensures
        plan_of(Ok(r)) == store_plan(
            request.key@,
            encode_utf8(request.hash@),
            bytes_of(cached),
        ),
{
    let hash = request.hash.as_str().as_bytes_vec();
    if let Some(stored) = cached {
        if bytes_equal(&stored, &hash) {
            return Step::Respond(cs::Response::Store(cs::response::Store::Success));
        }
    }
    Step::Register(ds::request::Store { key: request.key, hash })
}

/// Last step of a client's registration that went to the backend: `answer`
/// says whether the backend accepted it.
pub fn store_on_register(request: cs::request::Store, answer: ds::response::Store) -> (r: Outcome)
    ensures
        write_of(r.write) == store_write(request.key@, encode_utf8(request.hash@)),
        answer_of(r.reply) == store_answer(answer.success),
{
    let hash = request.hash.as_str().as_bytes_vec();
    let reply = if answer.success {
        cs::response::Store::Success
    } else {
        cs::response::Store::Error
    };
    Outcome {
        write: Some(CacheEntry { key: request.key, hash }),
        reply: Ok(cs::Response::Store(reply)),
    }
}

} // verus!
