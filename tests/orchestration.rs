use hdn_cache_server::message::cache_server as cs;
use hdn_cache_server::message::data_server as ds;
use hdn_cache_server::orchestration::{
    load_on_lookup, load_on_resolve, store_on_lookup, store_on_register, CacheEntry,
    HandlerError, Outcome, Step,
};

fn load(key: &str) -> cs::request::Load {
    cs::request::Load { key: key.to_string() }
}

fn store(key: &str, hash: &str) -> cs::request::Store {
    cs::request::Store { key: key.to_string(), hash: hash.to_string() }
}

fn found(key: &str, hash: &str) -> cs::Response {
    cs::Response::Load(cs::response::Load::Success {
        requested_key: key.to_string(),
        requested_hash: hash.to_string(),
    })
}

fn entry(key: &str, hash: &[u8]) -> CacheEntry {
    CacheEntry { key: key.to_string(), hash: hash.to_vec() }
}

#[test]
fn load_hit_answers_from_cache() {
    let r = load_on_lookup(load("a"), Some(b"dead".to_vec()));
    assert_eq!(r, Ok(Step::Respond(found("a", "dead"))));
}

#[test]
fn load_miss_asks_backend() {
    let r = load_on_lookup(load("a"), None);
    assert_eq!(r, Ok(Step::Resolve(ds::request::Load { key: "a".to_string() })));
}

#[test]
fn load_hit_of_non_text_hash_ends_session() {
    let r = load_on_lookup(load("a"), Some(vec![0xff, 0xfe]));
    assert_eq!(r, Err(HandlerError::HashNotUtf8));
}

#[test]
fn scenario_load_resolved_by_backend() {
    assert_eq!(
        load_on_lookup(load("a"), None),
        Ok(Step::Resolve(ds::request::Load { key: "a".to_string() }))
    );
    let out = load_on_resolve(load("a"), ds::response::Load { hash: Some(b"dead".to_vec()) });
    assert_eq!(
        out,
        Outcome { write: Some(entry("a", b"dead")), reply: Ok(found("a", "dead")) }
    );
}

#[test]
fn scenario_load_unknown_key() {
    let out = load_on_resolve(load("z"), ds::response::Load { hash: None });
    assert_eq!(
        out,
        Outcome { write: None, reply: Ok(cs::Response::Load(cs::response::Load::NotFound)) }
    );
}

#[test]
fn miss_is_asked_again() {
    let first = load_on_resolve(load("z"), ds::response::Load { hash: None });
    assert_eq!(first.write, None);
    // nothing was cached, so the cache still answers None for the key
    assert_eq!(
        load_on_lookup(load("z"), None),
        Ok(Step::Resolve(ds::request::Load { key: "z".to_string() }))
    );
}

#[test]
fn resolved_non_text_hash_is_cached_but_ends_session() {
    let out = load_on_resolve(load("a"), ds::response::Load { hash: Some(vec![0xc3]) });
    assert_eq!(out, Outcome { write: Some(entry("a", &[0xc3])), reply: Err(HandlerError::HashNotUtf8) });
}

#[test]
fn empty_key_and_hash_round_through() {
    let out = load_on_resolve(load(""), ds::response::Load { hash: Some(Vec::new()) });
    assert_eq!(out, Outcome { write: Some(entry("", b"")), reply: Ok(found("", "")) });
}

#[test]
fn non_ascii_hash_is_told_as_text() {
    let r = load_on_lookup(load("k"), Some("é".as_bytes().to_vec()));
    assert_eq!(r, Ok(Step::Respond(found("k", "é"))));
}

#[test]
fn scenario_store_accepted() {
    let step = store_on_lookup(store("a", "beef"), Some(b"dead".to_vec()));
    assert_eq!(
        step,
        Step::Register(ds::request::Store { key: "a".to_string(), hash: b"beef".to_vec() })
    );
    let out = store_on_register(store("a", "beef"), ds::response::Store { success: true });
    assert_eq!(
        out,
        Outcome {
            write: Some(entry("a", b"beef")),
            reply: Ok(cs::Response::Store(cs::response::Store::Success)),
        }
    );
}

#[test]
fn scenario_store_rejected_still_cached() {
    let out = store_on_register(store("a", "beef"), ds::response::Store { success: false });
    assert_eq!(
        out,
        Outcome {
            write: Some(entry("a", b"beef")),
            reply: Ok(cs::Response::Store(cs::response::Store::Error)),
        }
    );
}

#[test]
fn store_of_uncached_key_goes_to_backend() {
    let step = store_on_lookup(store("b", "cafe"), None);
    assert_eq!(
        step,
        Step::Register(ds::request::Store { key: "b".to_string(), hash: b"cafe".to_vec() })
    );
}

#[test]
fn repeated_store_is_answered_at_once() {
    for accepted in [true, false] {
        let first = store_on_register(store("a", "beef"), ds::response::Store { success: accepted });
        let cached = first.write.map(|e| e.hash);
        let again = store_on_lookup(store("a", "beef"), cached);
        assert_eq!(again, Step::Respond(cs::Response::Store(cs::response::Store::Success)));
    }
}

#[test]
fn store_of_prefix_hash_is_not_a_match() {
    let step = store_on_lookup(store("a", "bee"), Some(b"beef".to_vec()));
    assert_eq!(
        step,
        Step::Register(ds::request::Store { key: "a".to_string(), hash: b"bee".to_vec() })
    );
}

#[test]
fn store_sends_utf8_bytes_of_hash() {
    let step = store_on_lookup(store("a", "ü"), None);
    assert_eq!(
        step,
        Step::Register(ds::request::Store { key: "a".to_string(), hash: vec![0xc3, 0xbc] })
    );
}
