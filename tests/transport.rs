use hdn_cache_server::message::data_server as ds;
use hdn_cache_server::transport::{is_whole_frame, BackendLink, Kind, LinkState, TransportError};

fn load_request() -> ds::Request {
    ds::Request::Load(ds::request::Load { key: "a".to_string() })
}

fn store_request() -> ds::Request {
    ds::Request::Store(ds::request::Store { key: "a".to_string(), hash: b"beef".to_vec() })
}

#[test]
fn whole_frames() {
    assert!(!is_whole_frame(&Vec::new()));
    assert!(is_whole_frame(&vec![0]));
    assert!(is_whole_frame(&vec![3, 1, 2, 0]));
    assert!(!is_whole_frame(&vec![1, 2]));
    assert!(!is_whole_frame(&vec![1, 0, 2, 0]));
}

#[test]
fn exchanges_run_one_at_a_time() {
    let mut link = BackendLink::new();
    assert_eq!(link.state(), LinkState::Idle);
    assert_eq!(link.begin(&load_request()), Ok(()));
    assert_eq!(link.state(), LinkState::Awaiting(Kind::Load));
    assert_eq!(link.finish(&vec![2, 1, 0]), Ok(Kind::Load));
    assert_eq!(link.state(), LinkState::Idle);
    assert_eq!(link.begin(&store_request()), Ok(()));
    assert_eq!(link.state(), LinkState::Awaiting(Kind::Store));
    assert_eq!(link.finish(&vec![1, 1, 0]), Ok(Kind::Store));
    assert_eq!(link.state(), LinkState::Idle);
}

#[test]
fn second_request_while_one_waits_breaks_link() {
    let mut link = BackendLink::new();
    assert_eq!(link.begin(&load_request()), Ok(()));
    assert_eq!(link.begin(&store_request()), Err(TransportError::OutOfTurn));
    assert_eq!(link.state(), LinkState::Broken);
    assert_eq!(link.begin(&load_request()), Err(TransportError::Broken));
}

#[test]
fn reply_without_request_breaks_link() {
    let mut link = BackendLink::new();
    assert_eq!(link.finish(&vec![0]), Err(TransportError::OutOfTurn));
    assert_eq!(link.state(), LinkState::Broken);
}

#[test]
fn truncated_reply_breaks_link() {
    let mut link = BackendLink::new();
    assert_eq!(link.begin(&store_request()), Ok(()));
    assert_eq!(link.finish(&vec![2, 1]), Err(TransportError::MalformedFrame));
    assert_eq!(link.state(), LinkState::Broken);
    assert_eq!(link.finish(&vec![2, 1, 0]), Err(TransportError::Broken));
    assert_eq!(link.begin(&load_request()), Err(TransportError::Broken));
}

#[test]
fn failed_exchange_poisons_link() {
    let mut link = BackendLink::new();
    assert_eq!(link.begin(&load_request()), Ok(()));
    link.fail();
    assert_eq!(link.state(), LinkState::Broken);
    assert_eq!(link.begin(&load_request()), Err(TransportError::Broken));
}
