use boot_core::block::BlockTime;
use boot_core::contract::Contract;
use boot_core::error::BootError;
use boot_core::response::{parse_code_id, Attribute, Event, TxResponse};
use boot_core::state::{MockState, StateInterface};

fn response(ty: &str, key: &str, value: &str) -> TxResponse {
    TxResponse {
        events: vec![Event {
            ty: ty.to_string(),
            attributes: vec![Attribute { key: key.to_string(), value: value.to_string() }],
        }],
    }
}

fn contract() -> Contract<u32> {
    Contract::new("ns:token".to_string())
}

#[test]
fn state_read_before_write_is_not_found() {
    let s = MockState::new();
    let id = "x".to_string();
    assert_eq!(s.get_address(&id), Err(BootError::NotFound("x".to_string())));
    assert_eq!(s.get_code_id(&id), Err(BootError::NotFound("x".to_string())));
}

#[test]
fn state_writes_overwrite() {
    let mut s = MockState::new();
    let id = "x".to_string();
    s.set_address(&id, &"addr1".to_string());
    s.set_address(&id, &"addr2".to_string());
    s.set_code_id(&id, 4);
    s.set_code_id(&"y".to_string(), 9);
    s.set_code_id(&id, 5);
    assert_eq!(s.get_address(&id).unwrap(), "addr2");
    assert_eq!(s.get_code_id(&id).unwrap(), 5);
    assert_eq!(s.get_code_id(&"y".to_string()).unwrap(), 9);
}

#[test]
fn parse_code_id_cases() {
    assert_eq!(parse_code_id("42"), Some(42));
    assert_eq!(parse_code_id("+7"), Some(7));
    assert_eq!(parse_code_id("18446744073709551615"), Some(u64::MAX));
    assert_eq!(parse_code_id("18446744073709551616"), None);
    assert_eq!(parse_code_id(""), None);
    assert_eq!(parse_code_id("+"), None);
    assert_eq!(parse_code_id("4a"), None);
    assert_eq!(parse_code_id("-1"), None);
}

#[test]
fn upload_response_records_code_id() {
    let c = contract();
    let mut s = MockState::new();
    let resp = response("store_code", "code_id", "12");
    assert_eq!(c.record_upload(&mut s, &resp), Ok(12));
    assert_eq!(c.code_id(&s), Ok(12));
}

#[test]
fn upload_response_without_code_id_fails() {
    let c = contract();
    let mut s = MockState::new();
    let resp = response("instantiate", "code_id", "12");
    assert!(matches!(c.record_upload(&mut s, &resp), Err(BootError::Backend(_))));
    let bad = response("store_code", "code_id", "twelve");
    assert!(matches!(c.record_upload(&mut s, &bad), Err(BootError::Backend(_))));
    assert!(matches!(c.code_id(&s), Err(BootError::NotFound(_))));
}

#[test]
fn address_round_trip_after_instantiate() {
    let c = contract();
    let mut s = MockState::new();
    assert_eq!(c.address(&s), Err(BootError::NotFound("ns:token".to_string())));
    let resp = response("instantiate", "_contract_address", "contract7");
    assert_eq!(c.record_instantiate(&mut s, &resp).unwrap(), "contract7");
    assert_eq!(c.address(&s).unwrap(), "contract7");
}

#[test]
fn instantiate_response_without_address_fails() {
    let c = contract();
    let mut s = MockState::new();
    let resp = response("instantiate", "code_id", "1");
    assert!(matches!(c.record_instantiate(&mut s, &resp), Err(BootError::Backend(_))));
}

#[test]
fn upload_skipped_when_checksums_match() {
    let c = contract();
    let mut s = MockState::new();
    c.set_code_id(&mut s, 3);
    let h = "aa".to_string();
    assert!(!c.upload_if_needed(&s, &h, &h.clone()));
    assert_eq!(c.latest_is_uploaded(&s, &h, &h.clone()), Ok(true));
}

#[test]
fn upload_needed_when_checksums_differ_or_absent() {
    let c = contract();
    let mut s = MockState::new();
    let a = "aa".to_string();
    let b = "bb".to_string();
    assert!(c.upload_if_needed(&s, &a, &a));
    assert!(matches!(c.latest_is_uploaded(&s, &a, &a), Err(BootError::NotFound(_))));
    c.set_code_id(&mut s, 3);
    assert!(c.upload_if_needed(&s, &a, &b));
    assert_eq!(c.record_upload(&mut s, &response("store_code", "code_id", "4")), Ok(4));
    assert_eq!(c.code_id(&s), Ok(4));
}

#[test]
fn migrate_skipped_when_running_latest() {
    let c = contract();
    let mut s = MockState::new();
    c.set_code_id(&mut s, 5);
    c.set_address(&mut s, &"inst".to_string());
    assert_eq!(c.migrate_if_needed(&s, 5), Ok(None));
    assert_eq!(c.is_running_latest(&s, 5), Ok(true));
}

#[test]
fn migrate_to_recorded_code_when_behind() {
    let c = contract();
    let mut s = MockState::new();
    c.set_code_id(&mut s, 6);
    c.set_address(&mut s, &"inst".to_string());
    assert_eq!(c.migrate_if_needed(&s, 5), Ok(Some(6)));
    assert_eq!(c.is_running_latest(&s, 5), Ok(false));
}

#[test]
fn migrate_without_record_fails() {
    let c = contract();
    let mut s = MockState::new();
    assert!(matches!(c.migrate_if_needed(&s, 5), Err(BootError::NotFound(_))));
    c.set_code_id(&mut s, 6);
    assert!(matches!(c.migrate_if_needed(&s, 5), Err(BootError::NotFound(_))));
}

#[test]
fn with_address_records_when_given() {
    let mut s = MockState::new();
    let c = contract().with_address(&mut s, None);
    assert!(c.address(&s).is_err());
    let c = c.with_address(&mut s, Some(&"a1".to_string()));
    assert_eq!(c.address(&s).unwrap(), "a1");
}

#[test]
fn builders_set_code_reference() {
    let c = contract().with_wasm_path("p.wasm".to_string()).with_mock(9);
    assert_eq!(c.id, "ns:token");
    assert_eq!(c.source.wasm_code_path, Some("p.wasm".to_string()));
    assert_eq!(c.source.contract_endpoints, Some(9));
    let mut c = c;
    c.set_mock(10);
    assert_eq!(c.source.contract_endpoints, Some(10));
}

#[test]
fn listing_gives_each_identifier_once() {
    let mut s = MockState::new();
    s.set_address(&"a".to_string(), &"x1".to_string());
    s.set_address(&"b".to_string(), &"y1".to_string());
    s.set_address(&"a".to_string(), &"x2".to_string());
    s.set_code_id(&"a".to_string(), 1);
    s.set_code_id(&"a".to_string(), 2);
    let mut all = s.get_all_addresses();
    all.sort();
    assert_eq!(all, vec![("a".to_string(), "x2".to_string()), ("b".to_string(), "y1".to_string())]);
    assert_eq!(s.get_all_code_ids(), vec![("a".to_string(), 2)]);
    assert!(MockState::new().get_all_addresses().is_empty());
}

#[test]
fn synthesized_responses_read_back() {
    let c = contract();
    let mut s = MockState::new();
    let up = TxResponse::stored(18446744073709551615);
    assert_eq!(c.record_upload(&mut s, &up), Ok(u64::MAX));
    let up = TxResponse::stored(0);
    assert_eq!(up.uploaded_code_id(), Ok(0));
    assert_eq!(up.events[0].attributes[0].value, "0");
    let inst = TxResponse::instantiated("contract1".to_string());
    assert_eq!(c.record_instantiate(&mut s, &inst).unwrap(), "contract1");
    assert_eq!(boot_core::response::decimal_string(1207), "1207");
    let up = TxResponse::stored(42);
    assert_eq!(up.events.len(), 1);
    assert_eq!(up.events[0].ty, "store_code");
    assert_eq!(up.events[0].attributes.len(), 1);
    assert_eq!(up.events[0].attributes[0].key, "code_id");
    assert_eq!(up.events[0].attributes[0].value, "42");
    let inst = TxResponse::instantiated("c2".to_string());
    assert_eq!(inst.events.len(), 1);
    assert_eq!(inst.events[0].ty, "instantiate");
    assert_eq!(inst.events[0].attributes.len(), 1);
    assert_eq!(inst.events[0].attributes[0].key, "_contract_address");
    assert_eq!(inst.events[0].attributes[0].value, "c2");
}

#[test]
fn blocks_advance_height_and_time() {
    let b = BlockTime { height: 10, time_seconds: 100 };
    assert_eq!(b.next_block(), BlockTime { height: 11, time_seconds: 105 });
    assert_eq!(b.wait_blocks(4), BlockTime { height: 14, time_seconds: 120 });
    assert_eq!(b.wait_blocks(0), b);
}
