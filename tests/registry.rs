use time_cache::db::CacheDb;
use time_cache::entity::{DataType, SaveTimePeriod, TSCacheValue, TSItem, TSValue};
use time_cache::exception::{Exception, ExceptionKind};
use time_cache::method::{choose_method, do_create, do_get, get_value, handler_methods, Handler, MethodKind, TSMethod};

fn item(name: &str, capacity: usize, datatype: DataType, save: SaveTimePeriod) -> TSItem {
    TSItem { tsName: name.to_string(), capacity, datatype, saveTime: save }
}

fn set(name: &str, key: u128, value: TSCacheValue) -> TSValue {
    TSValue { name: name.to_string(), key, value }
}

/// MessagePack fixstr of an ASCII name.
fn packed_name(name: &str) -> Vec<u8> {
    let mut v = vec![0xa0 | name.len() as u8];
    v.extend_from_slice(name.as_bytes());
    v
}

#[test]
fn scenario_demo_series() {
    let mut db = CacheDb::new();
    assert!(do_create(&mut db, item("demo", 3, DataType::Long, SaveTimePeriod::Minute)).is_ok());
    for (k, v) in [(1u128, 10i64), (2, 20), (3, 30), (4, 40)] {
        assert!(db.insert_new_value(set("demo", k, TSCacheValue::Long(v)), &vec![], 1000).is_ok());
    }
    assert_eq!(db.query_last("demo").unwrap(), &TSCacheValue::Long(40));
    assert_eq!(
        db.get("demo").unwrap().query_times(0, 5),
        vec![TSCacheValue::Long(20), TSCacheValue::Long(30), TSCacheValue::Long(40)]
    );
    let e = db.insert_new_value(set("demo", 3, TSCacheValue::Long(99)), &vec![], 1000).unwrap_err();
    assert_eq!(e.code, 4004);
    assert_eq!(db.query_last("demo").unwrap(), &TSCacheValue::Long(40));
}

#[test]
fn scenario_set_unknown_series() {
    let mut db = CacheDb::new();
    let e = db.insert_new_value(set("ghost", 1, TSCacheValue::Long(1)), &vec![], 0).unwrap_err();
    assert_eq!(e.code, ExceptionKind::TSNameNotFoundError.as_code());
    assert!(!db.contains_key("ghost"));
    assert_eq!(db.manifest().len(), 0);
}

#[test]
fn type_mismatch_is_refused_before_any_change() {
    let mut db = CacheDb::new();
    assert!(do_create(&mut db, item("t", 2, DataType::Long, SaveTimePeriod::Minute)).is_ok());
    let e = db.insert_new_value(set("t", 5, TSCacheValue::String("x".to_string())), &vec![1], 0).unwrap_err();
    assert_eq!(e.code, 4005);
    assert_eq!(db.query_last("t").unwrap_err().code, 4003);
    // The log was not touched: the next write still opens a file.
    let w = db.insert_new_value(set("t", 5, TSCacheValue::Long(1)), &vec![1], 7).unwrap().unwrap();
    assert_eq!(w.open_at, Some(7));
}

#[test]
fn duplicate_and_zero_capacity_create() {
    let mut db = CacheDb::new();
    assert!(do_create(&mut db, item("a", 2, DataType::Long, SaveTimePeriod::Nerve)).is_ok());
    let e = do_create(&mut db, item("a", 5, DataType::Float, SaveTimePeriod::Nerve)).unwrap_err();
    assert_eq!(e.code, 4002);
    let e = do_create(&mut db, item("b", 0, DataType::Float, SaveTimePeriod::Nerve)).unwrap_err();
    assert_eq!(e.code, 4001);
    assert!(db.contains_key("a"));
    assert!(!db.contains_key("b"));
    assert_eq!(db.manifest()[0].capacity, 2);
}

#[test]
fn restart_from_manifest() {
    let mut db = CacheDb::new();
    assert!(do_create(&mut db, item("x", 4, DataType::Double, SaveTimePeriod::Hour)).is_ok());
    assert!(do_create(&mut db, item("y", 9, DataType::ByteArray, SaveTimePeriod::Day)).is_ok());
    assert!(db.insert_new_value(set("x", 1, TSCacheValue::Double(3)), &vec![], 0).is_ok());
    let manifest = db.manifest();
    let mut again = CacheDb::new();
    again.init(manifest);
    let m = again.manifest();
    assert_eq!(m.len(), 2);
    assert_eq!((m[0].tsName.as_str(), m[0].capacity, m[0].datatype, m[0].saveTime), ("x", 4, DataType::Double, SaveTimePeriod::Hour));
    assert_eq!((m[1].tsName.as_str(), m[1].capacity, m[1].datatype, m[1].saveTime), ("y", 9, DataType::ByteArray, SaveTimePeriod::Day));
    assert_eq!(again.query_last("x").unwrap_err().code, 4003);
}

#[test]
fn init_passes_over_invalid_definitions() {
    let mut db = CacheDb::new();
    db.init(vec![
        item("a", 1, DataType::Long, SaveTimePeriod::Nerve),
        item("a", 2, DataType::Long, SaveTimePeriod::Nerve),
        item("b", 0, DataType::Long, SaveTimePeriod::Nerve),
    ]);
    let m = db.manifest();
    assert_eq!(m.len(), 1);
    assert_eq!(m[0].capacity, 1);
}

#[test]
fn log_record_and_rotation() {
    let mut db = CacheDb::new();
    assert!(do_create(&mut db, item("m", 10, DataType::Long, SaveTimePeriod::Minute)).is_ok());
    let w = db.insert_new_value(set("m", 0x0102, TSCacheValue::Long(5)), &vec![0x05], 1_000).unwrap().unwrap();
    assert_eq!(w.open_at, Some(1_000));
    let mut expected = vec![0u8; 14];
    expected.extend_from_slice(&[0x01, 0x02, 0x05]);
    assert_eq!(w.record, expected);
    assert!(!w.close);
    // Two full periods of a minute have not yet passed: keep the file.
    let w = db.insert_new_value(set("m", 0x0103, TSCacheValue::Long(6)), &vec![0x06], 1_000 + 119_999).unwrap().unwrap();
    assert_eq!(w.open_at, None);
    assert!(!w.close);
    // Now they have: write, then close.
    let w = db.insert_new_value(set("m", 0x0104, TSCacheValue::Long(7)), &vec![0x07], 1_000 + 120_000).unwrap().unwrap();
    assert_eq!(w.open_at, None);
    assert!(w.close);
    // The next write opens a new file.
    let w = db.insert_new_value(set("m", 0x0105, TSCacheValue::Long(8)), &vec![0x08], 200_000).unwrap().unwrap();
    assert_eq!(w.open_at, Some(200_000));
}

#[test]
fn ephemeral_series_is_not_logged() {
    let mut db = CacheDb::new();
    assert!(do_create(&mut db, item("e", 2, DataType::Long, SaveTimePeriod::Nerve)).is_ok());
    let w = db.insert_new_value(set("e", 1, TSCacheValue::Long(1)), &vec![1], 5).unwrap();
    assert!(w.is_none());
    assert_eq!(db.query_last("e").unwrap(), &TSCacheValue::Long(1));
}

#[test]
fn get_by_packed_name() {
    let mut db = CacheDb::new();
    assert!(do_create(&mut db, item("demo", 3, DataType::String, SaveTimePeriod::Nerve)).is_ok());
    let payload = packed_name("demo");
    assert_eq!(do_get(&db, &payload).unwrap_err().code, 4003);
    assert!(db.insert_new_value(set("demo", 9, TSCacheValue::String("hi".to_string())), &vec![], 0).is_ok());
    assert_eq!(do_get(&db, &payload).unwrap(), &TSCacheValue::String("hi".to_string()));
    assert_eq!(do_get(&db, &packed_name("other")).unwrap_err().code, 4006);
    assert_eq!(get_value(&db, &"demo".to_string()).unwrap(), &TSCacheValue::String("hi".to_string()));
}

#[test]
fn get_with_bad_payload() {
    let db = CacheDb::new();
    assert_eq!(do_get(&db, &[]).unwrap_err().code, 4001);
    assert_eq!(do_get(&db, &[0x05]).unwrap_err().code, 4001);
    // A fixstr that announces more bytes than it has.
    assert_eq!(do_get(&db, &[0xa4, b'd']).unwrap_err().code, 4001);
    // Invalid UTF-8.
    assert_eq!(do_get(&db, &[0xa1, 0xff]).unwrap_err().code, 4001);
}

#[test]
fn handler_table() {
    let table = handler_methods();
    assert_eq!(choose_method(&table, MethodKind::Create.as_code()), Some(Handler::CreateItem));
    assert_eq!(choose_method(&table, 201), Some(Handler::SetValue));
    assert_eq!(choose_method(&table, 301), Some(Handler::GetValue));
    assert_eq!(choose_method(&table, MethodKind::Range.as_code()), None);
    assert_eq!(choose_method(&table, MethodKind::Query.as_code()), None);
    assert_eq!(choose_method(&table, 0), None);
    let m = TSMethod::new(MethodKind::Query, Handler::GetValue);
    assert_eq!(m.code, 303);
}

#[test]
fn exception_codes() {
    assert_eq!(ExceptionKind::ParamParseError.as_code(), 4001);
    assert_eq!(ExceptionKind::TSNameExistsError.as_code(), 4002);
    assert_eq!(ExceptionKind::QueueIsNullError.as_code(), 4003);
    assert_eq!(ExceptionKind::TimeSerieError.as_code(), 4004);
    assert_eq!(ExceptionKind::SaveTypeError.as_code(), 4005);
    assert_eq!(ExceptionKind::TSNameNotFoundError.as_code(), 4006);
    let e = Exception::err(ExceptionKind::ConnectionFatalError, "reset");
    assert!(e.is_fatal());
    assert_eq!(e.msg, "reset");
    let ok = e.ok("done");
    assert_eq!((ok.code, ok.msg.as_str()), (0, "done"));
    assert!(!Exception::new(4001, "x").is_fatal());
}
