use time_cache::entity::{DataType, SaveTimePeriod, TSItem};

#[test]
fn test01() {
    let value = Some(34);
    let last = value.is_some_and(|x| x == 33);
    println!("last = {:?}", last);
    assert!(!last);
}

#[test]
fn test08() {
    let item = TSItem {
        tsName: "key".to_string(),
        capacity: 0,
        datatype: DataType::Float,
        saveTime: SaveTimePeriod::Nerve,
    };
    println!("{:p}", &item);
    demo(Box::new(item))
}

fn demo(item: Box<TSItem>) {
    println!("{:p}", &*item);
    ok(item);
}

fn ok(item: Box<TSItem>) {
    println!("{:p}", &*item);
}
