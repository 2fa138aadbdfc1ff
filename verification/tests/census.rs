use service_controller::census::{Census, CensusList};

#[test]
fn empty_snapshot_knows_no_group() {
    let list = CensusList::new();
    assert_eq!(list.get(&"redis.default".to_string()), None);
    assert_eq!(list.get(&String::new()), None);
}

#[test]
fn inserted_census_is_found_under_its_key() {
    let mut list = CensusList::new();
    list.insert("redis.default".to_string(), Census::new(true, false, false, None));
    list.insert(
        "postgres.prod".to_string(),
        Census::new(false, false, true, Some("node-3".to_string())),
    );
    assert_eq!(
        list.get(&"redis.default".to_string()),
        Some(&Census::new(true, false, false, None))
    );
    assert_eq!(
        list.get(&"postgres.prod".to_string()),
        Some(&Census::new(false, false, true, Some("node-3".to_string())))
    );
    assert_eq!(list.get(&"redis.prod".to_string()), None);
}

#[test]
fn later_census_replaces_the_earlier_one() {
    let mut list = CensusList::new();
    list.insert("a.b".to_string(), Census::new(true, false, false, None));
    list.insert("c.d".to_string(), Census::new(false, true, false, None));
    list.insert("a.b".to_string(), Census::new(false, false, true, Some("n".to_string())));
    assert_eq!(
        list.get(&"a.b".to_string()),
        Some(&Census::new(false, false, true, Some("n".to_string())))
    );
    assert_eq!(list.get(&"c.d".to_string()), Some(&Census::new(false, true, false, None)));
    list.insert("c.d".to_string(), Census::new(false, false, false, None));
    assert_eq!(list.get(&"c.d".to_string()), Some(&Census::new(false, false, false, None)));
    assert_eq!(
        list.get(&"a.b".to_string()),
        Some(&Census::new(false, false, true, Some("n".to_string())))
    );
}
