use bevy_rapier3d_plugin::name_map::JointBodyBuilderHashMap;

#[test]
fn an_empty_map_resolves_nothing() {
    let map = JointBodyBuilderHashMap::new();
    assert_eq!(map.get(&String::from("chassis")), None);
    assert_eq!(map.len(), 0);
}

#[test]
fn upsert_registers_a_name() {
    let mut map = JointBodyBuilderHashMap::new();
    map.upsert(&String::from("chassis"), 7);
    assert_eq!(map.get(&String::from("chassis")), Some(7));
    assert_eq!(map.get(&String::from("wheel_L")), None);
    assert_eq!(map.len(), 1);
}

#[test]
fn upsert_of_the_same_name_is_last_write_wins() {
    let mut map = JointBodyBuilderHashMap::new();
    map.upsert(&String::from("wheel_L"), 3);
    map.upsert(&String::from("wheel_L"), 9);
    assert_eq!(map.get(&String::from("wheel_L")), Some(9));
    assert_eq!(map.len(), 1);
}

#[test]
fn renaming_leaves_the_old_claim_in_place() {
    let mut map = JointBodyBuilderHashMap::new();
    map.upsert(&String::from("wheel_L"), 5);
    // Renaming only registers the new name; the old entry is never pruned
    // and keeps resolving until something re-registers it.
    map.upsert(&String::from("wheel_left"), 5);
    assert_eq!(map.get(&String::from("wheel_L")), Some(5));
    assert_eq!(map.get(&String::from("wheel_left")), Some(5));
    assert_eq!(map.len(), 2);
}

#[test]
fn distinct_names_keep_distinct_claims() {
    let mut map = JointBodyBuilderHashMap::new();
    map.upsert(&String::from("wheel_L"), 3);
    map.upsert(&String::from("wheel_R"), 4);
    map.upsert(&String::from("wheel_L"), 5);
    assert_eq!(map.get(&String::from("wheel_L")), Some(5));
    assert_eq!(map.get(&String::from("wheel_R")), Some(4));
    assert_eq!(map.len(), 2);
}
