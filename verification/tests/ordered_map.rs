use indexmap::IndexMap;
use virtual_server::deep::{clone_vec, DeepClone};
use virtual_server::ordered_map::OrderedMap;

fn entries(map: &OrderedMap<i32>) -> Vec<(String, i32)> {
    let mut out = Vec::new();
    let mut i = 0;
    while let Some((k, v)) = map.get_index(i) {
        out.push((k.clone(), *v));
        i += 1;
    }
    out
}

#[test]
fn insert_keeps_the_place_of_a_key_that_is_there() {
    let mut map = OrderedMap::new();
    assert!(map.is_empty());
    assert_eq!(map.insert("a".to_string(), 1), None);
    assert_eq!(map.insert("b".to_string(), 2), None);
    assert_eq!(map.insert("a".to_string(), 3), Some(1));
    assert_eq!(map.insert("c".to_string(), 4), None);
    assert_eq!(map.len(), 3);
    assert!(!map.is_empty());
    assert_eq!(
        entries(&map),
        vec![
            ("a".to_string(), 3),
            ("b".to_string(), 2),
            ("c".to_string(), 4)
        ]
    );
    assert_eq!(map.get("b"), Some(&2));
    assert_eq!(map.get("z"), None);
    assert!(map.contains_key("c"));
    assert!(!map.contains_key(""));
    assert_eq!(map.get_index_of("c"), Some(2));
    assert_eq!(map.get_index_of("d"), None);
    assert!(map.get_index(3).is_none());
}

#[test]
fn shift_remove_moves_the_later_entries_down() {
    let mut map = OrderedMap::new();
    for (i, k) in ["a", "b", "c", "d"].iter().enumerate() {
        map.insert(k.to_string(), i as i32);
    }
    assert_eq!(map.shift_remove("b"), Some(1));
    assert_eq!(map.shift_remove("b"), None);
    assert_eq!(
        entries(&map),
        vec![
            ("a".to_string(), 0),
            ("c".to_string(), 2),
            ("d".to_string(), 3)
        ]
    );
    assert_eq!(map.get_index_of("d"), Some(2));
    assert_eq!(map.insert("b".to_string(), 9), None);
    assert_eq!(map.get_index_of("b"), Some(3));
}

#[test]
fn behaves_as_an_index_map_does() {
    let mut ours: OrderedMap<i32> = OrderedMap::new();
    let mut theirs: IndexMap<String, i32> = IndexMap::new();
    let mut seed: u32 = 12345;
    for step in 0..2000 {
        seed = seed.wrapping_mul(1664525).wrapping_add(1013904223);
        let key = format!("k{}", (seed >> 16) % 23);
        if (seed >> 8) % 3 == 0 {
            assert_eq!(ours.shift_remove(&key), theirs.shift_remove(&key));
        } else {
            assert_eq!(ours.insert(key.clone(), step), theirs.insert(key, step));
        }
        assert_eq!(ours.len(), theirs.len());
    }
    let expected: Vec<(String, i32)> = theirs.iter().map(|(k, v)| (k.clone(), *v)).collect();
    assert_eq!(entries(&ours), expected);
    for (k, v) in theirs.iter() {
        assert_eq!(ours.get(k), Some(v));
        assert_eq!(ours.get_index_of(k), theirs.get_index_of(k));
    }
}

#[test]
fn deep_clone_copies_every_entry_in_order() {
    let mut map: OrderedMap<String> = OrderedMap::new();
    map.insert("x".to_string(), "1".to_string());
    map.insert("y".to_string(), "2".to_string());
    let mut copy = map.deep_clone();
    copy.insert("z".to_string(), "3".to_string());
    assert_eq!(map.len(), 2);
    assert_eq!(copy.len(), 3);
    assert_eq!(copy.get_index(0).unwrap().0, "x");
    assert_eq!(copy.get("y"), Some(&"2".to_string()));
    let v = vec![Some("a".to_string()), None];
    assert_eq!(clone_vec(&v), v);
}
