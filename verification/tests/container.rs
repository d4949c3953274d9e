use serde_map::{Linear, SerdeMap};

fn sample() -> SerdeMap<String, u32> {
    let mut map: SerdeMap<String, u32> = SerdeMap::new();
    map.insert_unchecked("b".to_string(), 2);
    map.insert_unchecked("a".to_string(), 1);
    map.insert_unchecked("b".to_string(), 3);
    map
}

#[test]
fn new_is_empty() {
    let map: SerdeMap<String, u32> = SerdeMap::new();
    assert_eq!(map.len(), 0);
    assert!(map.is_empty());
    assert!(map.0.is_empty());
}

#[test]
fn with_capacity_is_empty_too() {
    let map: SerdeMap<String, u32> = SerdeMap::with_capacity(16);
    assert_eq!(map.len(), 0);
    assert!(map.is_empty());
    let none: SerdeMap<String, u32> = SerdeMap::with_capacity(0);
    assert!(none.is_empty());
}

#[test]
fn default_is_empty() {
    let map: SerdeMap<u8, u8, Linear> = Default::default();
    assert!(map.is_empty());
}

#[test]
fn len_counts_every_insertion() {
    let mut map: SerdeMap<u8, u8> = SerdeMap::new();
    for i in 0..100u8 {
        assert_eq!(map.len(), i as usize);
        map.insert_unchecked(i % 3, i);
    }
    assert_eq!(map.len(), 100);
    assert!(!map.is_empty());
}

#[test]
fn insertion_keeps_order_and_duplicates() {
    let map = sample();
    assert_eq!(map.len(), 3);
    assert_eq!(
        map.0,
        vec![("b".to_string(), 2), ("a".to_string(), 1), ("b".to_string(), 3)]
    );
}

#[test]
fn into_vec_gives_the_pairs_in_order() {
    assert_eq!(
        sample().into_vec(),
        vec![("b".to_string(), 2), ("a".to_string(), 1), ("b".to_string(), 3)]
    );
}

#[test]
fn iterates_by_value_in_insertion_order() {
    let mut seen = Vec::new();
    for (k, v) in sample() {
        seen.push((k, v));
    }
    assert_eq!(
        seen,
        vec![("b".to_string(), 2), ("a".to_string(), 1), ("b".to_string(), 3)]
    );
}

#[test]
fn iterates_by_reference_in_insertion_order() {
    let map = sample();
    let mut seen = Vec::new();
    for (k, v) in &map {
        seen.push((k.as_str(), *v));
    }
    assert_eq!(seen, vec![("b", 2), ("a", 1), ("b", 3)]);
    assert_eq!(map.len(), 3);
}

#[test]
fn iterates_by_mutable_reference_and_changes_values() {
    let mut map = sample();
    for (_, v) in &mut map {
        *v *= 10;
    }
    assert_eq!(
        map.0,
        vec![("b".to_string(), 20), ("a".to_string(), 10), ("b".to_string(), 30)]
    );
    let mut count = 0;
    for pair in &mut map {
        pair.0.push('!');
        count += 1;
    }
    assert_eq!(count, 3);
    assert_eq!(map.0[1].0, "a!");
}

#[test]
fn mutable_iteration_hands_out_each_pair_in_its_place() {
    let mut map = sample();
    let handed: Vec<&mut (String, u32)> = (&mut map).into_iter().collect();
    assert_eq!(handed.len(), 3);
    assert_eq!(*handed[0], ("b".to_string(), 2));
    assert_eq!(*handed[1], ("a".to_string(), 1));
    assert_eq!(*handed[2], ("b".to_string(), 3));
    for (place, pair) in handed.into_iter().enumerate() {
        pair.1 = place as u32;
    }
    assert_eq!(
        map.0,
        vec![("b".to_string(), 0), ("a".to_string(), 1), ("b".to_string(), 2)]
    );
    let mut empty: SerdeMap<String, u32> = SerdeMap::new();
    assert_eq!((&mut empty).into_iter().count(), 0);
}

#[test]
fn from_vec_keeps_the_pairs() {
    let pairs = vec![(3u8, 'c'), (1, 'a'), (3, 'd')];
    let map: SerdeMap<u8, char> = SerdeMap::from(pairs.clone());
    assert_eq!(map.len(), 3);
    assert_eq!(map.0, pairs);
    let empty: SerdeMap<u8, char> = SerdeMap::from(Vec::new());
    assert!(empty.is_empty());
}

#[test]
fn clone_has_the_same_pairs() {
    let map = sample();
    let copy = map.clone();
    assert_eq!(copy.0, map.0);
}

#[test]
fn collect_entries_takes_all_where_none_failed() {
    let entries: Vec<Result<(u8, u8), String>> = vec![Ok((1, 2)), Ok((1, 3)), Ok((0, 4))];
    let map: SerdeMap<u8, u8> = SerdeMap::collect_entries(entries).unwrap();
    assert_eq!(map.0, vec![(1, 2), (1, 3), (0, 4)]);
    let none: Vec<Result<(u8, u8), String>> = Vec::new();
    let map: SerdeMap<u8, u8> = SerdeMap::collect_entries(none).unwrap();
    assert!(map.is_empty());
}

#[test]
fn collect_entries_stops_at_the_first_failure() {
    let entries: Vec<Result<(u8, u8), String>> = vec![
        Ok((1, 2)),
        Err("first".to_string()),
        Ok((0, 4)),
        Err("second".to_string()),
    ];
    let r: Result<SerdeMap<u8, u8>, String> = SerdeMap::collect_entries(entries);
    assert_eq!(r.unwrap_err(), "first");
}
