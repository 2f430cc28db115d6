use space_kit::hierarchy::{Hierarchy, HierarchyError};

#[derive(Debug, Default, Clone, Copy, Hash, PartialEq, Eq)]
struct TestKey(u64);

#[test]
fn default() {
    let _h: Hierarchy<TestKey, f32> = Default::default();
}

#[test]
fn clear() {
    let mut h: Hierarchy<TestKey, f32> = Hierarchy::default();
    assert_eq!(h.len(), 0);
    assert!(h.is_empty());
    let key = TestKey(1);
    h.insert(key.clone(), 2.0);
    assert!(h.has(&key));
    assert_eq!(h.len(), 1);
    assert!(!h.is_empty());
    h.clear();
    assert!(!h.has(&key));
    assert_eq!(h.len(), 0);
    assert!(h.is_empty());
}

#[test]
fn insertion_existence_and_deletion() {
    let mut h: Hierarchy<TestKey, f32> = Default::default();
    let key = TestKey(1);
    assert!(!h.has(&key));

    h.insert(key.clone(), 2.0);
    assert!(h.has(&key));
    assert!(h.remove(key).is_ok());
    assert!(!h.has(&key));
    assert!(h.remove(key).is_err());
}

#[test]
fn update() {
    let mut h: Hierarchy<TestKey, f32> = Default::default();

    h.insert(TestKey(1), 1.0);
    h.insert(TestKey(2), 2.0);
    h.insert_child(&TestKey(1), TestKey(3), 3.0).unwrap();
    h.insert_child(&TestKey(1), TestKey(4), 4.0).unwrap();
    h.insert_child(&TestKey(2), TestKey(5), 5.0).unwrap();
    h.insert_child(&TestKey(2), TestKey(6), 6.0).unwrap();

    assert_eq!(h.len(), 6);
    assert!(!h.is_empty());

    h.update(&|_id, _value, parent_value| Some(parent_value + 1.0));
    h.update(&|_id, value, parent_value| {
        assert_eq!(*value, parent_value + 1.0);
        Some(*value)
    });
}

#[test]
fn iteration() {
    let mut h: Hierarchy<TestKey, f32> = Default::default();

    h.insert(TestKey(1), 1.0);
    h.insert(TestKey(2), 2.0);
    h.insert_child(&TestKey(1), TestKey(3), 3.0).unwrap();
    h.insert_child(&TestKey(1), TestKey(4), 4.0).unwrap();
    h.insert_child(&TestKey(2), TestKey(5), 5.0).unwrap();
    h.insert_child(&TestKey(2), TestKey(6), 6.0).unwrap();

    assert_eq!(h.iter().len(), 6);
    assert_eq!(h.iter().iter().map(|(_, v)| **v).sum::<f32>(), 21.0);
}

#[test]
fn update_gives_each_node_its_parents_new_data() {
    let mut h: Hierarchy<TestKey, f32> = Default::default();
    h.insert(TestKey(1), 10.0);
    h.insert_child(&TestKey(1), TestKey(2), 20.0).unwrap();
    h.insert_child(&TestKey(2), TestKey(3), 30.0).unwrap();
    h.update(&|_id, value, parent_value| Some(value + parent_value));
    let values: Vec<f32> = h.iter().iter().map(|(_, v)| **v).collect();
    // The root's children get the default parent data 0; each other node its parent's new data.
    assert_eq!(values, vec![10.0, 30.0, 60.0]);
}

#[test]
fn update_keeps_the_data_where_the_closure_gives_none() {
    let mut h: Hierarchy<TestKey, f32> = Default::default();
    h.insert(TestKey(1), 1.0);
    h.insert_child(&TestKey(1), TestKey(2), 2.0).unwrap();
    h.update(&|_id, _value, _parent_value| None);
    let values: Vec<f32> = h.iter().iter().map(|(_, v)| **v).collect();
    assert_eq!(values, vec![1.0, 2.0]);
}

#[test]
fn inserting_under_an_unknown_parent_fails_and_changes_nothing() {
    let mut h: Hierarchy<TestKey, f32> = Default::default();
    h.insert(TestKey(1), 1.0);
    assert_eq!(h.insert_child(&TestKey(7), TestKey(2), 2.0), Err(HierarchyError::KeyNotFound));
    assert_eq!(h.len(), 1);
    assert!(!h.has(&TestKey(2)));
}

#[test]
fn removing_a_node_keeps_its_children_and_the_other_nodes() {
    let mut h: Hierarchy<TestKey, f32> = Default::default();
    h.insert(TestKey(1), 1.0);
    h.insert_child(&TestKey(1), TestKey(2), 2.0).unwrap();
    h.insert(TestKey(3), 3.0);
    assert!(h.remove(TestKey(1)).is_ok());
    assert!(!h.has(&TestKey(1)));
    assert!(h.has(&TestKey(2)));
    assert!(h.has(&TestKey(3)));
    assert_eq!(h.len(), 2);
    // The last node takes the removed node's place.
    let keys: Vec<TestKey> = h.iter().iter().map(|(k, _)| **k).collect();
    assert_eq!(keys, vec![TestKey(3), TestKey(2)]);
}

#[test]
fn a_hierarchy_is_rebuilt_from_its_parts() {
    let mut h: Hierarchy<TestKey, f32> = Default::default();
    h.insert(TestKey(1), 1.0);
    h.insert_child(&TestKey(1), TestKey(2), 2.0).unwrap();
    let keys: Vec<Option<TestKey>> = h.node_entries().iter().map(|n| n.map(|(k, _)| *k)).collect();
    let data: Vec<Option<f32>> = h.node_entries().iter().map(|n| n.map(|(_, v)| *v)).collect();
    assert_eq!(keys, vec![None, Some(TestKey(1)), Some(TestKey(2))]);
    let mut edges = h.edge_list();
    edges.sort();
    assert_eq!(edges, vec![(0, 1), (1, 2)]);
    let g = Hierarchy::from_parts(h.root_index(), keys, data, edges).expect("the parts fit");
    assert!(g.has(&TestKey(1)) && g.has(&TestKey(2)));
    assert_eq!(g.len(), 2);
}

#[test]
fn parts_that_do_not_form_a_hierarchy_are_refused() {
    let keys = vec![Some(TestKey(1)), Some(TestKey(2))];
    let data = vec![Some(1.0f32), Some(2.0)];
    assert!(Hierarchy::from_parts(0, keys, data, vec![]).is_none());
    let keys = vec![None, Some(TestKey(1)), Some(TestKey(2))];
    let data = vec![None, Some(1.0f32), Some(2.0)];
    assert!(Hierarchy::from_parts(0, keys.clone(), data.clone(), vec![(1, 2), (2, 1)]).is_none());
    assert!(Hierarchy::from_parts(0, keys.clone(), data.clone(), vec![(0, 1), (0, 1)]).is_none());
    assert!(Hierarchy::from_parts(0, keys, data, vec![(1, 0)]).is_none());
}

#[test]
fn parts_that_fit_and_close_no_cycle_give_the_hierarchy_back() {
    let mut h: Hierarchy<TestKey, f32> = Default::default();
    h.insert(TestKey(1), 1.0);
    h.insert(TestKey(2), 2.0);
    let keys: Vec<Option<TestKey>> = h.node_entries().iter().map(|n| n.map(|(k, _)| *k)).collect();
    let data: Vec<Option<f32>> = h.node_entries().iter().map(|n| n.map(|(_, v)| *v)).collect();
    let r = Hierarchy::from_parts(h.root_index(), keys, data, h.edge_list()).expect("the parts fit");
    assert_eq!(r.len(), 2);
    assert!(r.has(&TestKey(1)) && r.has(&TestKey(2)));
    let pairs: Vec<(TestKey, f32)> = r.iter().iter().map(|(k, v)| (**k, **v)).collect();
    assert_eq!(pairs, vec![(TestKey(1), 1.0), (TestKey(2), 2.0)]);
}

#[test]
fn insert_child_adds_one_key_and_remove_takes_it_away() {
    let mut h: Hierarchy<TestKey, f32> = Default::default();
    h.insert(TestKey(1), 1.0);
    assert!(h.can_grow());
    assert_eq!(h.insert_child(&TestKey(1), TestKey(2), 2.0), Ok(()));
    assert_eq!(h.len(), 2);
    assert_eq!(h.remove(TestKey(2)), Ok(()));
    assert_eq!(h.len(), 1);
    assert!(!h.has(&TestKey(2)));
    assert!(h.has(&TestKey(1)));
}
