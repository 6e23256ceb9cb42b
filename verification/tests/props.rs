use cypher::entity::{Node, PropType, Props, Relation};
use cypher::query::props_to_string;

#[test]
fn new_map_is_empty() {
    let props = Props::new();
    assert_eq!(props.len(), 0);
    assert!(props.is_empty());
    assert!(props.get("name").is_none());
    assert!(!props.contains_key("name"));
}

#[test]
fn insert_keeps_the_order_of_insertion() {
    let mut props = Props::new();
    assert!(props.insert("b".to_string(), PropType::integer("1")).is_none());
    assert!(props.insert("a".to_string(), PropType::integer("2")).is_none());
    assert!(props.insert("c".to_string(), PropType::integer("3")).is_none());
    assert_eq!(props.len(), 3);
    assert_eq!(props.key_at(0), "b");
    assert_eq!(props.key_at(1), "a");
    assert_eq!(props.key_at(2), "c");
    assert_eq!(props.value_at(1).to_prop(), "2");
}

#[test]
fn insert_replaces_in_place_and_returns_the_old_value() {
    let mut props = Props::new();
    props.insert("name".to_string(), PropType::str("Bob"));
    props.insert("age".to_string(), PropType::integer("30"));
    let old = props.insert("name".to_string(), PropType::str("Tom"));
    assert_eq!(old.unwrap().to_prop(), "'Bob'");
    assert_eq!(props.len(), 2);
    assert_eq!(props.key_at(0), "name");
    assert_eq!(props.get("name").unwrap().to_prop(), "'Tom'");
    assert_eq!(props_to_string(&props), "name: 'Tom',age: 30");
}

#[test]
fn get_finds_by_name() {
    let mut props = Props::new();
    props.insert("name".to_string(), PropType::str("Bob"));
    props.insert("age".to_string(), PropType::integer("30"));
    assert_eq!(props.get("age").unwrap().to_prop(), "30");
    assert!(props.contains_key("name"));
    assert!(props.get("Name").is_none());
    assert!(!props.is_empty());
}

#[test]
fn block_omits_null_values() {
    let mut props = Props::new();
    props.insert("a".to_string(), PropType::Null);
    props.insert("name".to_string(), PropType::str("Bob"));
    props.insert("b".to_string(), PropType::Null);
    props.insert("age".to_string(), PropType::integer("30"));
    props.insert("c".to_string(), PropType::str_arr(None));
    assert_eq!(props_to_string(&props), "name: 'Bob',age: 30");
}

#[test]
fn block_of_null_values_only_is_empty() {
    let mut props = Props::new();
    props.insert("a".to_string(), PropType::Null);
    props.insert("b".to_string(), PropType::Null);
    assert_eq!(props_to_string(&props), "");
    assert_eq!(props_to_string(&Props::new()), "");
}

#[test]
fn block_keeps_values_that_only_read_like_null() {
    let mut props = Props::new();
    props.insert("a".to_string(), PropType::integer("NULL"));
    props.insert("b".to_string(), PropType::str("NULL"));
    assert_eq!(props_to_string(&props), "a: NULL,b: 'NULL'");
}

#[test]
fn block_of_one_entry_has_no_comma() {
    let mut props = Props::new();
    props.insert("active".to_string(), PropType::Bool(true));
    assert_eq!(props_to_string(&props), "active: true");
}

#[test]
fn block_reads_back_to_its_entries() {
    let mut props = Props::new();
    props.insert("name".to_string(), PropType::str("Bob"));
    props.insert("gone".to_string(), PropType::Null);
    props.insert("age".to_string(), PropType::integer("30"));
    props.insert("active".to_string(), PropType::Bool(false));
    props.insert("tags".to_string(), PropType::Array(vec![PropType::str("a")]));
    let text = props_to_string(&props);
    let read: Vec<(String, String)> = text
        .split(',')
        .map(|piece| {
            let at = piece.find(':').unwrap();
            (piece[..at].to_string(), piece[at + 2..].to_string())
        })
        .collect();
    let mut written: Vec<(String, String)> = Vec::new();
    for i in 0..props.len() {
        if *props.value_at(i) != PropType::Null {
            written.push((props.key_at(i).to_string(), props.value_at(i).to_prop()));
        }
    }
    assert_eq!(read, written);
    assert_eq!(read.len(), 4);
    assert_eq!(read[0], ("name".to_string(), "'Bob'".to_string()));
    assert_eq!(read[3], ("tags".to_string(), "['a']".to_string()));
}

#[test]
fn node_hands_back_what_it_was_made_of() {
    let mut props = Props::new();
    props.insert("name".to_string(), PropType::str("Bob"));
    let node = Node::new("n", "Person", Some(props), Some(vec!["Employee".to_string()]));
    assert_eq!(node.nv(), "n");
    assert_eq!(node.node_name(), "Person");
    assert_eq!(node.props().as_ref().unwrap().len(), 1);
    assert_eq!(node.labels().as_ref().unwrap(), &vec!["Employee".to_string()]);
    let bare = Node::new("m", "City", None, None);
    assert!(bare.props().is_none());
    assert!(bare.labels().is_none());
}

#[test]
fn node_labels_can_be_added_and_read() {
    let mut node = Node::new("n", "Person", None, None);
    assert!(node.get_label(0).is_none());
    node.add_label("Employee".to_string());
    node.add_label("Manager".to_string());
    assert_eq!(node.get_label(0).unwrap(), "Employee");
    assert_eq!(node.get_label(1).unwrap(), "Manager");
    assert!(node.get_label(2).is_none());
    assert_eq!(node.labels().as_ref().unwrap().len(), 2);
}

#[test]
fn relation_hands_back_what_it_was_made_of() {
    let from = Node::new("a", "Person", None, None);
    let to = Node::new("b", "City", None, None);
    let rel = Relation::new(from, to, "LIVES_IN", None);
    assert_eq!(rel.from_node().nv(), "a");
    assert_eq!(rel.from_node().node_name(), "Person");
    assert_eq!(rel.to_node().nv(), "b");
    assert_eq!(rel.to_node().node_name(), "City");
    assert_eq!(rel.name(), "LIVES_IN");
    assert!(rel.props().is_none());
}
