use cypher::entity::{Entity, Node, PropType, Props, Relation};
use cypher::query::create_query::CreateQuery;
use cypher::query::finalize::FinalizeTrait;
use cypher::query::match_query::MatchActionTrait;
use cypher::query::return_query::ReturnTrait;
use cypher::query::{create_method, Query, QueryError, QueryTrait};

fn bob() -> Props {
    let mut props = Props::new();
    props.insert("name".to_string(), PropType::str("Bob"));
    props.insert("age".to_string(), PropType::integer("30"));
    props
}

fn person(props: Option<Props>, labels: Option<Vec<String>>) -> Entity<'static> {
    Entity::from(Node::new("n", "Person", props, labels))
}

fn created(entities: Vec<&Entity>) -> String {
    Query::init().create(entities).unwrap().finalize()
}

#[test]
fn create_node_with_properties() {
    let n = person(Some(bob()), Some(Vec::new()));
    assert_eq!(created(vec![&n]), "CREATE (n:Person { name: 'Bob',age: 30 })");
}

#[test]
fn create_node_without_properties() {
    let n = person(None, None);
    assert_eq!(created(vec![&n]), "CREATE (n:Person)");
    let n = person(None, Some(Vec::new()));
    assert_eq!(created(vec![&n]), "CREATE (n:Person)");
}

#[test]
fn create_node_with_empty_property_map() {
    let n = person(Some(Props::new()), None);
    assert_eq!(created(vec![&n]), "CREATE (n:Person)");
}

#[test]
fn create_node_with_label() {
    let n = person(Some(bob()), Some(vec!["Employee".to_string()]));
    assert_eq!(created(vec![&n]), "CREATE (n:Person { name: 'Bob',age: 30 })\nSET n:Employee");
}

#[test]
fn create_node_with_labels_and_no_properties() {
    let n = person(None, Some(vec!["Employee".to_string(), "Manager".to_string()]));
    assert_eq!(created(vec![&n]), "CREATE (n:Person)\nSET n:Employee\nSET n:Manager");
}

#[test]
fn create_omits_null_properties() {
    let mut props = Props::new();
    props.insert("nick".to_string(), PropType::Null);
    props.insert("name".to_string(), PropType::str("Bob"));
    props.insert("email".to_string(), PropType::from_type("String", None));
    let n = person(Some(props), None);
    let query = created(vec![&n]);
    assert_eq!(query, "CREATE (n:Person { name: 'Bob' })");
    assert!(!query.contains("NULL"));
    assert!(!query.contains("nick"));
}

#[test]
fn create_with_null_properties_only_keeps_the_braces() {
    let mut props = Props::new();
    props.insert("nick".to_string(), PropType::Null);
    let n = person(Some(props), None);
    assert_eq!(created(vec![&n]), "CREATE (n:Person {  })");
}

#[test]
fn create_several_nodes_on_lines_of_their_own() {
    let n = person(Some(bob()), Some(vec!["Employee".to_string()]));
    let m = Entity::from(Node::new("m", "City", None, None));
    let k = Entity::from(Node::new("k", "Dog", None, Some(vec!["Pet".to_string()])));
    assert_eq!(
        created(vec![&n, &m, &k]),
        "CREATE (n:Person { name: 'Bob',age: 30 })\nSET n:Employee\nCREATE (m:City)\nCREATE (k:Dog)\nSET k:Pet"
    );
}

#[test]
fn create_nothing_writes_nothing() {
    assert_eq!(created(Vec::new()), "");
}

#[test]
fn create_relation_without_properties() {
    let rel = Entity::from(Relation::new(
        Node::new("a", "Person", Some(bob()), None),
        Node::new("b", "City", None, None),
        "LIVES_IN",
        None,
    ));
    assert_eq!(created(vec![&rel]), "CREATE (a)-[:LIVES_IN]->(b)");
}

#[test]
fn create_relation_with_properties() {
    let mut props = Props::new();
    props.insert("since".to_string(), PropType::integer("2020"));
    props.insert("until".to_string(), PropType::Null);
    let rel = Entity::from(Relation::new(
        Node::new("a", "Person", None, None),
        Node::new("b", "City", None, None),
        "LIVES_IN",
        Some(props),
    ));
    assert_eq!(created(vec![&rel]), "CREATE (a)-[:LIVES_IN { since: 2020 }]->(b)");
}

#[test]
fn create_nodes_and_their_relation() {
    let a = Entity::from(Node::new("a", "Person", None, None));
    let b = Entity::from(Node::new("b", "City", None, None));
    let rel = Entity::from(Relation::new(
        Node::new("a", "Person", None, None),
        Node::new("b", "City", None, None),
        "LIVES_IN",
        None,
    ));
    assert_eq!(
        created(vec![&a, &b, &rel]),
        "CREATE (a:Person)\nCREATE (b:City)\nCREATE (a)-[:LIVES_IN]->(b)"
    );
}

#[test]
fn create_fails_for_a_node_without_type_name() {
    let nameless = Entity::from(Node::new("n", "", Some(bob()), None));
    let result = Query::init().create(vec![&nameless]);
    assert!(matches!(result, Err(QueryError::MissingLabel)));
    let n = person(None, None);
    let result = Query::init().create(vec![&n, &nameless]);
    assert!(matches!(result, Err(QueryError::MissingLabel)));
}

#[test]
fn create_does_not_ask_a_relation_for_labels() {
    let rel = Entity::from(Relation::new(
        Node::new("a", "", None, None),
        Node::new("b", "", None, None),
        "KNOWS",
        None,
    ));
    assert_eq!(created(vec![&rel]), "CREATE (a)-[:KNOWS]->(b)");
}

#[test]
fn missing_label_has_a_message() {
    assert_eq!(QueryError::MissingLabel.message(), "node has no label to create it under");
}

#[test]
fn create_goes_behind_the_text_that_is_there() {
    let n = person(None, None);
    let query = Query::new("MATCH (m:City)".to_string()).create(vec![&n]).unwrap().finalize();
    assert_eq!(query, "MATCH (m:City)\nCREATE (n:Person)");
    let query = create_method("", vec![&n]).unwrap().finalize();
    assert_eq!(query, "CREATE (n:Person)");
}

#[test]
fn create_then_return() {
    let n = person(Some(bob()), None);
    let query = Query::init().create(vec![&n]).unwrap().return_("n", None).finalize();
    assert_eq!(query, "CREATE (n:Person { name: 'Bob',age: 30 })\nRETURN n");
}

#[test]
fn entity_from_node_keeps_the_node() {
    let n = Entity::from(Node::new("x", "Thing", Some(bob()), Some(vec!["L".to_string()])));
    match n {
        Entity::Node { nv, node_name, props, labels } => {
            assert_eq!(nv, "x");
            assert_eq!(node_name, "Thing");
            assert_eq!(props.unwrap().len(), 2);
            assert_eq!(labels.unwrap(), vec!["L".to_string()]);
        }
        Entity::Relation { .. } => panic!("a node was converted"),
    }
}

#[test]
fn entity_from_relation_keeps_the_relation() {
    let rel = Entity::from(Relation::new(
        Node::new("a", "Person", None, None),
        Node::new("b", "City", None, None),
        "LIVES_IN",
        Some(bob()),
    ));
    match rel {
        Entity::Relation { from, to, name, props } => {
            assert_eq!(from.nv(), "a");
            assert_eq!(to.node_name(), "City");
            assert_eq!(name, "LIVES_IN");
            assert_eq!(props.unwrap().len(), 2);
        }
        Entity::Node { .. } => panic!("a relation was converted"),
    }
}

#[test]
fn what_was_created_can_be_changed() {
    let n = person(None, None);
    let stage = Query::init().create(vec![&n]).unwrap();
    assert_eq!(stage.set("age", PropType::integer("3")).finalize(), "CREATE (n:Person)\nSET n.age=3");
    assert_eq!(stage.set_str("name", "Tom").finalize(), "CREATE (n:Person)\nSET n.name='Tom'");
    assert_eq!(stage.set_int("age", -1).finalize(), "CREATE (n:Person)\nSET n.age=-1");
    assert_eq!(stage.set_bool("ok", true).finalize(), "CREATE (n:Person)\nSET n.ok=true");
    assert_eq!(stage.set_var("m", "a", PropType::Null).finalize(), "CREATE (n:Person)\nSET m.a=NULL");
    assert_eq!(stage.set_str_var("m", "a", "x").finalize(), "CREATE (n:Person)\nSET m.a='x'");
    assert_eq!(stage.set_int_var("m", "a", 7).finalize(), "CREATE (n:Person)\nSET m.a=7");
    assert_eq!(stage.set_bool_var("m", "a", false).finalize(), "CREATE (n:Person)\nSET m.a=false");
    assert_eq!(stage.delete().finalize(), "CREATE (n:Person)\nDELETE n");
    assert_eq!(stage.delete_detach().finalize(), "CREATE (n:Person)\nDETACH DELETE n");
    assert_eq!(stage.finalize(), "CREATE (n:Person)");
}

#[test]
fn actions_behind_a_creation_speak_of_the_first_entity() {
    let n = person(None, None);
    let m = Entity::from(Node::new("m", "City", None, None));
    let stage = Query::init().create(vec![&m, &n]).unwrap();
    assert_eq!(stage.delete().finalize(), "CREATE (m:City)\nCREATE (n:Person)\nDELETE m");
    let rel = Entity::from(Relation::new(
        Node::new("a", "Person", None, None),
        Node::new("b", "City", None, None),
        "LIVES_IN",
        None,
    ));
    let stage = Query::init().create(vec![&rel, &n]).unwrap();
    assert_eq!(
        stage.set_int("x", 1).finalize(),
        "CREATE (a)-[:LIVES_IN]->(b)\nCREATE (n:Person)\nSET .x=1"
    );
    let stage = Query::init().create(Vec::new()).unwrap();
    assert_eq!(stage.delete().finalize(), "\nDELETE ");
}

#[test]
fn create_return_many_and_field() {
    let n = person(None, None);
    let stage = Query::init().create(vec![&n]).unwrap();
    assert_eq!(stage.return_many(vec!["n", "m"]).finalize(), "CREATE (n:Person)\nRETURN n,m");
    assert_eq!(stage.return_field("n", "age").finalize(), "CREATE (n:Person)\nRETURN n.age");
}

#[test]
fn create_stage_can_be_made_from_text() {
    let stage = CreateQuery::new("x".to_string(), "CREATE (x:T)".to_string());
    assert_eq!(stage.finalize(), "CREATE (x:T)");
    assert_eq!(stage.set_int("a", 1).finalize(), "CREATE (x:T)\nSET x.a=1");
    assert_eq!(stage.return_("x", None).finalize(), "CREATE (x:T)\nRETURN x");
}
