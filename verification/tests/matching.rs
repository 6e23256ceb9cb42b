use cypher::entity::{Entity, Node, PropType, Relation};
use cypher::query::execute::{Execute, ExecuteTrait};
use cypher::query::finalize::{Finalize, FinalizeTrait};
use cypher::query::match_query::{
    CompOper, MatchActionTrait, MatchConditionQuery, MatchConditionTrait, MatchQuery, MatchTrait,
};
use cypher::query::return_query::{
    return_method, LimitControlTrait, ReturnParamQuery, ReturnParamTrait, ReturnQuery,
    ReturnTrait, SkipControlTrait,
};
use cypher::query::{match_method, Query, QueryTrait};

fn person() -> Entity<'static> {
    Entity::from(Node::new("n", "Person", None, None))
}

fn lives_in() -> Entity<'static> {
    Entity::from(Relation::new(
        Node::new("a", "Person", None, None),
        Node::new("b", "City", None, None),
        "LIVES_IN",
        None,
    ))
}

fn matched() -> MatchQuery {
    Query::init().match_(&person(), false)
}

fn adults() -> MatchConditionQuery {
    matched().where_("age", CompOper::More, PropType::integer("18"))
}

#[test]
fn match_where_and_return() {
    let query = matched()
        .where_("age", CompOper::More, PropType::integer("18"))
        .and("age", CompOper::Less, PropType::integer("65"))
        .return_("n", None)
        .finalize();
    assert_eq!(query, "MATCH (n:Person) WHERE n.age > 18 AND n.age < 65 \nRETURN n");
}

#[test]
fn match_node_ignores_optional() {
    let plain = Query::init().match_(&person(), false).where_eq_int("a", 1).finalize();
    let optional = Query::init().match_(&person(), true).where_eq_int("a", 1).finalize();
    assert_eq!(plain, "MATCH (n:Person) WHERE n.a = 1");
    assert_eq!(optional, plain);
}

#[test]
fn match_relation() {
    let query = Query::init()
        .match_(&lives_in(), false)
        .where_var("a", "name", CompOper::Equal, PropType::str("Bob"))
        .finalize();
    assert_eq!(query, "MATCH (a:Person)-[r:LIVES_IN]->(b:City) WHERE a.name = 'Bob'");
}

#[test]
fn match_relation_optional() {
    let query = Query::init()
        .match_(&lives_in(), true)
        .where_var("b", "name", CompOper::Equal, PropType::str("Rome"))
        .finalize();
    assert_eq!(query, "OPTIONAL MATCH (a:Person)-[r:LIVES_IN]->(b:City) WHERE b.name = 'Rome'");
}

#[test]
fn match_relation_has_no_variable_of_its_own() {
    let query = Query::init().match_(&lives_in(), false).where_eq_int("age", 3).finalize();
    assert_eq!(query, "MATCH (a:Person)-[r:LIVES_IN]->(b:City) WHERE .age = 3");
}

#[test]
fn match_goes_behind_the_text_that_is_there() {
    let query = match_method("CREATE (m:City)", &person(), false)
        .where_eq_bool("active", true)
        .finalize();
    assert_eq!(query, "CREATE (m:City)\nMATCH (n:Person) WHERE n.active = true");
}

#[test]
fn operators_are_written_as_symbols() {
    assert_eq!(CompOper::Equal.to_string(), "=");
    assert_eq!(CompOper::More.to_string(), ">");
    assert_eq!(CompOper::Less.to_string(), "<");
    assert_eq!(CompOper::MoreEqual.to_string(), ">=");
    assert_eq!(CompOper::LessEqual.to_string(), "<=");
}

#[test]
fn where_with_each_operator() {
    let cases = [
        (CompOper::Equal, "="),
        (CompOper::More, ">"),
        (CompOper::Less, "<"),
        (CompOper::MoreEqual, ">="),
        (CompOper::LessEqual, "<="),
    ];
    for (op, symbol) in cases {
        let query = matched().where_("age", op, PropType::integer("18")).finalize();
        assert_eq!(query, format!("MATCH (n:Person) WHERE n.age {} 18", symbol));
    }
}

#[test]
fn where_shorthands() {
    let base = "MATCH (n:Person) WHERE ";
    assert_eq!(matched().where_eq_str("name", "Bob").finalize(), format!("{}n.name = 'Bob'", base));
    assert_eq!(matched().where_eq_int("age", 30).finalize(), format!("{}n.age = 30", base));
    assert_eq!(matched().where_eq_int("age", -3).finalize(), format!("{}n.age = -3", base));
    assert_eq!(matched().where_eq_bool("ok", false).finalize(), format!("{}n.ok = false", base));
    assert_eq!(matched().where_more_int("age", 1).finalize(), format!("{}n.age > 1", base));
    assert_eq!(matched().where_less_int("age", 2).finalize(), format!("{}n.age < 2", base));
    assert_eq!(matched().where_moreq_int("age", 3).finalize(), format!("{}n.age >= 3", base));
    assert_eq!(matched().where_leseq_int("age", 4).finalize(), format!("{}n.age <= 4", base));
}

#[test]
fn where_shorthands_for_another_variable() {
    let base = "MATCH (n:Person) WHERE ";
    assert_eq!(
        matched().where_eq_str_var("m", "name", "Bob").finalize(),
        format!("{}m.name = 'Bob'", base)
    );
    assert_eq!(matched().where_eq_int_var("m", "age", 30).finalize(), format!("{}m.age = 30", base));
    assert_eq!(
        matched().where_eq_bool_var("m", "ok", true).finalize(),
        format!("{}m.ok = true", base)
    );
    assert_eq!(matched().where_more_int_var("m", "age", 1).finalize(), format!("{}m.age > 1", base));
    assert_eq!(matched().where_less_int_var("m", "age", 2).finalize(), format!("{}m.age < 2", base));
    assert_eq!(
        matched().where_moreq_int_var("m", "age", 3).finalize(),
        format!("{}m.age >= 3", base)
    );
    assert_eq!(
        matched().where_leseq_int_var("m", "age", 4).finalize(),
        format!("{}m.age <= 4", base)
    );
}

#[test]
fn and_keeps_a_space_at_the_end() {
    let query = adults().and("name", CompOper::Equal, PropType::str("Bob")).finalize();
    assert_eq!(query, "MATCH (n:Person) WHERE n.age > 18 AND n.name = 'Bob' ");
}

#[test]
fn or_keeps_a_space_at_the_end() {
    let query = adults().or("age", CompOper::LessEqual, PropType::integer("5")).finalize();
    assert_eq!(query, "MATCH (n:Person) WHERE n.age > 18 OR n.age <= 5 ");
}

#[test]
fn and_or_for_another_variable_keep_the_subject() {
    let query = adults()
        .and_var("m", "age", CompOper::MoreEqual, PropType::integer("1"))
        .or_var("k", "age", CompOper::Less, PropType::integer("2"))
        .and("ok", CompOper::Equal, PropType::Bool(true))
        .finalize();
    assert_eq!(
        query,
        "MATCH (n:Person) WHERE n.age > 18 AND m.age >= 1  OR k.age < 2  AND n.ok = true "
    );
}

#[test]
fn and_shorthands() {
    let base = "MATCH (n:Person) WHERE n.age > 18 AND ";
    assert_eq!(adults().and_eq_str("a", "x").finalize(), format!("{}n.a = 'x' ", base));
    assert_eq!(adults().and_eq_int("a", 1).finalize(), format!("{}n.a = 1 ", base));
    assert_eq!(adults().and_eq_bool("a", true).finalize(), format!("{}n.a = true ", base));
    assert_eq!(adults().and_more_int("a", 1).finalize(), format!("{}n.a > 1 ", base));
    assert_eq!(adults().and_less_int("a", 1).finalize(), format!("{}n.a < 1 ", base));
    assert_eq!(adults().and_moreq_int("a", 1).finalize(), format!("{}n.a >= 1 ", base));
    assert_eq!(adults().and_leseq_int("a", 1).finalize(), format!("{}n.a <= 1 ", base));
    assert_eq!(adults().and_eq_str_var("m", "a", "x").finalize(), format!("{}m.a = 'x' ", base));
    assert_eq!(adults().and_eq_int_var("m", "a", 1).finalize(), format!("{}m.a = 1 ", base));
    assert_eq!(adults().and_eq_bool_var("m", "a", false).finalize(), format!("{}m.a = false ", base));
    assert_eq!(adults().and_more_int_var("m", "a", 1).finalize(), format!("{}m.a > 1 ", base));
    assert_eq!(adults().and_less_int_var("m", "a", 1).finalize(), format!("{}m.a < 1 ", base));
    assert_eq!(adults().and_moreq_int_var("m", "a", 1).finalize(), format!("{}m.a >= 1 ", base));
    assert_eq!(adults().and_leseq_int_var("m", "a", 1).finalize(), format!("{}m.a <= 1 ", base));
}

#[test]
fn or_shorthands() {
    let base = "MATCH (n:Person) WHERE n.age > 18 OR ";
    assert_eq!(adults().or_eq_str("a", "x").finalize(), format!("{}n.a = 'x' ", base));
    assert_eq!(adults().or_eq_int("a", 1).finalize(), format!("{}n.a = 1 ", base));
    assert_eq!(adults().or_eq_bool("a", true).finalize(), format!("{}n.a = true ", base));
    assert_eq!(adults().or_more_int("a", 1).finalize(), format!("{}n.a > 1 ", base));
    assert_eq!(adults().or_less_int("a", 1).finalize(), format!("{}n.a < 1 ", base));
    assert_eq!(adults().or_moreq_int("a", 1).finalize(), format!("{}n.a >= 1 ", base));
    assert_eq!(adults().or_leseq_int("a", 1).finalize(), format!("{}n.a <= 1 ", base));
    assert_eq!(adults().or_eq_str_var("m", "a", "x").finalize(), format!("{}m.a = 'x' ", base));
    assert_eq!(adults().or_eq_int_var("m", "a", 1).finalize(), format!("{}m.a = 1 ", base));
    assert_eq!(adults().or_eq_bool_var("m", "a", false).finalize(), format!("{}m.a = false ", base));
    assert_eq!(adults().or_more_int_var("m", "a", 1).finalize(), format!("{}m.a > 1 ", base));
    assert_eq!(adults().or_less_int_var("m", "a", 1).finalize(), format!("{}m.a < 1 ", base));
    assert_eq!(adults().or_moreq_int_var("m", "a", 1).finalize(), format!("{}m.a >= 1 ", base));
    assert_eq!(adults().or_leseq_int_var("m", "a", 1).finalize(), format!("{}m.a <= 1 ", base));
}

#[test]
fn condition_with_array_and_null() {
    let tags = PropType::Array(vec![PropType::str("a"), PropType::str("b")]);
    let query = matched().where_("tags", CompOper::Equal, tags).finalize();
    assert_eq!(query, "MATCH (n:Person) WHERE n.tags = ['a','b']");
    let query = matched().where_("nick", CompOper::Equal, PropType::Null).finalize();
    assert_eq!(query, "MATCH (n:Person) WHERE n.nick = NULL");
}

#[test]
fn delete_the_matched_variable() {
    assert_eq!(adults().delete().finalize(), "MATCH (n:Person) WHERE n.age > 18\nDELETE n");
}

#[test]
fn delete_detach_the_matched_variable() {
    assert_eq!(
        adults().delete_detach().finalize(),
        "MATCH (n:Person) WHERE n.age > 18\nDETACH DELETE n"
    );
}

#[test]
fn set_a_property() {
    assert_eq!(
        adults().set("name", PropType::str("Tom")).finalize(),
        "MATCH (n:Person) WHERE n.age > 18\nSET n.name='Tom'"
    );
    assert_eq!(
        adults().set_var("m", "age", PropType::integer("3")).finalize(),
        "MATCH (n:Person) WHERE n.age > 18\nSET m.age=3"
    );
}

#[test]
fn set_shorthands() {
    let base = "MATCH (n:Person) WHERE n.age > 18\nSET ";
    assert_eq!(adults().set_str("a", "x").finalize(), format!("{}n.a='x'", base));
    assert_eq!(adults().set_int("a", -12).finalize(), format!("{}n.a=-12", base));
    assert_eq!(adults().set_bool("a", true).finalize(), format!("{}n.a=true", base));
    assert_eq!(adults().set_str_var("m", "a", "x").finalize(), format!("{}m.a='x'", base));
    assert_eq!(adults().set_int_var("m", "a", 0).finalize(), format!("{}m.a=0", base));
    assert_eq!(adults().set_bool_var("m", "a", false).finalize(), format!("{}m.a=false", base));
}

#[test]
fn set_then_return_a_field() {
    let query = adults().set_int("age", 19).return_("n", Some("age")).finalize();
    assert_eq!(query, "MATCH (n:Person) WHERE n.age > 18\nSET n.age=19\nRETURN n.age");
}

#[test]
fn return_field_names_the_field() {
    let query = adults().return_field("n", "name").finalize();
    assert_eq!(query, "MATCH (n:Person) WHERE n.age > 18\nRETURN n.name");
    let query = ReturnQuery::new("X".to_string()).return_field("n", "name").finalize();
    assert_eq!(query, "X\nRETURN n.name");
}

#[test]
fn return_many_has_no_trailing_comma() {
    let query = ReturnQuery::new(String::new()).return_many(vec!["n", "m"]).finalize();
    assert_eq!(query, "\nRETURN n,m");
    let query = adults().return_many(vec!["n", "m", "k"]).finalize();
    assert_eq!(query, "MATCH (n:Person) WHERE n.age > 18\nRETURN n,m,k");
}

#[test]
fn return_many_of_one_and_of_none() {
    assert_eq!(ReturnQuery::new("X".to_string()).return_many(vec!["n"]).finalize(), "X\nRETURN n");
    assert_eq!(ReturnQuery::new("X".to_string()).return_many(Vec::new()).finalize(), "X\nRETURN ");
}

#[test]
fn return_method_gives_a_field_to_a_single_name_only() {
    assert_eq!(return_method("X", vec!["n"], Some("age")).finalize(), "X\nRETURN n.age");
    assert_eq!(return_method("X", vec!["n"], None).finalize(), "X\nRETURN n");
    assert_eq!(return_method("X", vec!["n", "m"], Some("age")).finalize(), "X\nRETURN n,m");
}

#[test]
fn alias_limit_and_skip() {
    let returned = ReturnParamQuery::new("MATCH (n:Person)\nRETURN n".to_string());
    assert_eq!(returned.as_("p").finalize(), "MATCH (n:Person)\nRETURN n AS p");
    assert_eq!(returned.limit(10).finalize(), "MATCH (n:Person)\nRETURN n\nLIMIT 10");
    assert_eq!(returned.skip(5).finalize(), "MATCH (n:Person)\nRETURN n\nSKIP 5");
    assert_eq!(
        returned.as_("p").limit(10).skip(0).finalize(),
        "MATCH (n:Person)\nRETURN n AS p\nLIMIT 10\nSKIP 0"
    );
    assert_eq!(returned.as_("p").skip(7).finalize(), "MATCH (n:Person)\nRETURN n AS p\nSKIP 7");
    assert_eq!(returned.limit(1).skip(2).finalize(), "MATCH (n:Person)\nRETURN n\nLIMIT 1\nSKIP 2");
}

#[test]
fn limit_of_the_largest_number() {
    let returned = ReturnParamQuery::new("R".to_string());
    assert_eq!(returned.limit(usize::MAX).finalize(), format!("R\nLIMIT {}", usize::MAX));
}

#[test]
fn finalize_twice_gives_the_same_text() {
    let stage = adults().return_("n", None);
    let first = stage.finalize();
    let second = stage.finalize();
    assert_eq!(first, second);
    assert_eq!(first, "MATCH (n:Person) WHERE n.age > 18\nRETURN n");
    let condition = adults();
    assert_eq!(condition.finalize(), condition.finalize());
    let done = Finalize("RETURN 1".to_string());
    assert_eq!(done.finalize(), "RETURN 1");
    assert_eq!(done.finalize(), done.finalize());
}

#[test]
fn a_stage_is_not_changed_by_what_follows_it() {
    let condition = adults();
    let with_and = condition.and_eq_int("a", 1).finalize();
    let with_or = condition.or_eq_int("b", 2).finalize();
    assert_eq!(condition.finalize(), "MATCH (n:Person) WHERE n.age > 18");
    assert_eq!(with_and, "MATCH (n:Person) WHERE n.age > 18 AND n.a = 1 ");
    assert_eq!(with_or, "MATCH (n:Person) WHERE n.age > 18 OR n.b = 2 ");
}

#[test]
fn a_condition_can_begin_a_further_clause() {
    let city = Entity::from(Node::new("c", "City", None, None));
    let query = adults().match_(&city, false).where_eq_str("name", "Rome").finalize();
    assert_eq!(
        query,
        "MATCH (n:Person) WHERE n.age > 18\nMATCH (c:City) WHERE c.name = 'Rome'"
    );
    let query = adults().create(vec![&city]).unwrap().finalize();
    assert_eq!(query, "MATCH (n:Person) WHERE n.age > 18\nCREATE (c:City)");
}

#[test]
fn stages_can_be_made_from_text() {
    let stage = MatchQuery::new("x".to_string(), "MATCH (x:T)".to_string());
    assert_eq!(stage.where_eq_int("a", 1).finalize(), "MATCH (x:T) WHERE x.a = 1");
    let stage = MatchConditionQuery::new("x".to_string(), "Q".to_string());
    assert_eq!(stage.delete().finalize(), "Q\nDELETE x");
}

#[test]
fn execute_hands_out_the_text() {
    let ready = Execute("MATCH (n) RETURN n".to_string());
    assert_eq!(ready.execute(), "MATCH (n) RETURN n");
    assert_eq!(ready.execute(), ready.execute());
}
