//! The stages behind `MATCH`: conditions, and what is done with what was
//! matched.
use vstd::prelude::*;
use vstd::string::*;
use crate::entity::{Entity, PropType, PropValue};
use crate::query::create_query::CreateQuery;
use crate::query::finalize::FinalizeTrait;
use crate::query::return_query::{
    return_method, str_views, ReturnParamQuery, ReturnQuery, ReturnTrait,
};
use crate::query::{create_method, match_method, QueryError, QueryTrait};
use crate::text::{decimal, isize_to_decimal};

verus! {

/// Comparison operators.
#[derive(Clone, Copy, Debug)]
pub enum CompOper {
    /// `n.prop = value`
    Equal,
    /// `n.prop > value`
    More,
    /// `n.prop < value`
    Less,
    /// `n.prop >= value`
    MoreEqual,
    /// `n.prop <= value`
    LessEqual,
}

impl CompOper {
    /// The symbol that writes the operator.
    pub open spec fn symbol(self) -> Seq<char> {
        match self {
            CompOper::Equal => "="@,
            CompOper::More => ">"@,
            CompOper::Less => "<"@,
            CompOper::MoreEqual => ">="@,
            CompOper::LessEqual => "<="@,
        }
    }

    /// Writes the operator as its symbol.
    pub fn to_string(&self) -> (out: String)
        ensures
            out@ == self.symbol(),
    {
        match self {
            CompOper::Equal => String::from_str("="),
            CompOper::More => String::from_str(">"),
            CompOper::Less => String::from_str("<"),
            CompOper::MoreEqual => String::from_str(">="),
            CompOper::LessEqual => String::from_str("<="),
        }
    }
}

/// A comparison of the property `prop` of the variable `nv` with a value.
pub open spec fn condition_text(
    nv: Seq<char>,
    prop: Seq<char>,
    op: CompOper,
    value: PropValue,
) -> Seq<char> {
    nv + "."@ + prop + " "@ + op.symbol() + " "@ + value.literal()
}

/// `state` followed by a `WHERE` clause.
pub open spec fn where_text(state: Seq<char>, condition: Seq<char>) -> Seq<char> {
    state + " WHERE "@ + condition
}

/// `state` followed by a further condition that must hold too. The space
/// at the end belongs to the text.
pub open spec fn and_text(state: Seq<char>, condition: Seq<char>) -> Seq<char> {
    state + " AND "@ + condition + " "@
}

/// `state` followed by a further condition that may hold instead. The
/// space at the end belongs to the text.
pub open spec fn or_text(state: Seq<char>, condition: Seq<char>) -> Seq<char> {
    state + " OR "@ + condition + " "@
}

/// `state` followed by a `SET` clause on a line of its own.
pub open spec fn set_text(
    state: Seq<char>,
    nv: Seq<char>,
    prop: Seq<char>,
    value: PropValue,
) -> Seq<char> {
    state + "\nSET "@ + nv + "."@ + prop + "="@ + value.literal()
}

/// `state` followed by a `DELETE` clause on a line of its own.
pub open spec fn delete_text(state: Seq<char>, nv: Seq<char>) -> Seq<char> {
    state + "\nDELETE "@ + nv
}

/// `state` followed by a `DETACH DELETE` clause on a line of its own.
pub open spec fn delete_detach_text(state: Seq<char>, nv: Seq<char>) -> Seq<char> {
    state + "\nDETACH DELETE "@ + nv
}

/// What is written stays: a condition or an action goes behind the text
/// that is there and changes none of it.
pub proof fn lemma_clauses_keep_state(
    state: Seq<char>,
    condition: Seq<char>,
    nv: Seq<char>,
    prop: Seq<char>,
    value: PropValue,
)
    ensures
        state.is_prefix_of(where_text(state, condition)),
        state.is_prefix_of(and_text(state, condition)),
        state.is_prefix_of(or_text(state, condition)),
        state.is_prefix_of(set_text(state, nv, prop, value)),
        state.is_prefix_of(delete_text(state, nv)),
        state.is_prefix_of(delete_detach_text(state, nv)),
{
    assert(where_text(state, condition) =~= state + (" WHERE "@ + condition));
    assert(and_text(state, condition) =~= state + (" AND "@ + condition + " "@));
    assert(or_text(state, condition) =~= state + (" OR "@ + condition + " "@));
    assert(set_text(state, nv, prop, value) =~= state + ("\nSET "@ + nv + "."@ + prop + "="@
        + value.literal()));
    assert(delete_text(state, nv) =~= state + ("\nDELETE "@ + nv));
    assert(delete_detach_text(state, nv) =~= state + ("\nDETACH DELETE "@ + nv));
}

/// The number `value` as a property.
pub open spec fn int_value(value: isize) -> PropValue {
    PropValue::Int(decimal(value as int))
}

/// Writes a comparison.
fn condition(nv: &str, prop: &str, op: CompOper, value: &PropType) -> (out: String)
    ensures
        out@ == condition_text(nv@, prop@, op, value@),
{
    let mut out = String::from_str(nv);
    out.append(".");
    out.append(prop);
    out.append(" ");
    out.append(op.to_string().as_str());
    out.append(" ");
    out.append(value.to_prop().as_str());
    out
}

/// The number `value` as a property.
pub(crate) fn int_prop(value: isize) -> (prop: PropType)
    ensures
        prop@ == int_value(value),
{
    PropType::integer(isize_to_decimal(value).as_str())
}

/// Puts a `SET` clause behind `state`.
pub(crate) fn set_clause(state: &str, nv: &str, prop: &str, value: &PropType) -> (next: ReturnQuery)
    ensures
        next.text() == set_text(state@, nv@, prop@, value@),
{
    let mut out = String::from_str(state);
    out.append("\nSET ");
    out.append(nv);
    out.append(".");
    out.append(prop);
    out.append("=");
    out.append(value.to_prop().as_str());
    ReturnQuery::new(out)
}

/// Puts a `DELETE` clause behind `state`.
pub(crate) fn delete_clause(state: &str, nv: &str) -> (next: ReturnQuery)
    ensures
        next.text() == delete_text(state@, nv@),
{
    let mut out = String::from_str(state);
    out.append("\nDELETE ");
    out.append(nv);
    ReturnQuery::new(out)
}

/// Puts a `DETACH DELETE` clause behind `state`.
pub(crate) fn delete_detach_clause(state: &str, nv: &str) -> (next: ReturnQuery)
    ensures
        next.text() == delete_detach_text(state@, nv@),
{
    let mut out = String::from_str(state);
    out.append("\nDETACH DELETE ");
    out.append(nv);
    ReturnQuery::new(out)
}

/// A stage that can change or delete what was matched or created.
pub trait MatchActionTrait: ReturnTrait {
    /// The variable that conditions and actions speak of unless they name
    /// another.
    spec fn subject(&self) -> Seq<char>;

    /// Adds `DELETE` for the subject.
    fn delete(&self) -> (next: ReturnQuery)
        ensures
            next.text() == delete_text(self.text(), self.subject()),
    ;

    /// Adds `DETACH DELETE` for the subject.
    fn delete_detach(&self) -> (next: ReturnQuery)
        ensures
            next.text() == delete_detach_text(self.text(), self.subject()),
    ;

    /// Adds `SET` of a property of the subject.
    fn set(&self, prop: &str, value: PropType) -> (next: ReturnQuery)
        ensures
            next.text() == set_text(self.text(), self.subject(), prop@, value@),
    ;

    /// Adds `SET` of a property of the variable `nv`.
    fn set_var(&self, nv: &str, prop: &str, value: PropType) -> (next: ReturnQuery)
        ensures
            next.text() == set_text(self.text(), nv@, prop@, value@),
    ;

    /// Short for `set` with a value of this kind: `SET n.prop='...'`.
    fn set_str(&self, prop: &str, value: &str) -> (next: ReturnQuery)
        ensures
            next.text() == set_text(self.text(), self.subject(), prop@, PropValue::Text(value@)),
    ;

    /// Short for `set_var` with a value of this kind: `SET nv.prop='...'`.
    fn set_str_var(&self, nv: &str, prop: &str, value: &str) -> (next: ReturnQuery)
        ensures
            next.text() == set_text(self.text(), nv@, prop@, PropValue::Text(value@)),
    ;

    /// Short for `set` with a value of this kind: `SET n.prop=0`.
    fn set_int(&self, prop: &str, value: isize) -> (next: ReturnQuery)
        ensures
            next.text() == set_text(self.text(), self.subject(), prop@, int_value(value)),
    ;

    /// Short for `set_var` with a value of this kind: `SET nv.prop=0`.
    fn set_int_var(&self, nv: &str, prop: &str, value: isize) -> (next: ReturnQuery)
        ensures
            next.text() == set_text(self.text(), nv@, prop@, int_value(value)),
    ;

    /// Short for `set` with a value of this kind: `SET n.prop=true`.
    fn set_bool(&self, prop: &str, value: bool) -> (next: ReturnQuery)
        ensures
            next.text() == set_text(self.text(), self.subject(), prop@, PropValue::Bool(value)),
    ;

    /// Short for `set_var` with a value of this kind: `SET nv.prop=true`.
    fn set_bool_var(&self, nv: &str, prop: &str, value: bool) -> (next: ReturnQuery)
        ensures
            next.text() == set_text(self.text(), nv@, prop@, PropValue::Bool(value)),
    ;
}

/// A stage behind a condition: further conditions may follow, or an
/// action, a `RETURN`, or the beginning of a further clause.
pub trait MatchConditionTrait: MatchActionTrait + QueryTrait {
    /// Adds `AND` with a comparison of a property of the subject.
    fn and(&self, prop: &str, op: CompOper, eq: PropType) -> (next: MatchConditionQuery)
        ensures
            next.text() == and_text(
                self.text(),
                condition_text(self.subject(), prop@, op, eq@),
            ),
            next.subject() == self.subject(),
    ;

    /// Adds `AND` with a comparison of a property of the variable `nv`.
    fn and_var(
        &self,
        nv: &str,
        prop: &str,
        op: CompOper,
        eq: PropType,
    ) -> (next: MatchConditionQuery)
        ensures
            next.text() == and_text(self.text(), condition_text(nv@, prop@, op, eq@)),
            next.subject() == self.subject(),
    ;

    /// Short for `and`: `AND n.prop = '...'`.
    fn and_eq_str(&self, prop: &str, value: &str) -> (next: MatchConditionQuery)
        ensures
            next.text() == and_text(
                self.text(),
                condition_text(self.subject(), prop@, CompOper::Equal, PropValue::Text(value@)),
            ),
            next.subject() == self.subject(),
    ;

    /// Short for `and_var`: `AND nv.prop = '...'`.
    fn and_eq_str_var(&self, nv: &str, prop: &str, value: &str) -> (next: MatchConditionQuery)
        ensures
            next.text() == and_text(
                self.text(),
                condition_text(nv@, prop@, CompOper::Equal, PropValue::Text(value@)),
            ),
            next.subject() == self.subject(),
    ;

    /// Short for `and`: `AND n.prop = 0`.
    fn and_eq_int(&self, prop: &str, value: isize) -> (next: MatchConditionQuery)
        ensures
            next.text() == and_text(
                self.text(),
                condition_text(self.subject(), prop@, CompOper::Equal, int_value(value)),
            ),
            next.subject() == self.subject(),
    ;

    /// Short for `and_var`: `AND nv.prop = 0`.
    fn and_eq_int_var(&self, nv: &str, prop: &str, value: isize) -> (next: MatchConditionQuery)
        ensures
            next.text() == and_text(
                self.text(),
                condition_text(nv@, prop@, CompOper::Equal, int_value(value)),
            ),
            next.subject() == self.subject(),
    ;

    /// Short for `and`: `AND n.prop = true`.
    fn and_eq_bool(&self, prop: &str, value: bool) -> (next: MatchConditionQuery)
        ensures
            next.text() == and_text(
                self.text(),
                condition_text(self.subject(), prop@, CompOper::Equal, PropValue::Bool(value)),
            ),
            next.subject() == self.subject(),
    ;

    /// Short for `and_var`: `AND nv.prop = true`.
    fn and_eq_bool_var(&self, nv: &str, prop: &str, value: bool) -> (next: MatchConditionQuery)
        ensures
            next.text() == and_text(
                self.text(),
                condition_text(nv@, prop@, CompOper::Equal, PropValue::Bool(value)),
            ),
            next.subject() == self.subject(),
    ;

    /// Short for `and`: `AND n.prop > 0`.
    fn and_more_int(&self, prop: &str, value: isize) -> (next: MatchConditionQuery)
        ensures
            next.text() == and_text(
                self.text(),
                condition_text(self.subject(), prop@, CompOper::More, int_value(value)),
            ),
            next.subject() == self.subject(),
    ;

    /// Short for `and_var`: `AND nv.prop > 0`.
    fn and_more_int_var(&self, nv: &str, prop: &str, value: isize) -> (next: MatchConditionQuery)
        ensures
            next.text() == and_text(
                self.text(),
                condition_text(nv@, prop@, CompOper::More, int_value(value)),
            ),
            next.subject() == self.subject(),
    ;

    /// Short for `and`: `AND n.prop < 0`.
    fn and_less_int(&self, prop: &str, value: isize) -> (next: MatchConditionQuery)
        ensures
            next.text() == and_text(
                self.text(),
                condition_text(self.subject(), prop@, CompOper::Less, int_value(value)),
            ),
            next.subject() == self.subject(),
    ;

    /// Short for `and_var`: `AND nv.prop < 0`.
    fn and_less_int_var(&self, nv: &str, prop: &str, value: isize) -> (next: MatchConditionQuery)
        ensures
            next.text() == and_text(
                self.text(),
                condition_text(nv@, prop@, CompOper::Less, int_value(value)),
            ),
            next.subject() == self.subject(),
    ;

    /// Short for `and`: `AND n.prop >= 0`.
    fn and_moreq_int(&self, prop: &str, value: isize) -> (next: MatchConditionQuery)
        ensures
            next.text() == and_text(
                self.text(),
                condition_text(self.subject(), prop@, CompOper::MoreEqual, int_value(value)),
            ),
            next.subject() == self.subject(),
    ;

    /// Short for `and_var`: `AND nv.prop >= 0`.
    fn and_moreq_int_var(&self, nv: &str, prop: &str, value: isize) -> (next: MatchConditionQuery)
        ensures
            next.text() == and_text(
                self.text(),
                condition_text(nv@, prop@, CompOper::MoreEqual, int_value(value)),
            ),
            next.subject() == self.subject(),
    ;

    /// Short for `and`: `AND n.prop <= 0`.
    fn and_leseq_int(&self, prop: &str, value: isize) -> (next: MatchConditionQuery)
        ensures
            next.text() == and_text(
                self.text(),
                condition_text(self.subject(), prop@, CompOper::LessEqual, int_value(value)),
            ),
            next.subject() == self.subject(),
    ;

    /// Short for `and_var`: `AND nv.prop <= 0`.
    fn and_leseq_int_var(&self, nv: &str, prop: &str, value: isize) -> (next: MatchConditionQuery)
        ensures
            next.text() == and_text(
                self.text(),
                condition_text(nv@, prop@, CompOper::LessEqual, int_value(value)),
            ),
            next.subject() == self.subject(),
    ;

    /// Adds `OR` with a comparison of a property of the subject.
    fn or(&self, prop: &str, op: CompOper, eq: PropType) -> (next: MatchConditionQuery)
        ensures
            next.text() == or_text(
                self.text(),
                condition_text(self.subject(), prop@, op, eq@),
            ),
            next.subject() == self.subject(),
    ;

    /// Adds `OR` with a comparison of a property of the variable `nv`.
    fn or_var(
        &self,
        nv: &str,
        prop: &str,
        op: CompOper,
        eq: PropType,
    ) -> (next: MatchConditionQuery)
        ensures
            next.text() == or_text(self.text(), condition_text(nv@, prop@, op, eq@)),
            next.subject() == self.subject(),
    ;

    /// Short for `or`: `OR n.prop = '...'`.
    fn or_eq_str(&self, prop: &str, value: &str) -> (next: MatchConditionQuery)
        ensures
            next.text() == or_text(
                self.text(),
                condition_text(self.subject(), prop@, CompOper::Equal, PropValue::Text(value@)),
            ),
            next.subject() == self.subject(),
    ;

    /// Short for `or_var`: `OR nv.prop = '...'`.
    fn or_eq_str_var(&self, nv: &str, prop: &str, value: &str) -> (next: MatchConditionQuery)
        ensures
            next.text() == or_text(
                self.text(),
                condition_text(nv@, prop@, CompOper::Equal, PropValue::Text(value@)),
            ),
            next.subject() == self.subject(),
    ;

    /// Short for `or`: `OR n.prop = 0`.
    fn or_eq_int(&self, prop: &str, value: isize) -> (next: MatchConditionQuery)
        ensures
            next.text() == or_text(
                self.text(),
                condition_text(self.subject(), prop@, CompOper::Equal, int_value(value)),
            ),
            next.subject() == self.subject(),
    ;

    /// Short for `or_var`: `OR nv.prop = 0`.
    fn or_eq_int_var(&self, nv: &str, prop: &str, value: isize) -> (next: MatchConditionQuery)
        ensures
            next.text() == or_text(
                self.text(),
                condition_text(nv@, prop@, CompOper::Equal, int_value(value)),
            ),
            next.subject() == self.subject(),
    ;

    /// Short for `or`: `OR n.prop = true`.
    fn or_eq_bool(&self, prop: &str, value: bool) -> (next: MatchConditionQuery)
        ensures
            next.text() == or_text(
                self.text(),
                condition_text(self.subject(), prop@, CompOper::Equal, PropValue::Bool(value)),
            ),
            next.subject() == self.subject(),
    ;

    /// Short for `or_var`: `OR nv.prop = true`.
    fn or_eq_bool_var(&self, nv: &str, prop: &str, value: bool) -> (next: MatchConditionQuery)
        ensures
            next.text() == or_text(
                self.text(),
                condition_text(nv@, prop@, CompOper::Equal, PropValue::Bool(value)),
            ),
            next.subject() == self.subject(),
    ;

    /// Short for `or`: `OR n.prop > 0`.
    fn or_more_int(&self, prop: &str, value: isize) -> (next: MatchConditionQuery)
        ensures
            next.text() == or_text(
                self.text(),
                condition_text(self.subject(), prop@, CompOper::More, int_value(value)),
            ),
            next.subject() == self.subject(),
    ;

    /// Short for `or_var`: `OR nv.prop > 0`.
    fn or_more_int_var(&self, nv: &str, prop: &str, value: isize) -> (next: MatchConditionQuery)
        ensures
            next.text() == or_text(
                self.text(),
                condition_text(nv@, prop@, CompOper::More, int_value(value)),
            ),
            next.subject() == self.subject(),
    ;

    /// Short for `or`: `OR n.prop < 0`.
    fn or_less_int(&self, prop: &str, value: isize) -> (next: MatchConditionQuery)
        ensures
            next.text() == or_text(
                self.text(),
                condition_text(self.subject(), prop@, CompOper::Less, int_value(value)),
            ),
            next.subject() == self.subject(),
    ;

    /// Short for `or_var`: `OR nv.prop < 0`.
    fn or_less_int_var(&self, nv: &str, prop: &str, value: isize) -> (next: MatchConditionQuery)
        ensures
            next.text() == or_text(
                self.text(),
                condition_text(nv@, prop@, CompOper::Less, int_value(value)),
            ),
            next.subject() == self.subject(),
    ;

    /// Short for `or`: `OR n.prop >= 0`.
    fn or_moreq_int(&self, prop: &str, value: isize) -> (next: MatchConditionQuery)
        ensures
            next.text() == or_text(
                self.text(),
                condition_text(self.subject(), prop@, CompOper::MoreEqual, int_value(value)),
            ),
            next.subject() == self.subject(),
    ;

    /// Short for `or_var`: `OR nv.prop >= 0`.
    fn or_moreq_int_var(&self, nv: &str, prop: &str, value: isize) -> (next: MatchConditionQuery)
        ensures
            next.text() == or_text(
                self.text(),
                condition_text(nv@, prop@, CompOper::MoreEqual, int_value(value)),
            ),
            next.subject() == self.subject(),
    ;

    /// Short for `or`: `OR n.prop <= 0`.
    fn or_leseq_int(&self, prop: &str, value: isize) -> (next: MatchConditionQuery)
        ensures
            next.text() == or_text(
                self.text(),
                condition_text(self.subject(), prop@, CompOper::LessEqual, int_value(value)),
            ),
            next.subject() == self.subject(),
    ;

    /// Short for `or_var`: `OR nv.prop <= 0`.
    fn or_leseq_int_var(&self, nv: &str, prop: &str, value: isize) -> (next: MatchConditionQuery)
        ensures
            next.text() == or_text(
                self.text(),
                condition_text(nv@, prop@, CompOper::LessEqual, int_value(value)),
            ),
            next.subject() == self.subject(),
    ;
}

/// The stage behind `WHERE`, `AND` and `OR`.
pub struct MatchConditionQuery {
    nv: String,
    state: String,
}

impl MatchConditionQuery {
    pub fn new(nv: String, state: String) -> (stage: Self)
        ensures
            stage.text() == state@,
            stage.subject() == nv@,
    {
        MatchConditionQuery { nv, state }
    }

    /// This stage with a further condition behind `keyword`.
    fn with_condition(
        &self,
        keyword: &str,
        nv: &str,
        prop: &str,
        op: CompOper,
        eq: PropType,
    ) -> (next: MatchConditionQuery)
        ensures
            next.text() == self.text() + keyword@ + condition_text(nv@, prop@, op, eq@) + " "@,
            next.subject() == self.subject(),
    {
        let mut state = self.state.clone();
        state.append(keyword);
        state.append(condition(nv, prop, op, &eq).as_str());
        state.append(" ");
        MatchConditionQuery::new(self.nv.clone(), state)
    }
}

impl FinalizeTrait for MatchConditionQuery {
    closed spec fn text(&self) -> Seq<char> {
        self.state@
    }

    fn finalize(&self) -> String {
        self.state.clone()
    }
}

impl ReturnTrait for MatchConditionQuery {
    fn return_(&self, nv: &str, field: Option<&str>) -> ReturnParamQuery {
        let mut nvs: Vec<&str> = Vec::new();
        nvs.push(nv);
        assert(str_views(nvs@) =~= seq![nv@]);
        return_method(self.state.as_str(), nvs, field)
    }

    fn return_field(&self, nv: &str, field: &str) -> ReturnParamQuery {
        self.return_(nv, Some(field))
    }

    fn return_many(&self, nvs: Vec<&str>) -> ReturnParamQuery {
        return_method(self.state.as_str(), nvs, None)
    }
}

impl MatchActionTrait for MatchConditionQuery {
    closed spec fn subject(&self) -> Seq<char> {
        self.nv@
    }

    fn delete(&self) -> ReturnQuery {
        delete_clause(self.state.as_str(), self.nv.as_str())
    }

    fn delete_detach(&self) -> ReturnQuery {
        delete_detach_clause(self.state.as_str(), self.nv.as_str())
    }

    fn set(&self, prop: &str, value: PropType) -> ReturnQuery {
        set_clause(self.state.as_str(), self.nv.as_str(), prop, &value)
    }

    fn set_var(&self, nv: &str, prop: &str, value: PropType) -> ReturnQuery {
        set_clause(self.state.as_str(), nv, prop, &value)
    }

    fn set_str(&self, prop: &str, value: &str) -> ReturnQuery {
        self.set(prop, PropType::str(value))
    }

    fn set_str_var(&self, nv: &str, prop: &str, value: &str) -> ReturnQuery {
        self.set_var(nv, prop, PropType::str(value))
    }

    fn set_int(&self, prop: &str, value: isize) -> ReturnQuery {
        self.set(prop, int_prop(value))
    }

    fn set_int_var(&self, nv: &str, prop: &str, value: isize) -> ReturnQuery {
        self.set_var(nv, prop, int_prop(value))
    }

    fn set_bool(&self, prop: &str, value: bool) -> ReturnQuery {
        self.set(prop, PropType::Bool(value))
    }

    fn set_bool_var(&self, nv: &str, prop: &str, value: bool) -> ReturnQuery {
        self.set_var(nv, prop, PropType::Bool(value))
    }
}

impl MatchConditionTrait for MatchConditionQuery {
    fn and(&self, prop: &str, op: CompOper, eq: PropType) -> MatchConditionQuery {
        self.with_condition(" AND ", self.nv.as_str(), prop, op, eq)
    }

    fn and_var(&self, nv: &str, prop: &str, op: CompOper, eq: PropType) -> MatchConditionQuery {
        self.with_condition(" AND ", nv, prop, op, eq)
    }

    fn or(&self, prop: &str, op: CompOper, eq: PropType) -> MatchConditionQuery {
        self.with_condition(" OR ", self.nv.as_str(), prop, op, eq)
    }

    fn or_var(&self, nv: &str, prop: &str, op: CompOper, eq: PropType) -> MatchConditionQuery {
        self.with_condition(" OR ", nv, prop, op, eq)
    }

    fn and_eq_str(&self, prop: &str, value: &str) -> MatchConditionQuery {
        self.and(prop, CompOper::Equal, PropType::str(value))
    }

    fn and_eq_str_var(&self, nv: &str, prop: &str, value: &str) -> MatchConditionQuery {
        self.and_var(nv, prop, CompOper::Equal, PropType::str(value))
    }

    fn and_eq_int(&self, prop: &str, value: isize) -> MatchConditionQuery {
        self.and(prop, CompOper::Equal, int_prop(value))
    }

    fn and_eq_int_var(&self, nv: &str, prop: &str, value: isize) -> MatchConditionQuery {
        self.and_var(nv, prop, CompOper::Equal, int_prop(value))
    }

    fn and_eq_bool(&self, prop: &str, value: bool) -> MatchConditionQuery {
        self.and(prop, CompOper::Equal, PropType::Bool(value))
    }

    fn and_eq_bool_var(&self, nv: &str, prop: &str, value: bool) -> MatchConditionQuery {
        self.and_var(nv, prop, CompOper::Equal, PropType::Bool(value))
    }

    fn and_more_int(&self, prop: &str, value: isize) -> MatchConditionQuery {
        self.and(prop, CompOper::More, int_prop(value))
    }

    fn and_more_int_var(&self, nv: &str, prop: &str, value: isize) -> MatchConditionQuery {
        self.and_var(nv, prop, CompOper::More, int_prop(value))
    }

    fn and_less_int(&self, prop: &str, value: isize) -> MatchConditionQuery {
        self.and(prop, CompOper::Less, int_prop(value))
    }

    fn and_less_int_var(&self, nv: &str, prop: &str, value: isize) -> MatchConditionQuery {
        self.and_var(nv, prop, CompOper::Less, int_prop(value))
    }

    fn and_moreq_int(&self, prop: &str, value: isize) -> MatchConditionQuery {
        self.and(prop, CompOper::MoreEqual, int_prop(value))
    }

    fn and_moreq_int_var(&self, nv: &str, prop: &str, value: isize) -> MatchConditionQuery {
        self.and_var(nv, prop, CompOper::MoreEqual, int_prop(value))
    }

    fn and_leseq_int(&self, prop: &str, value: isize) -> MatchConditionQuery {
        self.and(prop, CompOper::LessEqual, int_prop(value))
    }

    fn and_leseq_int_var(&self, nv: &str, prop: &str, value: isize) -> MatchConditionQuery {
        self.and_var(nv, prop, CompOper::LessEqual, int_prop(value))
    }

    fn or_eq_str(&self, prop: &str, value: &str) -> MatchConditionQuery {
        self.or(prop, CompOper::Equal, PropType::str(value))
    }

    fn or_eq_str_var(&self, nv: &str, prop: &str, value: &str) -> MatchConditionQuery {
        self.or_var(nv, prop, CompOper::Equal, PropType::str(value))
    }

    fn or_eq_int(&self, prop: &str, value: isize) -> MatchConditionQuery {
        self.or(prop, CompOper::Equal, int_prop(value))
    }

    fn or_eq_int_var(&self, nv: &str, prop: &str, value: isize) -> MatchConditionQuery {
        self.or_var(nv, prop, CompOper::Equal, int_prop(value))
    }

    fn or_eq_bool(&self, prop: &str, value: bool) -> MatchConditionQuery {
        self.or(prop, CompOper::Equal, PropType::Bool(value))
    }

    fn or_eq_bool_var(&self, nv: &str, prop: &str, value: bool) -> MatchConditionQuery {
        self.or_var(nv, prop, CompOper::Equal, PropType::Bool(value))
    }

    fn or_more_int(&self, prop: &str, value: isize) -> MatchConditionQuery {
        self.or(prop, CompOper::More, int_prop(value))
    }

    fn or_more_int_var(&self, nv: &str, prop: &str, value: isize) -> MatchConditionQuery {
        self.or_var(nv, prop, CompOper::More, int_prop(value))
    }

    fn or_less_int(&self, prop: &str, value: isize) -> MatchConditionQuery {
        self.or(prop, CompOper::Less, int_prop(value))
    }

    fn or_less_int_var(&self, nv: &str, prop: &str, value: isize) -> MatchConditionQuery {
        self.or_var(nv, prop, CompOper::Less, int_prop(value))
    }

    fn or_moreq_int(&self, prop: &str, value: isize) -> MatchConditionQuery {
        self.or(prop, CompOper::MoreEqual, int_prop(value))
    }

    fn or_moreq_int_var(&self, nv: &str, prop: &str, value: isize) -> MatchConditionQuery {
        self.or_var(nv, prop, CompOper::MoreEqual, int_prop(value))
    }

    fn or_leseq_int(&self, prop: &str, value: isize) -> MatchConditionQuery {
        self.or(prop, CompOper::LessEqual, int_prop(value))
    }

    fn or_leseq_int_var(&self, nv: &str, prop: &str, value: isize) -> MatchConditionQuery {
        self.or_var(nv, prop, CompOper::LessEqual, int_prop(value))
    }
}

impl QueryTrait for MatchConditionQuery {
    closed spec fn state(&self) -> Seq<char> {
        self.state@
    }

    fn create(&self, entitys: Vec<&Entity>) -> Result<CreateQuery, QueryError> {
        create_method(self.state.as_str(), entitys)
    }

    fn match_(&self, entity: &Entity, optional: bool) -> MatchQuery {
        match_method(self.state.as_str(), entity, optional)
    }
}

/// A stage behind `MATCH`: a condition must follow.
pub trait MatchTrait {
    /// The query text gathered so far.
    spec fn text(&self) -> Seq<char>;

    /// The variable that conditions speak of unless they name another.
    spec fn subject(&self) -> Seq<char>;

    /// Adds `WHERE` with a comparison of a property of the subject.
    fn where_(&self, prop: &str, op: CompOper, eq: PropType) -> (next: MatchConditionQuery)
        ensures
            next.text() == where_text(
                self.text(),
                condition_text(self.subject(), prop@, op, eq@),
            ),
            next.subject() == self.subject(),
    ;

    /// Adds `WHERE` with a comparison of a property of the variable `nv`.
    fn where_var(
        &self,
        nv: &str,
        prop: &str,
        op: CompOper,
        eq: PropType,
    ) -> (next: MatchConditionQuery)
        ensures
            next.text() == where_text(self.text(), condition_text(nv@, prop@, op, eq@)),
            next.subject() == self.subject(),
    ;

    /// Short for `where_`: `WHERE n.prop = '...'`.
    fn where_eq_str(&self, prop: &str, value: &str) -> (next: MatchConditionQuery)
        ensures
            next.text() == where_text(
                self.text(),
                condition_text(self.subject(), prop@, CompOper::Equal, PropValue::Text(value@)),
            ),
            next.subject() == self.subject(),
    ;

    /// Short for `where_var`: `WHERE nv.prop = '...'`.
    fn where_eq_str_var(&self, nv: &str, prop: &str, value: &str) -> (next: MatchConditionQuery)
        ensures
            next.text() == where_text(
                self.text(),
                condition_text(nv@, prop@, CompOper::Equal, PropValue::Text(value@)),
            ),
            next.subject() == self.subject(),
    ;

    /// Short for `where_`: `WHERE n.prop = 0`.
    fn where_eq_int(&self, prop: &str, value: isize) -> (next: MatchConditionQuery)
        ensures
            next.text() == where_text(
                self.text(),
                condition_text(self.subject(), prop@, CompOper::Equal, int_value(value)),
            ),
            next.subject() == self.subject(),
    ;

    /// Short for `where_var`: `WHERE nv.prop = 0`.
    fn where_eq_int_var(&self, nv: &str, prop: &str, value: isize) -> (next: MatchConditionQuery)
        ensures
            next.text() == where_text(
                self.text(),
                condition_text(nv@, prop@, CompOper::Equal, int_value(value)),
            ),
            next.subject() == self.subject(),
    ;

    /// Short for `where_`: `WHERE n.prop = true`.
    fn where_eq_bool(&self, prop: &str, value: bool) -> (next: MatchConditionQuery)
        ensures
            next.text() == where_text(
                self.text(),
                condition_text(self.subject(), prop@, CompOper::Equal, PropValue::Bool(value)),
            ),
            next.subject() == self.subject(),
    ;

    /// Short for `where_var`: `WHERE nv.prop = true`.
    fn where_eq_bool_var(&self, nv: &str, prop: &str, value: bool) -> (next: MatchConditionQuery)
        ensures
            next.text() == where_text(
                self.text(),
                condition_text(nv@, prop@, CompOper::Equal, PropValue::Bool(value)),
            ),
            next.subject() == self.subject(),
    ;

    /// Short for `where_`: `WHERE n.prop > 0`.
    fn where_more_int(&self, prop: &str, value: isize) -> (next: MatchConditionQuery)
        ensures
            next.text() == where_text(
                self.text(),
                condition_text(self.subject(), prop@, CompOper::More, int_value(value)),
            ),
            next.subject() == self.subject(),
    ;

    /// Short for `where_var`: `WHERE nv.prop > 0`.
    fn where_more_int_var(&self, nv: &str, prop: &str, value: isize) -> (next: MatchConditionQuery)
        ensures
            next.text() == where_text(
                self.text(),
                condition_text(nv@, prop@, CompOper::More, int_value(value)),
            ),
            next.subject() == self.subject(),
    ;

    /// Short for `where_`: `WHERE n.prop < 0`.
    fn where_less_int(&self, prop: &str, value: isize) -> (next: MatchConditionQuery)
        ensures
            next.text() == where_text(
                self.text(),
                condition_text(self.subject(), prop@, CompOper::Less, int_value(value)),
            ),
            next.subject() == self.subject(),
    ;

    /// Short for `where_var`: `WHERE nv.prop < 0`.
    fn where_less_int_var(&self, nv: &str, prop: &str, value: isize) -> (next: MatchConditionQuery)
        ensures
            next.text() == where_text(
                self.text(),
                condition_text(nv@, prop@, CompOper::Less, int_value(value)),
            ),
            next.subject() == self.subject(),
    ;

    /// Short for `where_`: `WHERE n.prop >= 0`.
    fn where_moreq_int(&self, prop: &str, value: isize) -> (next: MatchConditionQuery)
        ensures
            next.text() == where_text(
                self.text(),
                condition_text(self.subject(), prop@, CompOper::MoreEqual, int_value(value)),
            ),
            next.subject() == self.subject(),
    ;

    /// Short for `where_var`: `WHERE nv.prop >= 0`.
    fn where_moreq_int_var(&self, nv: &str, prop: &str, value: isize) -> (next: MatchConditionQuery)
        ensures
            next.text() == where_text(
                self.text(),
                condition_text(nv@, prop@, CompOper::MoreEqual, int_value(value)),
            ),
            next.subject() == self.subject(),
    ;

    /// Short for `where_`: `WHERE n.prop <= 0`.
    fn where_leseq_int(&self, prop: &str, value: isize) -> (next: MatchConditionQuery)
        ensures
            next.text() == where_text(
                self.text(),
                condition_text(self.subject(), prop@, CompOper::LessEqual, int_value(value)),
            ),
            next.subject() == self.subject(),
    ;

    /// Short for `where_var`: `WHERE nv.prop <= 0`.
    fn where_leseq_int_var(&self, nv: &str, prop: &str, value: isize) -> (next: MatchConditionQuery)
        ensures
            next.text() == where_text(
                self.text(),
                condition_text(nv@, prop@, CompOper::LessEqual, int_value(value)),
            ),
            next.subject() == self.subject(),
    ;
}

/// The stage behind `MATCH`.
pub struct MatchQuery {
    nv: String,
    state: String,
}

impl MatchQuery {
    pub fn new(nv: String, state: String) -> (stage: Self)
        ensures
            stage.text() == state@,
            stage.subject() == nv@,
    {
        MatchQuery { nv, state }
    }
}

impl MatchTrait for MatchQuery {
    closed spec fn text(&self) -> Seq<char> {
        self.state@
    }

    closed spec fn subject(&self) -> Seq<char> {
        self.nv@
    }

    fn where_(&self, prop: &str, op: CompOper, eq: PropType) -> MatchConditionQuery {
        self.where_var(self.nv.as_str(), prop, op, eq)
    }

    fn where_var(&self, nv: &str, prop: &str, op: CompOper, eq: PropType) -> MatchConditionQuery {
        let mut state = self.state.clone();
        state.append(" WHERE ");
        state.append(condition(nv, prop, op, &eq).as_str());
        MatchConditionQuery::new(self.nv.clone(), state)
    }

    fn where_eq_str(&self, prop: &str, value: &str) -> MatchConditionQuery {
        self.where_(prop, CompOper::Equal, PropType::str(value))
    }

    fn where_eq_str_var(&self, nv: &str, prop: &str, value: &str) -> MatchConditionQuery {
        self.where_var(nv, prop, CompOper::Equal, PropType::str(value))
    }

    fn where_eq_int(&self, prop: &str, value: isize) -> MatchConditionQuery {
        self.where_(prop, CompOper::Equal, int_prop(value))
    }

    fn where_eq_int_var(&self, nv: &str, prop: &str, value: isize) -> MatchConditionQuery {
        self.where_var(nv, prop, CompOper::Equal, int_prop(value))
    }

    fn where_eq_bool(&self, prop: &str, value: bool) -> MatchConditionQuery {
        self.where_(prop, CompOper::Equal, PropType::Bool(value))
    }

    fn where_eq_bool_var(&self, nv: &str, prop: &str, value: bool) -> MatchConditionQuery {
        self.where_var(nv, prop, CompOper::Equal, PropType::Bool(value))
    }

    fn where_more_int(&self, prop: &str, value: isize) -> MatchConditionQuery {
        self.where_(prop, CompOper::More, int_prop(value))
    }

    fn where_more_int_var(&self, nv: &str, prop: &str, value: isize) -> MatchConditionQuery {
        self.where_var(nv, prop, CompOper::More, int_prop(value))
    }

    fn where_less_int(&self, prop: &str, value: isize) -> MatchConditionQuery {
        self.where_(prop, CompOper::Less, int_prop(value))
    }

    fn where_less_int_var(&self, nv: &str, prop: &str, value: isize) -> MatchConditionQuery {
        self.where_var(nv, prop, CompOper::Less, int_prop(value))
    }

    fn where_moreq_int(&self, prop: &str, value: isize) -> MatchConditionQuery {
        self.where_(prop, CompOper::MoreEqual, int_prop(value))
    }

    fn where_moreq_int_var(&self, nv: &str, prop: &str, value: isize) -> MatchConditionQuery {
        self.where_var(nv, prop, CompOper::MoreEqual, int_prop(value))
    }

    fn where_leseq_int(&self, prop: &str, value: isize) -> MatchConditionQuery {
        self.where_(prop, CompOper::LessEqual, int_prop(value))
    }

    fn where_leseq_int_var(&self, nv: &str, prop: &str, value: isize) -> MatchConditionQuery {
        self.where_var(nv, prop, CompOper::LessEqual, int_prop(value))
    }
}

} // verus!
