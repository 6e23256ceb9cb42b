//! The stages behind `RETURN`: the returned names, an alias, and the
//! limits on the rows.
use vstd::prelude::*;
use vstd::string::*;
use crate::query::finalize::{Finalize, FinalizeTrait};
use crate::text::{decimal_nat, join, usize_to_decimal};

verus! {

/// `state` followed by a `SKIP` clause.
pub open spec fn skip_text(state: Seq<char>, rows: nat) -> Seq<char> {
    state + "\nSKIP "@ + decimal_nat(rows)
}

/// `state` followed by a `LIMIT` clause.
pub open spec fn limit_text(state: Seq<char>, rows: nat) -> Seq<char> {
    state + "\nLIMIT "@ + decimal_nat(rows)
}

/// `state` followed by an alias for what is returned.
pub open spec fn alias_text(state: Seq<char>, alias: Seq<char>) -> Seq<char> {
    state + " AS "@ + alias
}

/// What a `RETURN` clause names: several variables, separated by commas,
/// or one variable, with a field of it where one is asked for. A field
/// goes with a single variable only.
pub open spec fn returned_names(nvs: Seq<Seq<char>>, field: Option<Seq<char>>) -> Seq<char> {
    if nvs.len() > 1 {
        join(nvs, ","@)
    } else {
        match field {
            Some(name) => join(nvs, ","@) + "."@ + name,
            None => join(nvs, ","@),
        }
    }
}

/// `state` followed by a `RETURN` clause.
pub open spec fn return_text(
    state: Seq<char>,
    nvs: Seq<Seq<char>>,
    field: Option<Seq<char>>,
) -> Seq<char> {
    state + "\nRETURN "@ + returned_names(nvs, field)
}

/// What is written stays: what is returned, its alias and the limits go
/// behind the text that is there and change none of it.
pub proof fn lemma_return_keeps_state(
    state: Seq<char>,
    nvs: Seq<Seq<char>>,
    field: Option<Seq<char>>,
    alias: Seq<char>,
    rows: nat,
)
    ensures
        state.is_prefix_of(return_text(state, nvs, field)),
        state.is_prefix_of(alias_text(state, alias)),
        state.is_prefix_of(limit_text(state, rows)),
        state.is_prefix_of(skip_text(state, rows)),
{
    assert(return_text(state, nvs, field) =~= state + ("\nRETURN "@ + returned_names(nvs, field)));
    assert(alias_text(state, alias) =~= state + (" AS "@ + alias));
    assert(limit_text(state, rows) =~= state + ("\nLIMIT "@ + decimal_nat(rows)));
    assert(skip_text(state, rows) =~= state + ("\nSKIP "@ + decimal_nat(rows)));
}

/// The characters of each string slice, in order.
pub open spec fn str_views(items: Seq<&str>) -> Seq<Seq<char>> {
    Seq::new(items.len(), |i: int| items[i]@)
}

/// The characters of an optional string slice.
pub open spec fn opt_str_view(item: Option<&str>) -> Option<Seq<char>> {
    match item {
        Some(s) => Some(s@),
        None => None,
    }
}

fn with_rows(state: &String, keyword: &str, rows: usize) -> (out: String)
    ensures
        out@ == state@ + keyword@ + decimal_nat(rows as nat),
{
    let mut out = state.clone();
    out.append(keyword);
    out.append(usize_to_decimal(rows).as_str());
    out
}

/// A stage that can skip rows.
pub trait SkipControlTrait: FinalizeTrait {
    /// Adds `SKIP value` on a line of its own.
    fn skip(&self, value: usize) -> (next: Finalize)
        ensures
            next.text() == skip_text(self.text(), value as nat),
    ;
}

/// The stage behind `LIMIT`.
pub struct SkipControlQuery(String);

impl FinalizeTrait for SkipControlQuery {
    closed spec fn text(&self) -> Seq<char> {
        self.0@
    }

    fn finalize(&self) -> String {
        self.0.clone()
    }
}

impl SkipControlTrait for SkipControlQuery {
    fn skip(&self, value: usize) -> Finalize {
        Finalize(with_rows(&self.0, "\nSKIP ", value))
    }
}

/// A stage that can limit the number of rows.
pub trait LimitControlTrait: SkipControlTrait + FinalizeTrait {
    /// Adds `LIMIT value` on a line of its own.
    fn limit(&self, value: usize) -> (next: SkipControlQuery)
        ensures
            next.text() == limit_text(self.text(), value as nat),
    ;
}

/// The stage behind `AS`.
pub struct LimitControlQuery(String);

impl FinalizeTrait for LimitControlQuery {
    closed spec fn text(&self) -> Seq<char> {
        self.0@
    }

    fn finalize(&self) -> String {
        self.0.clone()
    }
}

impl SkipControlTrait for LimitControlQuery {
    fn skip(&self, value: usize) -> Finalize {
        Finalize(with_rows(&self.0, "\nSKIP ", value))
    }
}

impl LimitControlTrait for LimitControlQuery {
    fn limit(&self, value: usize) -> SkipControlQuery {
        SkipControlQuery(with_rows(&self.0, "\nLIMIT ", value))
    }
}

/// A stage that can name what it returns.
pub trait ReturnParamTrait: LimitControlTrait + FinalizeTrait {
    /// Adds `AS alias` behind what is returned.
    fn as_(&self, alias: &str) -> (next: LimitControlQuery)
        ensures
            next.text() == alias_text(self.text(), alias@),
    ;
}

/// The stage behind `RETURN`.
pub struct ReturnParamQuery {
    state: String,
}

impl ReturnParamQuery {
    pub fn new(state: String) -> (stage: Self)
        ensures
            stage.text() == state@,
    {
        Self { state }
    }
}

impl FinalizeTrait for ReturnParamQuery {
    closed spec fn text(&self) -> Seq<char> {
        self.state@
    }

    fn finalize(&self) -> String {
        self.state.clone()
    }
}

impl SkipControlTrait for ReturnParamQuery {
    fn skip(&self, value: usize) -> Finalize {
        Finalize(with_rows(&self.state, "\nSKIP ", value))
    }
}

impl LimitControlTrait for ReturnParamQuery {
    fn limit(&self, value: usize) -> SkipControlQuery {
        SkipControlQuery(with_rows(&self.state, "\nLIMIT ", value))
    }
}

impl ReturnParamTrait for ReturnParamQuery {
    fn as_(&self, alias: &str) -> LimitControlQuery {
        let mut state = self.state.clone();
        state.append(" AS ");
        state.append(alias);
        LimitControlQuery(state)
    }
}

/// A stage that a `RETURN` clause may follow.
pub trait ReturnTrait: FinalizeTrait {
    /// Adds `RETURN nv`, or `RETURN nv.field` where a field is given.
    fn return_(&self, nv: &str, field: Option<&str>) -> (next: ReturnParamQuery)
        ensures
            next.text() == return_text(self.text(), seq![nv@], opt_str_view(field)),
    ;

    /// Adds `RETURN nv.field`.
    fn return_field(&self, nv: &str, field: &str) -> (next: ReturnParamQuery)
        ensures
            next.text() == return_text(self.text(), seq![nv@], Some(field@)),
    ;

    /// Adds `RETURN` with the names in `nvs`, separated by commas.
    fn return_many(&self, nvs: Vec<&str>) -> (next: ReturnParamQuery)
        ensures
            next.text() == return_text(self.text(), str_views(nvs@), None),
    ;
}

/// The stage behind `CREATE`, `SET` and `DELETE`.
pub struct ReturnQuery {
    state: String,
}

impl ReturnQuery {
    pub fn new(state: String) -> (stage: Self)
        ensures
            stage.text() == state@,
    {
        ReturnQuery { state }
    }
}

impl FinalizeTrait for ReturnQuery {
    closed spec fn text(&self) -> Seq<char> {
        self.state@
    }

    fn finalize(&self) -> String {
        self.state.clone()
    }
}

impl ReturnTrait for ReturnQuery {
    fn return_(&self, nv: &str, field: Option<&str>) -> ReturnParamQuery {
        let mut nvs: Vec<&str> = Vec::new();
        nvs.push(nv);
        assert(str_views(nvs@) =~= seq![nv@]);
        return_method(self.state.as_str(), nvs, field)
    }

    fn return_field(&self, nv: &str, field: &str) -> ReturnParamQuery {
        self.return_(nv, Some(field))
    }

    fn return_many(&self, nvs: Vec<&str>) -> ReturnParamQuery {
        return_method(self.state.as_str(), nvs, None)
    }
}

/// Joins `nvs` with commas.
fn join_names(nvs: &Vec<&str>) -> (out: String)
    ensures
        out@ == join(str_views(nvs@), ","@),
{
    let mut out = String::new();
    let mut i: usize = 0;
    while i < nvs.len()
        invariant
            i <= nvs.len(),
            out@ == join(str_views(nvs@).take(i as int), ","@),
        decreases nvs.len() - i,
    {
        if i > 0 {
            out.append(",");
        }
        out.append(nvs[i]);
        proof {
            let names = str_views(nvs@);
            assert(names.take(i + 1).drop_last() =~= names.take(i as int));
        }
        i += 1;
    }
    assert(str_views(nvs@).take(i as int) =~= str_views(nvs@));
    out
}

/// Puts a `RETURN` clause behind `state`: the names of `nvs` separated by
/// commas where there are several, else the one name, with `.field` behind
/// it where a field is given.
pub fn return_method(state: &str, nvs: Vec<&str>, field: Option<&str>) -> (next: ReturnParamQuery)
    ensures
        next.text() == return_text(state@, str_views(nvs@), opt_str_view(field)),
{
    let mut out = String::from_str(state);
    out.append("\nRETURN ");
    out.append(join_names(&nvs).as_str());
    if nvs.len() <= 1 {
        if let Some(name) = field {
            out.append(".");
            out.append(name);
        }
    }
    assert(out@ =~= return_text(state@, str_views(nvs@), opt_str_view(field)));
    ReturnParamQuery::new(out)
}

} // verus!
