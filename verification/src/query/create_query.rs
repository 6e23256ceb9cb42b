//! The stage behind `CREATE`: what was created can be changed, deleted or
//! returned.
use vstd::prelude::*;
use crate::entity::PropType;
use crate::query::finalize::FinalizeTrait;
use crate::query::match_query::{
    delete_clause, delete_detach_clause, int_prop, set_clause, MatchActionTrait,
};
use crate::query::return_query::{
    return_method, str_views, ReturnParamQuery, ReturnQuery, ReturnTrait,
};

verus! {

/// The stage behind `CREATE`.
pub struct CreateQuery {
    nv: String,
    state: String,
}

impl CreateQuery {
    pub fn new(nv: String, state: String) -> (stage: Self)
        ensures
            stage.text() == state@,
            stage.subject() == nv@,
    {
        CreateQuery { nv, state }
    }
}

impl FinalizeTrait for CreateQuery {
    closed spec fn text(&self) -> Seq<char> {
        self.state@
    }

    fn finalize(&self) -> String {
        self.state.clone()
    }
}

impl ReturnTrait for CreateQuery {
    fn return_(&self, nv: &str, field: Option<&str>) -> ReturnParamQuery {
        let mut nvs: Vec<&str> = Vec::new();
        nvs.push(nv);
        assert(str_views(nvs@) =~= seq![nv@]);
        return_method(self.state.as_str(), nvs, field)
    }

    fn return_field(&self, nv: &str, field: &str) -> ReturnParamQuery {
        self.return_(nv, Some(field))
    }

    fn return_many(&self, nvs: Vec<&str>) -> ReturnParamQuery {
        return_method(self.state.as_str(), nvs, None)
    }
}

impl MatchActionTrait for CreateQuery {
    closed spec fn subject(&self) -> Seq<char> {
        self.nv@
    }

    fn delete(&self) -> ReturnQuery {
        delete_clause(self.state.as_str(), self.nv.as_str())
    }

    fn delete_detach(&self) -> ReturnQuery {
        delete_detach_clause(self.state.as_str(), self.nv.as_str())
    }

    fn set(&self, prop: &str, value: PropType) -> ReturnQuery {
        set_clause(self.state.as_str(), self.nv.as_str(), prop, &value)
    }

    fn set_var(&self, nv: &str, prop: &str, value: PropType) -> ReturnQuery {
        set_clause(self.state.as_str(), nv, prop, &value)
    }

    fn set_str(&self, prop: &str, value: &str) -> ReturnQuery {
        self.set(prop, PropType::str(value))
    }

    fn set_str_var(&self, nv: &str, prop: &str, value: &str) -> ReturnQuery {
        self.set_var(nv, prop, PropType::str(value))
    }

    fn set_int(&self, prop: &str, value: isize) -> ReturnQuery {
        self.set(prop, int_prop(value))
    }

    fn set_int_var(&self, nv: &str, prop: &str, value: isize) -> ReturnQuery {
        self.set_var(nv, prop, int_prop(value))
    }

    fn set_bool(&self, prop: &str, value: bool) -> ReturnQuery {
        self.set(prop, PropType::Bool(value))
    }

    fn set_bool_var(&self, nv: &str, prop: &str, value: bool) -> ReturnQuery {
        self.set_var(nv, prop, PropType::Bool(value))
    }
}

} // verus!
