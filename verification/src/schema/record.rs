//! An instance of a planned structure, and the node that it stands for.
use vstd::prelude::*;
use crate::entity::{
    array_value, from_type_spec, has_key, key_index, label_texts, Entry, Label, Node, NodeTrait,
    NodeView, PropType, PropValue, Props,
};
use crate::query::Query;
use crate::schema::attr::DefaultView;
use crate::schema::cyp_que::{NodePlan, PropPlanView, PropSource, PropSourceView};
use crate::CypherTrait;

verus! {

/// What an instance holds in one of its fields, as text.
pub enum FieldValue {
    /// A value.
    Present(String),
    /// A sequence, element by element.
    Items(Vec<String>),
    /// No value. `type_default` is the default value of the field's type,
    /// for the field that falls back to it.
    Missing { type_default: String },
}

/// The property that a field value gives under a source, if the value is
/// of the shape that the source asks for. A field without a value falls
/// back to what the plan says, and to `Null` where it says nothing.
pub open spec fn prop_value(source: PropSourceView, value: FieldValue) -> Option<PropValue> {
    match (source, value) {
        (PropSourceView::Plain { ty }, FieldValue::Present(text)) => Some(
            from_type_spec(ty, Some(text@)),
        ),
        (PropSourceView::Array { elem }, FieldValue::Items(items)) => Some(
            array_value(elem, items@),
        ),
        (PropSourceView::Optional { ty, .. }, FieldValue::Present(text)) => Some(
            from_type_spec(ty, Some(text@)),
        ),
        (PropSourceView::Optional { ty, default }, FieldValue::Missing { type_default }) => Some(
            from_type_spec(
                ty,
                match default {
                    DefaultView::Unset => None,
                    DefaultView::Default => Some(type_default@),
                    DefaultView::Value(text) => Some(text),
                },
            ),
        ),
        (PropSourceView::OptionalArray { elem, .. }, FieldValue::Items(items)) => Some(
            array_value(elem, items@),
        ),
        (PropSourceView::OptionalArray { written, .. }, FieldValue::Missing { .. }) => Some(
            match written {
                Some(text) => PropValue::Raw(text),
                None => PropValue::Null,
            },
        ),
        _ => None,
    }
}

/// The entries after `value` is put under `key`: in the place of the
/// entry that has the key, or else at the end.
pub open spec fn put(entries: Seq<Entry>, key: Seq<char>, value: PropValue) -> Seq<Entry> {
    if has_key(entries, key) {
        entries.update(key_index(entries, key), (key, value))
    } else {
        entries.push((key, value))
    }
}

/// The properties that the values give under the plans, put in one after
/// the other. A value that does not fit its plan counts as `Null`.
pub open spec fn planned_entries(plans: Seq<PropPlanView>, values: Seq<FieldValue>) -> Seq<Entry>
    decreases plans.len(),
{
    if plans.len() == 0 || values.len() != plans.len() {
        Seq::empty()
    } else {
        put(
            planned_entries(plans.drop_last(), values.drop_last()),
            plans.last().name,
            match prop_value(plans.last().source, values.last()) {
                Some(value) => value,
                None => PropValue::Null,
            },
        )
    }
}

/// Whether the values are as many as the plans and each is of the shape
/// that its plan asks for.
pub open spec fn values_fit(plans: Seq<PropPlanView>, values: Seq<FieldValue>) -> bool {
    &&& values.len() == plans.len()
    &&& forall|i: int|
        0 <= i < plans.len() ==> prop_value((#[trigger] plans[i]).source, values[i]) is Some
}

/// The node that an instance stands for under the variable `nv`: its type
/// name from the plan, one property for each planned one, and its labels.
/// A node without properties has no property map, and one without labels
/// no list of labels.
pub open spec fn node_of(
    plan: NodePlan,
    values: Seq<FieldValue>,
    labels: Seq<Label>,
    nv: Seq<char>,
) -> NodeView {
    NodeView {
        nv,
        node_name: plan.node_name@,
        props: if planned_entries(plan@.props, values).len() > 0 {
            Some(planned_entries(plan@.props, values))
        } else {
            None
        },
        labels: if labels.len() > 0 {
            Some(label_texts(labels))
        } else {
            None
        },
    }
}

impl PropSource {
    /// The property that `value` gives under this source; `None` if the
    /// value is not of the shape that the source asks for.
    pub fn value(&self, value: &FieldValue) -> (prop: Option<PropType>)
        ensures
            match prop_value(self@, *value) {
                Some(expected) => prop is Some && prop->0@ == expected,
                None => prop is None,
            },
    {
        match (self, value) {
            (PropSource::Plain { ty }, FieldValue::Present(text)) => Some(
                PropType::from_type(ty.as_str(), Some(text.clone())),
            ),
            (PropSource::Array { elem }, FieldValue::Items(items)) => Some(
                PropType::arr(elem.as_str(), items.clone()),
            ),
            (PropSource::Optional { ty, .. }, FieldValue::Present(text)) => Some(
                PropType::from_type(ty.as_str(), Some(text.clone())),
            ),
            (PropSource::Optional { ty, default }, FieldValue::Missing { type_default }) => {
                let fallback = match default {
                    crate::schema::attr::Default::Unset => None,
                    crate::schema::attr::Default::Default => Some(type_default.clone()),
                    crate::schema::attr::Default::Value(text) => Some(text.clone()),
                };
                Some(PropType::from_type(ty.as_str(), fallback))
            },
            (PropSource::OptionalArray { elem, .. }, FieldValue::Items(items)) => Some(
                PropType::arr(elem.as_str(), items.clone()),
            ),
            (PropSource::OptionalArray { written, .. }, FieldValue::Missing { .. }) => Some(
                match written {
                    Some(text) => PropType::str_arr(Some(text.as_str())),
                    None => PropType::str_arr(None),
                },
            ),
            _ => None,
        }
    }
}

/// An instance of a planned structure: a value for each planned property
/// and a label for each planned label, in the order of the plan.
pub struct Record<'a> {
    plan: &'a NodePlan,
    values: Vec<FieldValue>,
    labels: Vec<Label>,
}

impl<'a> Record<'a> {
    /// The plan that the instance follows.
    pub closed spec fn plan(&self) -> NodePlan {
        *self.plan
    }

    /// The values of the planned properties.
    pub closed spec fn values(&self) -> Seq<FieldValue> {
        self.values@
    }

    /// The labels of the instance.
    pub closed spec fn labels(&self) -> Seq<Label> {
        self.labels@
    }

    #[verifier::type_invariant]
    spec fn follows_plan(&self) -> bool {
        &&& values_fit(self.plan@.props, self.values@)
        &&& self.labels@.len() == self.plan@.labels.len()
    }

    /// An instance of `plan`, if there is a value of the right shape for
    /// each planned property and a label for each planned label.
    pub fn new(
        plan: &'a NodePlan,
        values: Vec<FieldValue>,
        labels: Vec<Label>,
    ) -> (record: Option<Self>)
        ensures
            record is Some <==> {
                &&& values_fit(plan@.props, values@)
                &&& labels@.len() == plan@.labels.len()
            },
            record matches Some(r) ==> {
                &&& r.plan() == *plan
                &&& r.values() == values@
                &&& r.labels() == labels@
            },
    {
        if values.len() != plan.props.len() || labels.len() != plan.labels.len() {
            return None;
        }
        let mut i: usize = 0;
        while i < values.len()
            invariant
                i <= values.len(),
                values@.len() == plan@.props.len(),
                plan@.props.len() == plan.props@.len(),
                forall|k: int|
                    0 <= k < i ==> prop_value((#[trigger] plan@.props[k]).source, values@[k])
                        is Some,
            decreases values.len() - i,
        {
            if plan.props[i].source.value(&values[i]).is_none() {
                assert(prop_value(plan@.props[i as int].source, values@[i as int]) is None);
                return None;
            }
            i += 1;
        }
        Some(Record { plan, values, labels })
    }

    /// The properties of the instance, under the names of the plan.
    fn props(&self) -> (props: Props)
        ensures
            props@ == planned_entries(self.plan()@.props, self.values()),
    {
        proof {
            use_type_invariant(self);
        }
        let plans = &self.plan.props;
        let ghost all = self.plan@.props;
        let mut props = Props::new();
        let mut i: usize = 0;
        while i < plans.len()
            invariant
                i <= plans.len(),
                all == self.plan@.props,
                all.len() == plans@.len(),
                forall|k: int| 0 <= k < all.len() ==> all[k] == (#[trigger] plans@[k])@,
                values_fit(all, self.values@),
                props@ == planned_entries(all.take(i as int), self.values@.take(i as int)),
            decreases plans.len() - i,
        {
            let plan = &plans[i];
            let value = match plan.source.value(&self.values[i]) {
                Some(value) => value,
                None => PropType::Null,
            };
            props.insert(plan.name.clone(), value);
            proof {
                assert(all.take(i + 1).drop_last() =~= all.take(i as int));
                assert(self.values@.take(i + 1).drop_last() =~= self.values@.take(i as int));
                assert(all.take(i + 1).last() == plan@);
                assert(self.values@.take(i + 1).last() == self.values@[i as int]);
            }
            i += 1;
        }
        assert(all.take(i as int) =~= all);
        assert(self.values@.take(i as int) =~= self.values@);
        props
    }
}

impl<'a> NodeTrait for Record<'a> {
    /// The node that the instance stands for under the variable `nv`.
    fn node(&self, nv: &str) -> (node: Node)
        ensures
            node@ == node_of(self.plan(), self.values(), self.labels(), nv@),
    {
        let props = self.props();
        let labels = self.labels.clone();
        Node::new(
            nv,
            self.plan.node_name.as_str(),
            if props.len() > 0 {
                Some(props)
            } else {
                None
            },
            if labels.len() > 0 {
                Some(labels)
            } else {
                None
            },
        )
    }
}

impl<'a> CypherTrait for Record<'a> {
    /// A query without text, to be begun with this instance.
    fn cypher(&self) -> (query: Query)
        ensures
            crate::query::QueryTrait::state(&query) == Seq::<char>::empty(),
    {
        Query::init()
    }
}

} // verus!
