//! The plan of a node: which field becomes which property, which fields
//! are labels, and where each value comes from.
use vstd::prelude::*;
use vstd::pervasive::unreached;
use crate::schema::ast::{
    are_fields_of, errors_after, errors_of, field_options, is_field_of, Container, Field, Member,
};
use crate::schema::attr::{
    field_of, field_source_name, names, options_after, unraw_text, DefaultView, FieldView,
    OptionState, Owner,
};
use crate::schema::context::{diagnostic_views, Context, Diagnostic, DiagnosticView};
use crate::schema::input::{DeriveInput, FieldInput, GenericArg, PathArgs, TypeExpr};
use crate::text::same_text;

verus! {

/// Where the value of a property comes from.
pub enum PropSource {
    /// A field of the type `ty`.
    Plain { ty: String },
    /// A sequence with elements of the type `elem`.
    Array { elem: String },
    /// A field of the type `ty` that may have no value, and what it falls
    /// back to then.
    Optional { ty: String, default: crate::schema::attr::Default },
    /// A sequence with elements of the type `elem` that may be missing,
    /// and the written-out array, if any, that it falls back to then.
    OptionalArray { elem: String, written: Option<String> },
}

/// The source of a value as the contracts speak of it.
pub enum PropSourceView {
    Plain { ty: Seq<char> },
    Array { elem: Seq<char> },
    Optional { ty: Seq<char>, default: DefaultView },
    OptionalArray { elem: Seq<char>, written: Option<Seq<char>> },
}

impl View for PropSource {
    type V = PropSourceView;

    open spec fn view(&self) -> PropSourceView {
        match self {
            PropSource::Plain { ty } => PropSourceView::Plain { ty: ty@ },
            PropSource::Array { elem } => PropSourceView::Array { elem: elem@ },
            PropSource::Optional { ty, default } => PropSourceView::Optional {
                ty: ty@,
                default: default@,
            },
            PropSource::OptionalArray { elem, written } => PropSourceView::OptionalArray {
                elem: elem@,
                written: match written {
                    Some(text) => Some(text@),
                    None => None,
                },
            },
        }
    }
}

/// How a field is reached, as the contracts speak of it.
pub enum MemberView {
    Named(Seq<char>),
    Unnamed(usize),
}

impl View for Member {
    type V = MemberView;

    open spec fn view(&self) -> MemberView {
        match self {
            Member::Named(name) => MemberView::Named(name@),
            Member::Unnamed(index) => MemberView::Unnamed(*index),
        }
    }
}

/// One property of the node: the field that it is taken from, the name
/// that it has in queries, and where its value comes from.
pub struct PropPlan {
    pub field: Member,
    pub name: String,
    pub source: PropSource,
}

/// The plan of a property as the contracts speak of it.
pub struct PropPlanView {
    pub field: MemberView,
    pub name: Seq<char>,
    pub source: PropSourceView,
}

impl View for PropPlan {
    type V = PropPlanView;

    open spec fn view(&self) -> PropPlanView {
        PropPlanView { field: self.field@, name: self.name@, source: self.source@ }
    }
}

/// The plan of a node: the name of its type, its properties, and the
/// fields that give its labels.
pub struct NodePlan {
    pub node_name: String,
    pub props: Vec<PropPlan>,
    pub labels: Vec<Member>,
}

/// The plan of a node as the contracts speak of it.
pub struct NodePlanView {
    pub node_name: Seq<char>,
    pub props: Seq<PropPlanView>,
    pub labels: Seq<MemberView>,
}

impl View for NodePlan {
    type V = NodePlanView;

    open spec fn view(&self) -> NodePlanView {
        NodePlanView {
            node_name: self.node_name@,
            props: Seq::new(self.props@.len(), |i: int| self.props@[i]@),
            labels: Seq::new(self.labels@.len(), |i: int| self.labels@[i]@),
        }
    }
}

/// The type that `ty` wraps, if `ty` is the generic type `wrapper` with
/// exactly one argument that is a type, written without a path before it.
pub open spec fn inner_type(wrapper: Seq<char>, ty: TypeExpr) -> Option<TypeExpr> {
    match ty.path {
        Some(segments) if segments@.len() == 1 && segments@[0].ident@ == wrapper => {
            match segments@[0].arguments {
                PathArgs::AngleBracketed { args } if args@.len() == 1 => match args@[0] {
                    GenericArg::Type(inner) => Some(inner),
                    GenericArg::Other => None,
                },
                _ => None,
            }
        },
        _ => None,
    }
}

/// Finds the type that the generic type `wrapper` wraps in `ty`.
pub fn ty_inner_type<'a>(wrapper: &str, ty: &'a TypeExpr) -> (inner: Option<&'a TypeExpr>)
    ensures
        inner == match inner_type(wrapper@, *ty) {
            Some(found) => Some(&found),
            None => None,
        },
{
    if let Some(segments) = &ty.path {
        if segments.len() != 1 || !same_text(segments[0].ident.as_str(), wrapper) {
            return None;
        }
        if let PathArgs::AngleBracketed { args } = &segments[0].arguments {
            if args.len() != 1 {
                return None;
            }
            if let GenericArg::Type(inner) = &args[0] {
                return Some(inner);
            }
        }
    }
    None
}

/// Where the value of a field of the declared type `ty` comes from, given
/// what the field falls back to: a type inside `Option` may have no value,
/// a type inside `Vec` is a sequence.
pub open spec fn source_of(ty: TypeExpr, default: DefaultView) -> PropSourceView {
    match inner_type("Option"@, ty) {
        Some(inner) => match inner_type("Vec"@, inner) {
            Some(elem) => PropSourceView::OptionalArray {
                elem: elem.text@,
                written: match default {
                    DefaultView::Value(text) => Some(text),
                    _ => None,
                },
            },
            None => PropSourceView::Optional { ty: inner.text@, default },
        },
        None => match inner_type("Vec"@, ty) {
            Some(elem) => PropSourceView::Array { elem: elem.text@ },
            None => PropSourceView::Plain { ty: ty.text@ },
        },
    }
}

/// The written-out array that a missing sequence falls back to.
fn written_array(default: &crate::schema::attr::Default) -> (text: Option<String>)
    ensures
        text matches Some(chars) ==> default@ == DefaultView::Value(chars@),
        text is None ==> !(default@ is Value),
{
    match default {
        crate::schema::attr::Default::Value(text) => Some(text.clone()),
        _ => None,
    }
}

/// Finds where the value of a field of the declared type `ty` comes from.
fn source(ty: &TypeExpr, default: &crate::schema::attr::Default) -> (out: PropSource)
    ensures
        out@ == source_of(*ty, default@),
{
    if let Some(inner) = ty_inner_type("Option", ty) {
        if let Some(elem) = ty_inner_type("Vec", inner) {
            PropSource::OptionalArray {
                elem: elem.text.clone(),
                written: written_array(default),
            }
        } else {
            PropSource::Optional { ty: inner.text.clone(), default: default.duplicate() }
        }
    } else if let Some(elem) = ty_inner_type("Vec", ty) {
        PropSource::Array { elem: elem.text.clone() }
    } else {
        PropSource::Plain { ty: ty.text.clone() }
    }
}

/// How `field` is reached.
fn member(field: &Field) -> (out: Member)
    ensures
        out@ == field.member@,
{
    match &field.member {
        Member::Named(name) => Member::Named(name.clone()),
        Member::Unnamed(index) => Member::Unnamed(*index),
    }
}

/// The properties that the fields `fields` give: one for each field that
/// is neither left out nor a label, in the order of the fields.
pub open spec fn props_of(fields: Seq<Field>) -> Seq<PropPlanView>
    decreases fields.len(),
{
    if fields.len() == 0 {
        Seq::empty()
    } else {
        let field = fields.last();
        if !field.attrs.skip && !field.attrs.label {
            props_of(fields.drop_last()).push(
                PropPlanView {
                    field: field.member@,
                    name: field.attrs.name.settable@,
                    source: source_of(*field.ty, field.attrs.default@),
                },
            )
        } else {
            props_of(fields.drop_last())
        }
    }
}

/// The fields among `fields` that give the labels of the node: those that
/// are marked as labels and not left out, in the order of the fields.
pub open spec fn labels_of(fields: Seq<Field>) -> Seq<MemberView>
    decreases fields.len(),
{
    if fields.len() == 0 {
        Seq::empty()
    } else {
        let field = fields.last();
        if !field.attrs.skip && field.attrs.label {
            labels_of(fields.drop_last()).push(field.member@)
        } else {
            labels_of(fields.drop_last())
        }
    }
}

/// Gathers the fields that are marked as labels of the node.
fn collect_labels(cont: &Container) -> (out: Vec<Member>)
    ensures
        Seq::new(out@.len(), |i: int| out@[i]@) == labels_of(cont.data.1@),
{
    let fields = &cont.data.1;
    let mut out: Vec<Member> = Vec::new();
    let mut i: usize = 0;
    while i < fields.len()
        invariant
            i <= fields.len(),
            Seq::new(out@.len(), |i: int| out@[i]@) == labels_of(fields@.take(i as int)),
        decreases fields.len() - i,
    {
        let ghost before = Seq::new(out@.len(), |i: int| out@[i]@);
        let field = &fields[i];
        if !field.attrs.skip && field.attrs.label {
            out.push(member(field));
            assert(Seq::new(out@.len(), |i: int| out@[i]@) =~= before.push(field.member@));
        }
        proof {
            assert(fields@.take(i + 1).drop_last() =~= fields@.take(i as int));
        }
        i += 1;
    }
    assert(fields@.take(i as int) =~= fields@);
    out
}

/// Gathers the fields that are not marked as labels. They become the
/// properties of the node, under the names that they have in queries.
fn collect_props(cont: &Container) -> (out: Vec<PropPlan>)
    ensures
        Seq::new(out@.len(), |i: int| out@[i]@) == props_of(cont.data.1@),
{
    let fields = &cont.data.1;
    let mut out: Vec<PropPlan> = Vec::new();
    let mut i: usize = 0;
    while i < fields.len()
        invariant
            i <= fields.len(),
            Seq::new(out@.len(), |i: int| out@[i]@) == props_of(fields@.take(i as int)),
        decreases fields.len() - i,
    {
        let ghost before = Seq::new(out@.len(), |i: int| out@[i]@);
        let field = &fields[i];
        if !field.attrs.skip && !field.attrs.label {
            let plan = PropPlan {
                field: member(field),
                name: field.attrs.name.settable.clone(),
                source: source(field.ty, &field.attrs.default),
            };
            out.push(plan);
            assert(Seq::new(out@.len(), |i: int| out@[i]@) =~= before.push(plan@));
        }
        proof {
            assert(fields@.take(i + 1).drop_last() =~= fields@.take(i as int));
        }
        i += 1;
    }
    assert(fields@.take(i as int) =~= fields@);
    out
}

/// How the field at place `index` is reached, as the contracts speak of it.
pub open spec fn member_view(ident: Option<String>, index: usize) -> MemberView {
    match ident {
        Some(name) => MemberView::Named(name@),
        None => MemberView::Unnamed(index),
    }
}

/// What the options of the field at place `index` say of it.
pub open spec fn field_summary(field: FieldInput, index: usize) -> FieldView {
    field_of(field_source_name(field.ident, index), field_options(Seq::empty(), field))
}

/// The properties of the node that the declared fields give: one for each
/// field that is neither left out nor a label, in the order of the fields,
/// under the name that `rename` gives it or else under its own.
pub open spec fn planned_props(fields: Seq<FieldInput>) -> Seq<PropPlanView>
    decreases fields.len(),
{
    if fields.len() == 0 {
        Seq::empty()
    } else {
        let index = (fields.len() - 1) as usize;
        let field = fields.last();
        let summary = field_summary(field, index);
        if !summary.skip && !summary.label {
            planned_props(fields.drop_last()).push(
                PropPlanView {
                    field: member_view(field.ident, index),
                    name: summary.name.settable,
                    source: source_of(field.ty, summary.default),
                },
            )
        } else {
            planned_props(fields.drop_last())
        }
    }
}

/// The fields that give the labels of the node: those marked as labels
/// and not left out, in the order of the fields.
pub open spec fn planned_labels(fields: Seq<FieldInput>) -> Seq<MemberView>
    decreases fields.len(),
{
    if fields.len() == 0 {
        Seq::empty()
    } else {
        let index = (fields.len() - 1) as usize;
        let field = fields.last();
        let summary = field_summary(field, index);
        if !summary.skip && summary.label {
            planned_labels(fields.drop_last()).push(member_view(field.ident, index))
        } else {
            planned_labels(fields.drop_last())
        }
    }
}

/// The plan of the node that a declared structure describes. The type of
/// the node is named as `rename` says, or else as the structure is.
pub open spec fn node_plan(input: DeriveInput) -> NodePlanView {
    NodePlanView {
        node_name: names(
            unraw_text(input.ident@),
            options_after(Seq::empty(), Owner::Container, input.attrs@).rename,
            None,
        ).settable,
        props: planned_props(input.fields@),
        labels: planned_labels(input.fields@),
    }
}

/// The mistakes in the options of a declared structure, in the order of
/// the source: those of the structure first, then those of each field.
pub open spec fn mistakes(input: DeriveInput) -> Seq<DiagnosticView> {
    errors_of(Seq::empty(), input)
}

proof fn lemma_plans_of_fields(
    out: Seq<Field>,
    errors: Seq<DiagnosticView>,
    fields: Seq<FieldInput>,
)
    requires
        are_fields_of(out, errors, fields),
    ensures
        props_of(out) == planned_props(fields),
        labels_of(out) == planned_labels(fields),
    decreases fields.len(),
{
    if fields.len() > 0 {
        let front = fields.drop_last();
        let index = fields.len() - 1;
        assert forall|i: int| 0 <= i < out.drop_last().len() implies is_field_of(
            #[trigger] out.drop_last()[i],
            errors,
            front,
            i,
        ) by {
            assert(is_field_of(out[i], errors, fields, i));
            assert(front.take(i) =~= fields.take(i));
        }
        lemma_plans_of_fields(out.drop_last(), errors, front);
        assert(is_field_of(out[index], errors, fields, index));
        crate::schema::attr::lemma_attrs_keep_errors(
            OptionState::start(errors_after(errors, fields.take(index))),
            OptionState::start(Seq::empty()),
            Owner::Field,
            fields[index].attrs@,
        );
    }
}

/// Analyses a declared structure. Where its options hold no mistake, the
/// result is the plan of its node; else it is every mistake that was met,
/// in the order of the source.
pub fn expand_derive_cypque(input: &DeriveInput) -> (out: Result<NodePlan, Vec<Diagnostic>>)
    ensures
        match out {
            Ok(plan) => {
                &&& mistakes(*input).len() == 0
                &&& plan@ == node_plan(*input)
            },
            Err(errors) => {
                &&& mistakes(*input).len() > 0
                &&& diagnostic_views(errors@) == mistakes(*input)
            },
        },
{
    let mut ctx = Context::new();
    let found = Container::from_ast(&mut ctx, input);
    if let Err(errors) = ctx.check() {
        return Err(errors);
    }
    let cont = match found {
        Some(cont) => cont,
        None => unreached(),
    };
    let props = collect_props(&cont);
    let labels = collect_labels(&cont);
    proof {
        lemma_plans_of_fields(
            cont.data.1@,
            options_after(Seq::empty(), Owner::Container, input.attrs@).errors,
            input.fields@,
        );
    }
    let plan = NodePlan { node_name: cont.attrs.name.settable.clone(), props, labels };
    assert(plan@.props =~= node_plan(*input).props);
    assert(plan@.labels =~= node_plan(*input).labels);
    Ok(plan)
}

} // verus!
