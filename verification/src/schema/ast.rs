//! A structure after its options have been read.
use vstd::prelude::*;
use crate::schema::attr::{
    field_of, field_source_name, names, options_after, unraw_text, OptionState, Owner,
};
use crate::schema::context::{Context, DiagnosticView};
use crate::schema::input::{DeriveInput, FieldInput, TypeExpr};

verus! {

/// The shape of a structure.
#[derive(Clone, Copy, Debug, PartialEq, Eq, Structural)]
pub enum Style {
    /// Named fields.
    Struct,
    /// One unnamed field.
    Newtype,
}

/// How a field is reached in its structure: by its name, or by its place.
pub enum Member {
    Named(String),
    Unnamed(usize),
}

/// A field with its options.
pub struct Field<'a> {
    pub member: Member,
    pub attrs: crate::schema::attr::Field,
    pub ty: &'a TypeExpr,
    pub declared: &'a FieldInput,
}

/// A structure with its options and its fields.
pub struct Container<'a> {
    pub ident: String,
    pub attrs: crate::schema::attr::Container,
    pub data: (Style, Vec<Field<'a>>),
    pub declared: &'a DeriveInput,
}

/// How the field at place `index` is reached.
pub open spec fn member_of(ident: Option<String>, index: usize) -> Member {
    match ident {
        Some(name) => Member::Named(name),
        None => Member::Unnamed(index),
    }
}

/// What the options of `field` say, read after the mistakes `errors`.
pub open spec fn field_options(errors: Seq<DiagnosticView>, field: FieldInput) -> OptionState {
    options_after(errors, Owner::Field, field.attrs@)
}

/// The mistakes met once the options of `fields` have been read in order,
/// after the mistakes `errors`.
pub open spec fn errors_after(errors: Seq<DiagnosticView>, fields: Seq<FieldInput>) -> Seq<
    DiagnosticView,
>
    decreases fields.len(),
{
    if fields.len() == 0 {
        errors
    } else {
        field_options(errors_after(errors, fields.drop_last()), fields.last()).errors
    }
}

/// Whether `out` is the field at place `index` of `fields` with its
/// options, read after the mistakes `errors` and the fields before it.
pub open spec fn is_field_of(
    out: Field,
    errors: Seq<DiagnosticView>,
    fields: Seq<FieldInput>,
    index: int,
) -> bool {
    &&& *out.declared == fields[index]
    &&& *out.ty == fields[index].ty
    &&& out.member == member_of(fields[index].ident, index as usize)
    &&& out.attrs@ == field_of(
        field_source_name(fields[index].ident, index as usize),
        field_options(errors_after(errors, fields.take(index)), fields[index]),
    )
}

/// Whether `out` are the fields `fields` with their options, read in order
/// after the mistakes `errors`.
pub open spec fn are_fields_of(
    out: Seq<Field>,
    errors: Seq<DiagnosticView>,
    fields: Seq<FieldInput>,
) -> bool {
    &&& out.len() == fields.len()
    &&& forall|i: int| 0 <= i < out.len() ==> is_field_of(#[trigger] out[i], errors, fields, i)
}

/// The mistakes met once the options of the structure and of its fields
/// have been read, after the mistakes `errors`.
pub open spec fn errors_of(errors: Seq<DiagnosticView>, input: DeriveInput) -> Seq<DiagnosticView> {
    errors_after(
        options_after(errors, Owner::Container, input.attrs@).errors,
        input.fields@,
    )
}

impl<'a> Container<'a> {
    /// Reads the options of the structure and then those of its fields, in
    /// order. Every mistake met on the way is added to `ctx`; a mistake
    /// does not end the reading.
    pub fn from_ast(ctx: &mut Context, input: &'a DeriveInput) -> (item: Option<Container<'a>>)
        ensures
            final(ctx)@ == errors_of(old(ctx)@, *input),
            item matches Some(cont) && {
                &&& cont.ident == input.ident
                &&& *cont.declared == *input
                &&& cont.attrs.name@ == names(
                    unraw_text(input.ident@),
                    options_after(old(ctx)@, Owner::Container, input.attrs@).rename,
                    None,
                )
                &&& cont.data.0 == Style::Struct
                &&& are_fields_of(
                    cont.data.1@,
                    options_after(old(ctx)@, Owner::Container, input.attrs@).errors,
                    input.fields@,
                )
            },
    {
        let attrs = crate::schema::attr::Container::from_ast(ctx, input);
        let data = struct_from_ast(ctx, &input.fields);
        Some(Container { ident: input.ident.clone(), attrs, data, declared: input })
    }
}

fn struct_from_ast<'a>(ctx: &mut Context, fields: &'a Vec<FieldInput>) -> (data: (
    Style,
    Vec<Field<'a>>,
))
    ensures
        final(ctx)@ == errors_after(old(ctx)@, fields@),
        data.0 == Style::Struct,
        are_fields_of(data.1@, old(ctx)@, fields@),
{
    (Style::Struct, fields_from_ast(ctx, fields))
}

fn fields_from_ast<'a>(ctx: &mut Context, fields: &'a Vec<FieldInput>) -> (out: Vec<Field<'a>>)
    ensures
        final(ctx)@ == errors_after(old(ctx)@, fields@),
        are_fields_of(out@, old(ctx)@, fields@),
{
    let mut out: Vec<Field<'a>> = Vec::new();
    let mut i: usize = 0;
    while i < fields.len()
        invariant
            i <= fields.len(),
            out@.len() == i,
            ctx@ == errors_after(old(ctx)@, fields@.take(i as int)),
            forall|k: int| 0 <= k < i ==> is_field_of(#[trigger] out@[k], old(ctx)@, fields@, k),
        decreases fields.len() - i,
    {
        let field = &fields[i];
        let member = match &field.ident {
            Some(ident) => Member::Named(ident.clone()),
            None => Member::Unnamed(i),
        };
        let attrs = crate::schema::attr::Field::from_ast(ctx, i, field);
        out.push(Field { member, attrs, ty: &field.ty, declared: field });
        proof {
            assert(fields@.take(i + 1).drop_last() =~= fields@.take(i as int));
        }
        i += 1;
    }
    assert(fields@.take(i as int) =~= fields@);
    out
}

} // verus!
