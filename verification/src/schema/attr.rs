//! The options written on a structure and on its fields.
//!
//! An option may be set once. The first setting counts; each further one
//! is a mistake, which is recorded and changes nothing.
use vstd::prelude::*;
use vstd::string::*;
use crate::schema::context::{Context, DiagnosticView, ErrorKind};
use crate::schema::input::{
    AttrInput, DeriveInput, FieldInput, Lit, Meta, NestedMeta, VariantInput,
};
use crate::text::{decimal_nat, same_text, usize_to_decimal};

verus! {

/// The option that gives a field or a structure another name.
pub const RENAME: &'static str = "rename";

/// The option that leaves a field out.
pub const SKIP: &'static str = "skip";

/// The option that makes a field a label of the node.
pub const LABEL: &'static str = "label";

/// The option that gives an optional field a value to fall back to.
pub const DEFAULT: &'static str = "default";

/// What an optional field falls back to when it has no value.
pub enum Default {
    /// Nothing: the property is `Null`.
    Unset,
    /// The default value of the field's type.
    Default,
    /// The value that the option names.
    Value(String),
}

/// A fallback as the contracts speak of it.
pub enum DefaultView {
    Unset,
    Default,
    Value(Seq<char>),
}

impl View for Default {
    type V = DefaultView;

    open spec fn view(&self) -> DefaultView {
        match self {
            Default::Unset => DefaultView::Unset,
            Default::Default => DefaultView::Default,
            Default::Value(text) => DefaultView::Value(text@),
        }
    }
}

impl Default {
    /// A fallback equal to this one.
    pub fn duplicate(&self) -> (copy: Self)
        ensures
            copy@ == self@,
    {
        match self {
            Default::Unset => Default::Unset,
            Default::Default => Default::Default,
            Default::Value(text) => Default::Value(text.clone()),
        }
    }
}

/// An option that may be set once.
pub struct Attr<T> {
    name: &'static str,
    span: Option<usize>,
    value: Option<T>,
}

/// The mistake of setting the option `name` a second time, at `span`.
pub open spec fn duplicate_error(name: Seq<char>, span: usize) -> DiagnosticView {
    DiagnosticView {
        kind: ErrorKind::Duplicate,
        message: "duplicate cypher attribute `"@ + name + "`"@,
        span,
    }
}

impl<T> Attr<T> {
    /// The name of the option.
    pub closed spec fn name(&self) -> Seq<char> {
        self.name@
    }

    /// What the option is set to, if it is set.
    pub closed spec fn value(&self) -> Option<T> {
        self.value
    }

    /// Where the option was set, if `set` has set it.
    pub closed spec fn place(&self) -> Option<usize> {
        self.span
    }

    /// The option `name`, not set.
    pub fn none(name: &'static str) -> (attr: Self)
        ensures
            attr.name() == name@,
            attr.value() is None,
            attr.place() is None,
    {
        Attr { name, span: None, value: None }
    }

    /// Where the option was set, if `set` has set it.
    pub fn span(&self) -> (span: Option<usize>)
        ensures
            span == self.place(),
    {
        self.span
    }

    /// Sets the option at `span`. If it is set already, it stays as it is
    /// and the mistake is added to `ctx`.
    pub fn set(&mut self, ctx: &mut Context, span: usize, value: T)
        ensures
            final(self).name() == old(self).name(),
            old(self).value() is Some ==> {
                &&& final(self).value() == old(self).value()
                &&& final(self).place() == old(self).place()
                &&& final(ctx)@ == old(ctx)@.push(duplicate_error(old(self).name(), span))
            },
            old(self).value() is None ==> {
                &&& final(self).value() == Some(value)
                &&& final(self).place() == Some(span)
                &&& final(ctx)@ == old(ctx)@
            },
    {
        if self.value.is_some() {
            let mut msg = String::from_str("duplicate cypher attribute `");
            msg.append(self.name);
            msg.append("`");
            ctx.error_spanned_by(span, ErrorKind::Duplicate, msg);
        } else {
            self.span = Some(span);
            self.value = Some(value);
        }
    }

    /// Sets the option at `span` if there is a value to set it to.
    pub fn set_opt(&mut self, ctx: &mut Context, span: usize, value: Option<T>)
        ensures
            final(self).name() == old(self).name(),
            value is None ==> {
                &&& final(self).value() == old(self).value()
                &&& final(ctx)@ == old(ctx)@
            },
            value is Some && old(self).value() is Some ==> {
                &&& final(self).value() == old(self).value()
                &&& final(ctx)@ == old(ctx)@.push(duplicate_error(old(self).name(), span))
            },
            value is Some && old(self).value() is None ==> {
                &&& final(self).value() == value
                &&& final(ctx)@ == old(ctx)@
            },
    {
        if let Some(value) = value {
            self.set(ctx, span, value);
        }
    }

    /// Sets the option unless it is set already; that is no mistake.
    pub fn set_if_none(&mut self, value: T)
        ensures
            final(self).name() == old(self).name(),
            final(self).place() == old(self).place(),
            final(self).value() == match old(self).value() {
                Some(first) => Some(first),
                None => Some(value),
            },
    {
        if self.value.is_none() {
            self.value = Some(value);
        }
    }

    /// What the option is set to, if it is set.
    pub fn get(self) -> (value: Option<T>)
        ensures
            value == self.value(),
    {
        self.value
    }
}

/// An option that is either there or not.
struct BoolAttr(Attr<()>);

impl BoolAttr {
    fn none(name: &'static str) -> (attr: Self)
        ensures
            attr.0.name() == name@,
            !attr.is_set(),
    {
        BoolAttr(Attr::none(name))
    }

    spec fn is_set(&self) -> bool {
        self.0.value is Some
    }

    fn set_true(&mut self, ctx: &mut Context, span: usize)
        ensures
            final(self).0.name() == old(self).0.name(),
            final(self).is_set(),
            old(self).is_set() ==> final(ctx)@ == old(ctx)@.push(
                duplicate_error(old(self).0.name(), span),
            ),
            !old(self).is_set() ==> final(ctx)@ == old(ctx)@,
    {
        self.0.set(ctx, span, ());
    }

    fn get(&self) -> (set: bool)
        ensures
            set == self.is_set(),
    {
        self.0.value.is_some()
    }
}

/// What carries the options: a field, a structure, or a variant.
#[derive(Clone, Copy)]
pub enum Owner {
    Field,
    Container,
    Variant,
}

impl Owner {
    /// The word for the owner in messages.
    pub open spec fn word(self) -> Seq<char> {
        match self {
            Owner::Field => "field"@,
            Owner::Container => "container"@,
            Owner::Variant => "variant"@,
        }
    }

    fn word_text(&self) -> (word: &'static str)
        ensures
            word@ == self.word(),
    {
        match self {
            Owner::Field => "field",
            Owner::Container => "container",
            Owner::Variant => "variant",
        }
    }

    fn is_field(&self) -> (yes: bool)
        ensures
            yes == (self is Field),
    {
        match self {
            Owner::Field => true,
            _ => false,
        }
    }
}

/// `text` without its spaces.
pub open spec fn without_spaces(text: Seq<char>) -> Seq<char> {
    text.filter(|c: char| c != ' ')
}

/// The mistake of giving the option `name` a value that is no string.
pub open spec fn expected_string_error(name: Seq<char>, span: usize) -> DiagnosticView {
    DiagnosticView {
        kind: ErrorKind::ExpectedString,
        message: "expected cypher "@ + name + " attribute to be a string: `"@ + name
            + " = \"...\"`"@,
        span,
    }
}

/// The mistake of writing an option that the owner does not have.
pub open spec fn unknown_error(owner: Owner, path: Seq<char>, span: usize) -> DiagnosticView {
    DiagnosticView {
        kind: ErrorKind::UnknownAttribute,
        message: "unknown cypher "@ + owner.word() + " attribute `"@ + without_spaces(path)
            + "`"@,
        span,
    }
}

/// The mistake of writing a literal where an option belongs.
pub open spec fn literal_error(owner: Owner, span: usize) -> DiagnosticView {
    DiagnosticView {
        kind: ErrorKind::UnexpectedLiteral,
        message: "unexpected literal in cypher "@ + owner.word() + " attribute"@,
        span,
    }
}

/// The mistake of writing an attribute that is no list of options.
pub open spec fn expected_list_error(span: usize) -> DiagnosticView {
    DiagnosticView { kind: ErrorKind::ExpectedList, message: "expected #[cypher(...)]"@, span }
}

/// The mistakes `errors` and the one that the shape of `attr` adds to
/// them: an attribute that is no list is a mistake, and so is one that
/// could not be read at all.
pub open spec fn shape_errors(errors: Seq<DiagnosticView>, attr: AttrInput) -> Seq<
    DiagnosticView,
> {
    match attr {
        AttrInput::List { .. } => errors,
        AttrInput::Other { span } => errors.push(expected_list_error(span)),
        AttrInput::Invalid { message, span } => errors.push(
            DiagnosticView { kind: ErrorKind::Syntax, message: message@, span },
        ),
    }
}

/// The options read so far, and the mistakes met so far.
pub struct OptionState {
    pub rename: Option<Seq<char>>,
    pub skip: bool,
    pub label: bool,
    pub default: Option<DefaultView>,
    pub errors: Seq<DiagnosticView>,
}

impl OptionState {
    /// Nothing read yet, after the mistakes `errors`.
    pub open spec fn start(errors: Seq<DiagnosticView>) -> OptionState {
        OptionState { rename: None, skip: false, label: false, default: None, errors }
    }

    /// The state with one more mistake.
    pub open spec fn with_error(self, error: DiagnosticView) -> OptionState {
        OptionState { errors: self.errors.push(error), ..self }
    }

    /// The state after `rename` is set at `span`.
    pub open spec fn set_rename(self, name: Seq<char>, span: usize) -> OptionState {
        if self.rename is Some {
            self.with_error(duplicate_error(RENAME@, span))
        } else {
            OptionState { rename: Some(name), ..self }
        }
    }

    /// The state after `skip` is set at `span`.
    pub open spec fn set_skip(self, span: usize) -> OptionState {
        if self.skip {
            self.with_error(duplicate_error(SKIP@, span))
        } else {
            OptionState { skip: true, ..self }
        }
    }

    /// The state after `label` is set at `span`.
    pub open spec fn set_label(self, span: usize) -> OptionState {
        if self.label {
            self.with_error(duplicate_error(LABEL@, span))
        } else {
            OptionState { label: true, ..self }
        }
    }

    /// The state after `default` is set at `span`.
    pub open spec fn set_default(self, default: DefaultView, span: usize) -> OptionState {
        if self.default is Some {
            self.with_error(duplicate_error(DEFAULT@, span))
        } else {
            OptionState { default: Some(default), ..self }
        }
    }

    /// The state after one item of an option list. Every owner can be
    /// renamed; `skip`, `label` and `default` are options of fields only.
    pub open spec fn item(self, owner: Owner, item: NestedMeta) -> OptionState {
        match item {
            NestedMeta::Meta(Meta::NameValue { path, lit, span }) if path@ == RENAME@ => match lit {
                Lit::Str { value, .. } => self.set_rename(value@, span),
                Lit::Other { span: at } => self.with_error(expected_string_error(RENAME@, at)),
            },
            NestedMeta::Meta(Meta::Path { path, span }) if owner is Field && path@ == SKIP@ => {
                self.set_skip(span)
            },
            NestedMeta::Meta(Meta::Path { path, span }) if owner is Field && path@ == LABEL@ => {
                self.set_label(span)
            },
            NestedMeta::Meta(Meta::Path { path, span }) if owner is Field && path@ == DEFAULT@ => {
                self.set_default(DefaultView::Default, span)
            },
            NestedMeta::Meta(Meta::NameValue { path, lit, span }) if owner is Field && path@
                == DEFAULT@ => match lit {
                Lit::Str { value, .. } => self.set_default(DefaultView::Value(value@), span),
                Lit::Other { span: at } => self.with_error(expected_string_error(DEFAULT@, at)),
            },
            NestedMeta::Meta(meta) => self.with_error(
                unknown_error(owner, meta.path(), meta.span()),
            ),
            NestedMeta::Lit(lit) => self.with_error(literal_error(owner, lit.span())),
        }
    }

    /// The state after the items of an option list, in order.
    pub open spec fn items(self, owner: Owner, items: Seq<NestedMeta>) -> OptionState
        decreases items.len(),
    {
        if items.len() == 0 {
            self
        } else {
            self.items(owner, items.drop_last()).item(owner, items.last())
        }
    }

    /// The state after one attribute: after its items if it is a list,
    /// else with the mistake that it is.
    pub open spec fn attr(self, owner: Owner, attr: AttrInput) -> OptionState {
        match attr {
            AttrInput::List { nested } => self.items(owner, nested@),
            _ => OptionState { errors: shape_errors(self.errors, attr), ..self },
        }
    }

    /// The state after the attributes, in order.
    pub open spec fn attrs(self, owner: Owner, attrs: Seq<AttrInput>) -> OptionState
        decreases attrs.len(),
    {
        if attrs.len() == 0 {
            self
        } else {
            self.attrs(owner, attrs.drop_last()).attr(owner, attrs.last())
        }
    }
}

/// What the attributes `attrs` say of `owner`, read in order after the
/// mistakes `errors`.
pub open spec fn options_after(
    errors: Seq<DiagnosticView>,
    owner: Owner,
    attrs: Seq<AttrInput>,
) -> OptionState {
    OptionState::start(errors).attrs(owner, attrs)
}

/// The options of one owner while they are read.
struct Options {
    rename: Attr<String>,
    skip: BoolAttr,
    label: BoolAttr,
    default: Attr<Default>,
}

impl Options {
    /// Whether each option goes by its name.
    spec fn named(&self) -> bool {
        &&& self.rename.name() == RENAME@
        &&& self.skip.0.name() == SKIP@
        &&& self.label.0.name() == LABEL@
        &&& self.default.name() == DEFAULT@
    }

    /// What has been read, beside the mistakes `errors`.
    spec fn state(&self, errors: Seq<DiagnosticView>) -> OptionState {
        OptionState {
            rename: match self.rename.value {
                Some(name) => Some(name@),
                None => None,
            },
            skip: self.skip.is_set(),
            label: self.label.is_set(),
            default: match self.default.value {
                Some(default) => Some(default@),
                None => None,
            },
            errors,
        }
    }

    /// No option set.
    fn none() -> (options: Self)
        ensures
            options.named(),
            forall|errors: Seq<DiagnosticView>|
                #[trigger] options.state(errors) == OptionState::start(errors),
    {
        Options {
            rename: Attr::none(RENAME),
            skip: BoolAttr::none(SKIP),
            label: BoolAttr::none(LABEL),
            default: Attr::none(DEFAULT),
        }
    }

    /// Records an option that `owner` does not have.
    fn unknown(ctx: &mut Context, owner: Owner, path: &str, span: usize)
        ensures
            final(ctx)@ == old(ctx)@.push(unknown_error(owner, path@, span)),
    {
        let mut msg = String::from_str("unknown cypher ");
        msg.append(owner.word_text());
        msg.append(" attribute `");
        msg.append(strip_spaces(path).as_str());
        msg.append("`");
        ctx.error_spanned_by(span, ErrorKind::UnknownAttribute, msg);
    }

    /// Reads one item of an option list.
    fn item(&mut self, ctx: &mut Context, owner: Owner, item: &NestedMeta)
        requires
            old(self).named(),
        ensures
            final(self).named(),
            final(self).state(final(ctx)@) == old(self).state(old(ctx)@).item(owner, *item),
    {
        match item {
            NestedMeta::Meta(Meta::NameValue { path, lit, span }) => {
                if same_text(path.as_str(), RENAME) {
                    if let Some(name) = get_lit_str(ctx, RENAME, lit) {
                        self.rename.set(ctx, *span, name.clone());
                    }
                } else if owner.is_field() && same_text(path.as_str(), DEFAULT) {
                    if let Some(value) = get_lit_str(ctx, DEFAULT, lit) {
                        self.default.set(ctx, *span, Default::Value(value.clone()));
                    }
                } else {
                    Self::unknown(ctx, owner, path.as_str(), *span);
                }
            },
            NestedMeta::Meta(Meta::Path { path, span }) => {
                if owner.is_field() && same_text(path.as_str(), SKIP) {
                    self.skip.set_true(ctx, *span);
                } else if owner.is_field() && same_text(path.as_str(), LABEL) {
                    self.label.set_true(ctx, *span);
                } else if owner.is_field() && same_text(path.as_str(), DEFAULT) {
                    self.default.set(ctx, *span, Default::Default);
                } else {
                    Self::unknown(ctx, owner, path.as_str(), *span);
                }
            },
            NestedMeta::Meta(Meta::List { path, span }) => {
                Self::unknown(ctx, owner, path.as_str(), *span);
            },
            NestedMeta::Lit(lit) => {
                let span = match lit {
                    Lit::Str { span, .. } => *span,
                    Lit::Other { span } => *span,
                };
                let mut msg = String::from_str("unexpected literal in cypher ");
                msg.append(owner.word_text());
                msg.append(" attribute");
                ctx.error_spanned_by(span, ErrorKind::UnexpectedLiteral, msg);
            },
        }
    }
}

/// Removes the spaces from `text`.
fn strip_spaces(text: &str) -> (out: String)
    ensures
        out@ == without_spaces(text@),
{
    let n = text.unicode_len();
    let mut out = String::new();
    let mut i: usize = 0;
    while i < n
        invariant
            i <= n,
            n == text@.len(),
            out@ == without_spaces(text@.take(i as int)),
        decreases n - i,
    {
        proof {
            let before = text@.take(i as int);
            assert(text@.take(i + 1) =~= before.push(text@[i as int]));
            before.lemma_filter_push(text@[i as int], |c: char| c != ' ');
        }
        if text.get_char(i) != ' ' {
            let one = text.substring_char(i, i + 1);
            assert(one@ =~= seq![text@[i as int]]);
            out.append(one);
            assert(out@ =~= without_spaces(text@.take(i as int)).push(text@[i as int]));
        }
        i += 1;
    }
    assert(text@.take(i as int) =~= text@);
    out
}

/// The string that a literal denotes. A literal of another kind is a
/// mistake, recorded under the name of the option `attr_name`.
fn get_lit_str<'a>(
    ctx: &mut Context,
    attr_name: &'static str,
    lit: &'a Lit,
) -> (value: Option<&'a String>)
    ensures
        match *lit {
            Lit::Str { value: text, .. } => {
                &&& value == Some(&text)
                &&& final(ctx)@ == old(ctx)@
            },
            Lit::Other { span } => {
                &&& value is None
                &&& final(ctx)@ == old(ctx)@.push(expected_string_error(attr_name@, span))
            },
        },
{
    match lit {
        Lit::Str { value, .. } => Some(value),
        Lit::Other { span } => {
            let mut msg = String::from_str("expected cypher ");
            msg.append(attr_name);
            msg.append(" attribute to be a string: `");
            msg.append(attr_name);
            msg.append(" = \"...\"`");
            ctx.error_spanned_by(*span, ErrorKind::ExpectedString, msg);
            None
        },
    }
}

/// The items of an attribute that is a list of options. An attribute of
/// another shape is a mistake, and so is one that could not be read.
fn get_cypher_meta_inputs<'a>(
    ctx: &mut Context,
    attr: &'a AttrInput,
) -> (items: Option<&'a Vec<NestedMeta>>)
    ensures
        items is Some <==> *attr is List,
        items matches Some(list) ==> *list == attr->nested,
        final(ctx)@ == shape_errors(old(ctx)@, *attr),
{
    match attr {
        AttrInput::List { nested } => Some(nested),
        AttrInput::Other { span } => {
            ctx.error_spanned_by(
                *span,
                ErrorKind::ExpectedList,
                String::from_str("expected #[cypher(...)]"),
            );
            None
        },
        AttrInput::Invalid { message, span } => {
            ctx.error_spanned_by(*span, ErrorKind::Syntax, message.clone());
            None
        },
    }
}

impl Options {
    /// Reads the options that `attrs` hold for `owner`.
    fn read(ctx: &mut Context, owner: Owner, attrs: &Vec<AttrInput>) -> (options: Self)
        ensures
            options.state(final(ctx)@) == options_after(old(ctx)@, owner, attrs@),
    {
        let mut options = Options::none();
        let mut i: usize = 0;
        while i < attrs.len()
            invariant
                i <= attrs.len(),
                options.named(),
                options.state(ctx@) == options_after(old(ctx)@, owner, attrs@.take(i as int)),
            decreases attrs.len() - i,
        {
            let ghost before = options.state(ctx@);
            if let Some(items) = get_cypher_meta_inputs(ctx, &attrs[i]) {
                let mut j: usize = 0;
                while j < items.len()
                    invariant
                        j <= items.len(),
                        options.named(),
                        options.state(ctx@) == before.items(owner, items@.take(j as int)),
                    decreases items.len() - j,
                {
                    options.item(ctx, owner, &items[j]);
                    proof {
                        assert(items@.take(j + 1).drop_last() =~= items@.take(j as int));
                    }
                    j += 1;
                }
                assert(items@.take(j as int) =~= items@);
            }
            proof {
                assert(attrs@.take(i + 1).drop_last() =~= attrs@.take(i as int));
            }
            i += 1;
        }
        assert(attrs@.take(i as int) =~= attrs@);
        options
    }
}

/// `ident` without the `r#` that marks a raw identifier.
pub open spec fn unraw_text(ident: Seq<char>) -> Seq<char>
    decreases ident.len(),
{
    if ident.len() >= 2 && ident[0] == 'r' && ident[1] == '#' {
        unraw_text(ident.skip(2))
    } else {
        ident
    }
}

/// Removes the `r#` in front of a raw identifier.
pub fn unraw(ident: &str) -> (name: String)
    ensures
        name@ == unraw_text(ident@),
{
    let n = ident.unicode_len();
    let mut start: usize = 0;
    assert(ident@.skip(0) =~= ident@);
    while n - start >= 2 && ident.get_char(start) == 'r' && ident.get_char(start + 1) == '#'
        invariant
            start <= n,
            n == ident@.len(),
            unraw_text(ident@) == unraw_text(ident@.skip(start as int)),
        decreases n - start,
    {
        proof {
            assert(ident@.skip(start as int).skip(2) =~= ident@.skip(start + 2));
        }
        start += 2;
    }
    let rest = ident.substring_char(start, n);
    assert(rest@ =~= ident@.skip(start as int));
    String::from_str(rest)
}

/// The names of a field or structure: the one that queries are written
/// with and the one that they are read with.
pub struct Name {
    pub settable: String,
    pub settable_renamed: bool,
    pub gettable: String,
    pub gettable_renamed: bool,
}

/// Names as the contracts speak of them.
pub struct NameView {
    pub settable: Seq<char>,
    pub settable_renamed: bool,
    pub gettable: Seq<char>,
    pub gettable_renamed: bool,
}

impl View for Name {
    type V = NameView;

    open spec fn view(&self) -> NameView {
        NameView {
            settable: self.settable@,
            settable_renamed: self.settable_renamed,
            gettable: self.gettable@,
            gettable_renamed: self.gettable_renamed,
        }
    }
}

/// The names that come of the name in the source and of what `rename` set.
pub open spec fn names(
    source_name: Seq<char>,
    set_name: Option<Seq<char>>,
    get_name: Option<Seq<char>>,
) -> NameView {
    NameView {
        settable: match set_name {
            Some(name) => name,
            None => source_name,
        },
        settable_renamed: set_name is Some,
        gettable: match get_name {
            Some(name) => name,
            None => source_name,
        },
        gettable_renamed: get_name is Some,
    }
}

/// The characters of an optional string.
pub open spec fn opt_text(text: Option<String>) -> Option<Seq<char>> {
    match text {
        Some(chars) => Some(chars@),
        None => None,
    }
}

impl Name {
    fn from_attrs(source_name: String, set_name: Attr<String>, get_name: Attr<String>) -> (name:
        Name)
        ensures
            name@ == names(source_name@, opt_text(set_name.value()), opt_text(get_name.value())),
    {
        let set_name = set_name.get();
        let set_renamed = set_name.is_some();
        let get_name = get_name.get();
        let get_renamed = get_name.is_some();
        Name {
            settable: match set_name {
                Some(name) => name,
                None => source_name.clone(),
            },
            settable_renamed: set_renamed,
            gettable: match get_name {
                Some(name) => name,
                None => source_name,
            },
            gettable_renamed: get_renamed,
        }
    }
}

/// The options of a field.
pub struct Field {
    pub name: Name,
    pub skip: bool,
    pub label: bool,
    pub default: Default,
}

/// The options of a field as the contracts speak of them.
pub struct FieldView {
    pub name: NameView,
    pub skip: bool,
    pub label: bool,
    pub default: DefaultView,
}

impl View for Field {
    type V = FieldView;

    open spec fn view(&self) -> FieldView {
        FieldView {
            name: self.name@,
            skip: self.skip,
            label: self.label,
            default: self.default@,
        }
    }
}

/// The name that a field has in the source: its identifier, or its place
/// among the fields where it has none.
pub open spec fn field_source_name(ident: Option<String>, index: usize) -> Seq<char> {
    match ident {
        Some(ident) => unraw_text(ident@),
        None => decimal_nat(index as nat),
    }
}

/// What the options read for a field say of it.
pub open spec fn field_of(source_name: Seq<char>, options: OptionState) -> FieldView {
    FieldView {
        name: names(source_name, options.rename, None),
        skip: options.skip,
        label: options.label,
        default: match options.default {
            Some(default) => default,
            None => DefaultView::Unset,
        },
    }
}

impl Field {
    /// Reads the options of the field at place `index`. The mistakes met
    /// on the way are added to `ctx`.
    pub fn from_ast(ctx: &mut Context, index: usize, field: &FieldInput) -> (attrs: Self)
        ensures
            final(ctx)@ == options_after(old(ctx)@, Owner::Field, field.attrs@).errors,
            attrs@ == field_of(
                field_source_name(field.ident, index),
                options_after(old(ctx)@, Owner::Field, field.attrs@),
            ),
    {
        let ident = match &field.ident {
            Some(ident) => unraw(ident.as_str()),
            None => usize_to_decimal(index),
        };
        let options = Options::read(ctx, Owner::Field, &field.attrs);
        let get_name = Attr::none(RENAME);
        Field {
            skip: options.skip.get(),
            label: options.label.get(),
            default: match options.default.get() {
                Some(default) => default,
                None => Default::Unset,
            },
            name: Name::from_attrs(ident, options.rename, get_name),
        }
    }
}

/// The options of a structure.
pub struct Container {
    pub name: Name,
}

impl Container {
    /// Reads the options of the structure. The mistakes met on the way
    /// are added to `ctx`.
    pub fn from_ast(ctx: &mut Context, input: &DeriveInput) -> (attrs: Self)
        ensures
            final(ctx)@ == options_after(old(ctx)@, Owner::Container, input.attrs@).errors,
            attrs.name@ == names(
                unraw_text(input.ident@),
                options_after(old(ctx)@, Owner::Container, input.attrs@).rename,
                None,
            ),
    {
        let options = Options::read(ctx, Owner::Container, &input.attrs);
        let get_name = Attr::none(RENAME);
        Container { name: Name::from_attrs(unraw(input.ident.as_str()), options.rename, get_name) }
    }
}

/// The options of a variant.
pub struct Variant {
    pub name: Name,
}

impl Variant {
    /// Reads the options of the variant. The mistakes met on the way are
    /// added to `ctx`.
    pub fn from_ast(ctx: &mut Context, variant: &VariantInput) -> (attrs: Self)
        ensures
            final(ctx)@ == options_after(old(ctx)@, Owner::Variant, variant.attrs@).errors,
            attrs.name@ == names(
                unraw_text(variant.ident@),
                options_after(old(ctx)@, Owner::Variant, variant.attrs@).rename,
                None,
            ),
    {
        let options = Options::read(ctx, Owner::Variant, &variant.attrs);
        let get_name = Attr::none(RENAME);
        Variant { name: Name::from_attrs(unraw(variant.ident.as_str()), options.rename, get_name) }
    }
}

/// Whether two states hold the same options, whatever mistakes they hold.
pub open spec fn same_options(a: OptionState, b: OptionState) -> bool {
    &&& a.rename == b.rename
    &&& a.skip == b.skip
    &&& a.label == b.label
    &&& a.default == b.default
}

/// What the items of an option list set does not depend on the mistakes
/// met before, and no item takes a mistake back.
pub proof fn lemma_items_keep_errors(
    a: OptionState,
    b: OptionState,
    owner: Owner,
    items: Seq<NestedMeta>,
)
    requires
        same_options(a, b),
    ensures
        same_options(a.items(owner, items), b.items(owner, items)),
        a.errors.is_prefix_of(a.items(owner, items).errors),
        a.items(owner, items).errors.len() - a.errors.len() == b.items(owner, items).errors.len()
            - b.errors.len(),
    decreases items.len(),
{
    if items.len() > 0 {
        lemma_items_keep_errors(a, b, owner, items.drop_last());
    }
}

/// What the attributes set does not depend on the mistakes met before
/// them. Mistakes are only ever added: those met before stay, in their
/// order, in front of the new ones.
pub proof fn lemma_attrs_keep_errors(
    a: OptionState,
    b: OptionState,
    owner: Owner,
    attrs: Seq<AttrInput>,
)
    requires
        same_options(a, b),
    ensures
        same_options(a.attrs(owner, attrs), b.attrs(owner, attrs)),
        a.errors.is_prefix_of(a.attrs(owner, attrs).errors),
        a.attrs(owner, attrs).errors.len() - a.errors.len() == b.attrs(owner, attrs).errors.len()
            - b.errors.len(),
    decreases attrs.len(),
{
    if attrs.len() > 0 {
        let front = attrs.drop_last();
        lemma_attrs_keep_errors(a, b, owner, front);
        match attrs.last() {
            AttrInput::List { nested } => {
                lemma_items_keep_errors(
                    a.attrs(owner, front),
                    b.attrs(owner, front),
                    owner,
                    nested@,
                );
            },
            _ => {},
        }
    }
}

} // verus!
