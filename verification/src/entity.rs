//! Property values, property maps and the entities (nodes and relations)
//! that queries are built from.
use vstd::prelude::*;
use vstd::string::*;
use crate::text::{bool_text, bool_to_text, join, same_text};

verus! {

/// What a property value is, as far as query text is concerned.
pub enum PropValue {
    /// A number, kept as the text that writes it.
    Int(Seq<char>),
    /// A string, kept without quotes.
    Text(Seq<char>),
    Bool(bool),
    /// A list of values, written element by element.
    Array(Seq<PropValue>),
    /// A list that is already written out as a literal.
    Raw(Seq<char>),
    Null,
}

impl PropValue {
    /// The literal that stands for this value in query text.
    pub open spec fn literal(self) -> Seq<char>
        decreases self, 1nat,
    {
        match self {
            PropValue::Int(digits) => digits,
            PropValue::Text(chars) => "'"@ + chars + "'"@,
            PropValue::Bool(b) => bool_text(b),
            PropValue::Array(items) => "["@ + join(literals(items), ","@) + "]"@,
            PropValue::Raw(chars) => chars,
            PropValue::Null => "NULL"@,
        }
    }
}

/// The literal of each value of `items`, in order.
pub open spec fn literals(items: Seq<PropValue>) -> Seq<Seq<char>>
    decreases items, 0nat,
{
    if items.len() == 0 {
        Seq::empty()
    } else {
        literals(items.drop_last()).push(items.last().literal())
    }
}

/// The values that a property of an entity can have.
pub enum PropType {
    /// A number, kept as the text that writes it.
    Int(String),
    /// A string. It is written between single quotes as it stands: what
    /// has to be escaped must be escaped already.
    String(String),
    Bool(bool),
    /// A list of values.
    Array(Vec<PropType>),
    /// A well-formed array that already exists as a string, such as
    /// `['Bob','Tom']`. It is written into the query as it stands.
    StrArr(String),
    /// The NULL of the query language.
    Null,
}

impl View for PropType {
    type V = PropValue;

    open spec fn view(&self) -> PropValue
        decreases self,
    {
        match self {
            PropType::Int(digits) => PropValue::Int(digits@),
            PropType::String(chars) => PropValue::Text(chars@),
            PropType::Bool(b) => PropValue::Bool(*b),
            PropType::Array(items) => PropValue::Array(
                Seq::new(
                    items@.len(),
                    |i: int|
                        if 0 <= i < items@.len() {
                            items@[i].view()
                        } else {
                            PropValue::Null
                        },
                ),
            ),
            PropType::StrArr(chars) => PropValue::Raw(chars@),
            PropType::Null => PropValue::Null,
        }
    }
}

/// The literals of a prefix grow with the prefix.
proof fn lemma_literals_push(items: Seq<PropValue>, item: PropValue)
    ensures
        literals(items.push(item)) == literals(items).push(item.literal()),
{
    assert(items.push(item).drop_last() =~= items);
}

/// There is one literal for each value.
proof fn lemma_literals_len(items: Seq<PropValue>)
    ensures
        literals(items).len() == items.len(),
    decreases items.len(),
{
    if items.len() > 0 {
        lemma_literals_len(items.drop_last());
    }
}

/// An array and the array that is already written out are written alike:
/// the literal of an array, kept as a written-out array, is written as the
/// array itself is.
pub proof fn lemma_written_array_is_written_alike(items: Seq<PropValue>)
    ensures
        PropValue::Raw(PropValue::Array(items).literal()).literal() == PropValue::Array(
            items,
        ).literal(),
{
}

impl PropType {
    /// Creates the property type `Int` from the text of a number.
    pub fn integer(value: &str) -> (prop: PropType)
        ensures
            prop@ == PropValue::Int(value@),
    {
        PropType::Int(value.to_owned())
    }

    /// Creates the property type `String`.
    pub fn str(value: &str) -> (prop: PropType)
        ensures
            prop@ == PropValue::Text(value@),
    {
        PropType::String(value.to_owned())
    }

    /// Creates the property type `Array`: each element of `value` becomes
    /// the property that `from_type` makes of it under the type name `ty`.
    pub fn arr(ty: &str, value: Vec<String>) -> (prop: PropType)
        ensures
            prop@ == array_value(ty@, value@),
    {
        let mut items: Vec<PropType> = Vec::new();
        let mut i: usize = 0;
        while i < value.len()
            invariant
                i <= value.len(),
                items@.len() == i,
                forall|k: int|
                    0 <= k < i ==> (#[trigger] items@[k])@ == from_type_spec(ty@, Some(value@[k]@)),
            decreases value.len() - i,
        {
            items.push(PropType::from_type(ty, Some(value[i].clone())));
            i += 1;
        }
        let prop = PropType::Array(items);
        assert(prop@->Array_0 =~= array_value(ty@, value@)->Array_0);
        prop
    }

    /// Creates the property for an array that is already written out, such
    /// as `['Bob','Tom']`; no text gives `Null`.
    pub fn str_arr(value: Option<&str>) -> (prop: PropType)
        ensures
            prop@ == match value {
                Some(chars) => PropValue::Raw(chars@),
                None => PropValue::Null,
            },
    {
        if let Some(value) = value {
            PropType::StrArr(value.to_owned())
        } else {
            PropType::Null
        }
    }

    /// Chooses the kind of property from the name of a type and the text of
    /// a value of that type.
    pub fn from_type(tt: &str, value: Option<String>) -> (prop: PropType)
        ensures
            prop@ == from_type_spec(
                tt@,
                match value {
                    Some(chars) => Some(chars@),
                    None => None,
                },
            ),
    {
        if let Some(value) = value {
            if same_text(tt, "String") {
                PropType::String(value)
            } else if is_integer_type(tt) {
                PropType::Int(value)
            } else if same_text(tt, "bool") {
                PropType::Bool(same_text(value.as_str(), "true"))
            } else {
                PropType::String(value)
            }
        } else {
            PropType::Null
        }
    }

    /// Writes the value as a literal of the query language.
    pub fn to_prop(&self) -> (out: String)
        ensures
            out@ == self@.literal(),
        decreases self,
    {
        match self {
            PropType::Int(value) => value.clone(),
            PropType::String(value) => {
                let mut out = String::from_str("'");
                out.append(value.as_str());
                out.append("'");
                out
            },
            PropType::Bool(value) => bool_to_text(*value),
            PropType::Array(items) => {
                let ghost values = self@->Array_0;
                let mut out = String::from_str("[");
                let mut i: usize = 0;
                while i < items.len()
                    invariant
                        i <= items.len(),
                        values == self@->Array_0,
                        self == PropType::Array(*items),
                        out@ == "["@ + join(literals(values.take(i as int)), ","@),
                    decreases items.len() - i,
                {
                    if i > 0 {
                        out.append(",");
                    }
                    let part = items[i].to_prop();
                    out.append(part.as_str());
                    proof {
                        let before = values.take(i as int);
                        assert(values.take(i + 1) =~= before.push(values[i as int]));
                        lemma_literals_push(before, values[i as int]);
                        lemma_literals_len(before);
                        let parts = literals(before).push(values[i as int].literal());
                        assert(parts.drop_last() =~= literals(before));
                    }
                    i += 1;
                }
                assert(values.take(i as int) =~= values);
                out.append("]");
                out
            },
            PropType::StrArr(value) => value.clone(),
            PropType::Null => String::from_str("NULL"),
        }
    }
}

/// Whether `tt` names one of the integer types: 8 to 128 bits, signed or
/// unsigned, or pointer-sized.
pub open spec fn is_integer_type_name(tt: Seq<char>) -> bool {
    ||| tt == "i128"@
    ||| tt == "i64"@
    ||| tt == "i32"@
    ||| tt == "i16"@
    ||| tt == "i8"@
    ||| tt == "u128"@
    ||| tt == "u64"@
    ||| tt == "u32"@
    ||| tt == "u16"@
    ||| tt == "u8"@
    ||| tt == "usize"@
    ||| tt == "isize"@
}

/// The property that stands for a value of the type named `tt` whose text
/// is `value`. A value of type `bool` counts as true only when its text is
/// exactly `true`; a type that is not recognised is taken for text.
pub open spec fn from_type_spec(tt: Seq<char>, value: Option<Seq<char>>) -> PropValue {
    match value {
        None => PropValue::Null,
        Some(chars) => if tt == "String"@ {
            PropValue::Text(chars)
        } else if is_integer_type_name(tt) {
            PropValue::Int(chars)
        } else if tt == "bool"@ {
            PropValue::Bool(chars == "true"@)
        } else {
            PropValue::Text(chars)
        },
    }
}

/// The texts `items` as an array of properties of the type named `elem`.
pub open spec fn array_value(elem: Seq<char>, items: Seq<String>) -> PropValue {
    PropValue::Array(Seq::new(items.len(), |i: int| from_type_spec(elem, Some(items[i]@))))
}

fn is_integer_type(tt: &str) -> (yes: bool)
    ensures
        yes == is_integer_type_name(tt@),
{
    same_text(tt, "i128") || same_text(tt, "i64") || same_text(tt, "i32")
        || same_text(tt, "i16") || same_text(tt, "i8") || same_text(tt, "u128")
        || same_text(tt, "u64") || same_text(tt, "u32") || same_text(tt, "u16")
        || same_text(tt, "u8") || same_text(tt, "usize") || same_text(tt, "isize")
}

/// Whether two values are of the same kind. Only the kind is compared,
/// never the payload: two numbers are the same kind whatever they are.
pub open spec fn same_kind(a: PropValue, b: PropValue) -> bool {
    match (a, b) {
        (PropValue::Int(_), PropValue::Int(_)) => true,
        (PropValue::Text(_), PropValue::Text(_)) => true,
        (PropValue::Bool(_), PropValue::Bool(_)) => true,
        (PropValue::Array(_), PropValue::Array(_)) => true,
        (PropValue::Raw(_), PropValue::Raw(_)) => true,
        (PropValue::Null, PropValue::Null) => true,
        _ => false,
    }
}

impl PartialEq for PropType {
    /// Equality by kind, which is what telling a `Null` placeholder from a
    /// value takes.
    fn eq(&self, other: &Self) -> (same: bool) {
        match (self, other) {
            (PropType::Int(_), PropType::Int(_)) => true,
            (PropType::String(_), PropType::String(_)) => true,
            (PropType::Bool(_), PropType::Bool(_)) => true,
            (PropType::Array(_), PropType::Array(_)) => true,
            (PropType::StrArr(_), PropType::StrArr(_)) => true,
            (PropType::Null, PropType::Null) => true,
            _ => false,
        }
    }
}

impl vstd::std_specs::cmp::PartialEqSpecImpl for PropType {
    open spec fn obeys_eq_spec() -> bool {
        true
    }

    open spec fn eq_spec(&self, other: &Self) -> bool {
        same_kind(self@, other@)
    }
}

/// An entry of a property map: a name and the value under it.
pub type Entry = (Seq<char>, PropValue);

/// No two entries have the same key.
pub open spec fn unique_keys(entries: Seq<Entry>) -> bool {
    forall|i: int, j: int|
        0 <= i < j < entries.len() ==> (#[trigger] entries[i]).0 != (#[trigger] entries[j]).0
}

/// Whether some entry has the key `key`.
pub open spec fn has_key(entries: Seq<Entry>, key: Seq<char>) -> bool {
    exists|i: int| 0 <= i < entries.len() && (#[trigger] entries[i]).0 == key
}

/// The place of an entry with the key `key`, where there is one.
pub open spec fn key_index(entries: Seq<Entry>, key: Seq<char>) -> int {
    choose|i: int| 0 <= i < entries.len() && (#[trigger] entries[i]).0 == key
}

/// The properties of an entity: values under unique names, kept in the
/// order in which the names were first inserted.
pub struct Props {
    entries: Vec<(String, PropType)>,
}

impl View for Props {
    type V = Seq<Entry>;

    closed spec fn view(&self) -> Seq<Entry> {
        Seq::new(self.entries@.len(), |i: int| (self.entries@[i].0@, self.entries@[i].1@))
    }
}

impl Props {
    #[verifier::type_invariant]
    spec fn keys_differ(&self) -> bool {
        unique_keys(self@)
    }

    /// A map without entries.
    pub fn new() -> (props: Props)
        ensures
            props@ == Seq::<Entry>::empty(),
    {
        let props = Props { entries: Vec::new() };
        assert(props@ =~= Seq::<Entry>::empty());
        props
    }

    /// The number of entries.
    pub fn len(&self) -> (n: usize)
        ensures
            n == self@.len(),
            unique_keys(self@),
    {
        proof {
            use_type_invariant(self);
        }
        self.entries.len()
    }

    /// Whether there is no entry.
    pub fn is_empty(&self) -> (empty: bool)
        ensures
            empty == (self@.len() == 0),
    {
        self.entries.len() == 0
    }

    /// The name of the entry at place `index`.
    pub fn key_at(&self, index: usize) -> (key: &str)
        requires
            index < self@.len(),
        ensures
            key@ == self@[index as int].0,
    {
        self.entries[index].0.as_str()
    }

    /// The value of the entry at place `index`.
    pub fn value_at(&self, index: usize) -> (value: &PropType)
        requires
            index < self@.len(),
        ensures
            value@ == self@[index as int].1,
    {
        &self.entries[index].1
    }

    /// The place of the entry that has the key `key`.
    fn find(&self, key: &str) -> (found: Option<usize>)
        ensures
            match found {
                Some(i) => {
                    &&& i < self@.len()
                    &&& self@[i as int].0 == key@
                    &&& has_key(self@, key@)
                    &&& key_index(self@, key@) == i
                },
                None => !has_key(self@, key@),
            },
    {
        proof {
            use_type_invariant(self);
        }
        let mut i: usize = 0;
        while i < self.entries.len()
            invariant
                i <= self.entries@.len(),
                self@.len() == self.entries@.len(),
                unique_keys(self@),
                forall|k: int| 0 <= k < i ==> (#[trigger] self@[k]).0 != key@,
            decreases self.entries.len() - i,
        {
            if same_text(self.entries[i].0.as_str(), key) {
                assert(self@[i as int].0 == key@);
                return Some(i);
            }
            i += 1;
        }
        None
    }

    /// The value under `key`, if there is one.
    pub fn get(&self, key: &str) -> (value: Option<&PropType>)
        ensures
            unique_keys(self@),
            has_key(self@, key@) <==> value is Some,
            value matches Some(v) ==> v@ == self@[key_index(self@, key@)].1,
    {
        proof {
            use_type_invariant(self);
        }
        match self.find(key) {
            Some(i) => Some(&self.entries[i].1),
            None => None,
        }
    }

    /// Whether there is a value under `key`.
    pub fn contains_key(&self, key: &str) -> (found: bool)
        ensures
            found == has_key(self@, key@),
    {
        self.find(key).is_some()
    }

    /// Puts `value` under `key`. A name that is new goes to the end; a name
    /// that is there already keeps its place, takes the new value and hands
    /// back the old one.
    pub fn insert(&mut self, key: String, value: PropType) -> (previous: Option<PropType>)
        ensures
            unique_keys(final(self)@),
            has_key(old(self)@, key@) ==> {
                let at = key_index(old(self)@, key@);
                &&& previous is Some
                &&& previous->0@ == old(self)@[at].1
                &&& final(self)@ == old(self)@.update(at, (key@, value@))
            },
            !has_key(old(self)@, key@) ==> {
                &&& previous is None
                &&& final(self)@ == old(self)@.push((key@, value@))
            },
    {
        proof {
            use_type_invariant(&*self);
        }
        let ghost before = self@;
        let found = self.find(key.as_str());
        // The entries are taken out while they change, so that the map is
        // never seen between two steps of a change.
        let mut entries: Vec<(String, PropType)> = Vec::new();
        core::mem::swap(&mut entries, &mut self.entries);
        let previous = match found {
            Some(i) => {
                let removed = entries.remove(i);
                entries.insert(i, (key, value));
                Some(removed.1)
            },
            None => {
                entries.push((key, value));
                None
            },
        };
        proof {
            let after = Seq::new(entries@.len(), |k: int| (entries@[k].0@, entries@[k].1@));
            match found {
                Some(i) => {
                    assert(after =~= before.update(i as int, (key@, value@)));
                },
                None => {
                    assert(after =~= before.push((key@, value@)));
                },
            }
        }
        self.entries = entries;
        previous
    }
}

/// A node label. Any text will do.
pub type Label = String;

/// The characters of each label, in order.
pub open spec fn label_texts(labels: Seq<Label>) -> Seq<Seq<char>> {
    Seq::new(labels.len(), |i: int| labels[i]@)
}

/// What a node is, as far as query text is concerned.
pub struct NodeView {
    /// The variable that stands for the node in the query.
    pub nv: Seq<char>,
    /// The name of the node's type, its first label.
    pub node_name: Seq<char>,
    pub props: Option<Seq<Entry>>,
    /// The labels beyond the type name.
    pub labels: Option<Seq<Seq<char>>>,
}

/// What a relation is, as far as query text is concerned.
pub struct RelationView {
    pub from: NodeView,
    pub to: NodeView,
    pub name: Seq<char>,
    pub props: Option<Seq<Entry>>,
}

/// What an entity is, as far as query text is concerned.
pub enum EntityView {
    Node(NodeView),
    Relation(RelationView),
}

/// The view of an optional property map.
pub open spec fn props_view(props: Option<Props>) -> Option<Seq<Entry>> {
    match props {
        Some(p) => Some(p@),
        None => None,
    }
}

/// The view of an optional list of labels.
pub open spec fn labels_view(labels: Option<Vec<Label>>) -> Option<Seq<Seq<char>>> {
    match labels {
        Some(l) => Some(label_texts(l@)),
        None => None,
    }
}

/// Implemented by what can describe itself as a node.
pub trait NodeTrait: Sized {
    /// This value as a node that queries call `nv`.
    fn node(&self, nv: &str) -> Node;
}

/// A node of the graph: a variable name, the name of its type, its
/// properties and its further labels.
pub struct Node<'a> {
    nv: String,
    node_name: &'a str,
    props: Option<Props>,
    labels: Option<Vec<Label>>,
}

impl<'a> View for Node<'a> {
    type V = NodeView;

    closed spec fn view(&self) -> NodeView {
        NodeView {
            nv: self.nv@,
            node_name: self.node_name@,
            props: props_view(self.props),
            labels: labels_view(self.labels),
        }
    }
}

impl<'a> Node<'a> {
    /// A node that queries call `nv`, of the type `node_name`.
    pub fn new(
        nv: &str,
        node_name: &'a str,
        props: Option<Props>,
        labels: Option<Vec<Label>>,
    ) -> (node: Self)
        ensures
            node@ == (NodeView {
                nv: nv@,
                node_name: node_name@,
                props: props_view(props),
                labels: labels_view(labels),
            }),
    {
        Node { nv: nv.to_owned(), node_name, props, labels }
    }

    /// The variable that stands for the node in a query.
    pub fn nv(&self) -> (nv: &str)
        ensures
            nv@ == self@.nv,
    {
        self.nv.as_str()
    }

    /// The name of the node's type.
    pub fn node_name(&self) -> (name: &str)
        ensures
            name@ == self@.node_name,
    {
        self.node_name
    }

    /// The properties of the node, if it has any.
    pub fn props(&self) -> (props: &Option<Props>)
        ensures
            props_view(*props) == self@.props,
    {
        &self.props
    }

    /// The labels that the node has beyond the name of its type.
    pub fn labels(&self) -> (labels: &Option<Vec<Label>>)
        ensures
            labels_view(*labels) == self@.labels,
    {
        &self.labels
    }

    /// Adds a label behind those that the node has.
    pub fn add_label(&mut self, label: Label)
        ensures
            final(self)@ == (NodeView {
                labels: Some(
                    match old(self)@.labels {
                        Some(l) => l.push(label@),
                        None => seq![label@],
                    },
                ),
                ..old(self)@
            }),
    {
        match &mut self.labels {
            Some(list) => {
                list.push(label);
                assert(label_texts(list@) =~= label_texts(old(self).labels->0@).push(label@));
            },
            None => {
                let mut list: Vec<Label> = Vec::new();
                list.push(label);
                assert(label_texts(list@) =~= seq![label@]);
                self.labels = Some(list);
            },
        }
    }

    /// The label at place `index`, if the node has that many.
    pub fn get_label(&self, index: usize) -> (label: Option<&Label>)
        ensures
            match self@.labels {
                Some(l) if index < l.len() => label is Some && label->0@ == l[index as int],
                _ => label is None,
            },
    {
        match &self.labels {
            Some(list) => {
                if index < list.len() {
                    Some(&list[index])
                } else {
                    None
                }
            },
            None => None,
        }
    }
}

/// A directed relation between two nodes.
pub struct Relation<'a> {
    from: Node<'a>,
    to: Node<'a>,
    name: &'a str,
    props: Option<Props>,
}

impl<'a> View for Relation<'a> {
    type V = RelationView;

    closed spec fn view(&self) -> RelationView {
        RelationView {
            from: self.from@,
            to: self.to@,
            name: self.name@,
            props: props_view(self.props),
        }
    }
}

impl<'a> Relation<'a> {
    /// A relation of the type `name` from one node to another.
    pub fn new(from: Node<'a>, to: Node<'a>, name: &'a str, props: Option<Props>) -> (rel: Self)
        ensures
            rel@ == (RelationView { from: from@, to: to@, name: name@, props: props_view(props) }),
    {
        Relation { from, to, name, props }
    }

    /// The node that the relation starts from.
    pub fn from_node(&self) -> (node: &Node<'a>)
        ensures
            node@ == self@.from,
    {
        &self.from
    }

    /// The node that the relation points to.
    pub fn to_node(&self) -> (node: &Node<'a>)
        ensures
            node@ == self@.to,
    {
        &self.to
    }

    /// The name of the relation's type.
    pub fn name(&self) -> (name: &str)
        ensures
            name@ == self@.name,
    {
        self.name
    }

    /// The properties of the relation, if it has any.
    pub fn props(&self) -> (props: &Option<Props>)
        ensures
            props_view(*props) == self@.props,
    {
        &self.props
    }
}

/// Entities of the graph: nodes and relations.
pub enum Entity<'a> {
    Node { nv: String, node_name: &'a str, props: Option<Props>, labels: Option<Vec<Label>> },
    Relation { from: Node<'a>, to: Node<'a>, name: &'a str, props: Option<Props> },
}

impl<'a> View for Entity<'a> {
    type V = EntityView;

    open spec fn view(&self) -> EntityView {
        match self {
            Entity::Node { nv, node_name, props, labels } => EntityView::Node(
                NodeView {
                    nv: nv@,
                    node_name: node_name@,
                    props: props_view(*props),
                    labels: labels_view(*labels),
                },
            ),
            Entity::Relation { from, to, name, props } => EntityView::Relation(
                RelationView { from: from@, to: to@, name: name@, props: props_view(*props) },
            ),
        }
    }
}

impl<'a> From<Node<'a>> for Entity<'a> {
    fn from(node: Node<'a>) -> (entity: Self)
        ensures
            entity@ == EntityView::Node(node@),
    {
        Entity::Node {
            nv: node.nv,
            node_name: node.node_name,
            props: node.props,
            labels: node.labels,
        }
    }
}

impl<'a> vstd::std_specs::convert::FromSpecImpl<Node<'a>> for Entity<'a> {
    open spec fn obeys_from_spec() -> bool {
        true
    }

    closed spec fn from_spec(node: Node<'a>) -> Self {
        Entity::Node {
            nv: node.nv,
            node_name: node.node_name,
            props: node.props,
            labels: node.labels,
        }
    }
}

impl<'a> From<Relation<'a>> for Entity<'a> {
    fn from(rel: Relation<'a>) -> (entity: Self)
        ensures
            entity@ == EntityView::Relation(rel@),
    {
        Entity::Relation { from: rel.from, to: rel.to, name: rel.name, props: rel.props }
    }
}

impl<'a> vstd::std_specs::convert::FromSpecImpl<Relation<'a>> for Entity<'a> {
    open spec fn obeys_from_spec() -> bool {
        true
    }

    closed spec fn from_spec(rel: Relation<'a>) -> Self {
        Entity::Relation { from: rel.from, to: rel.to, name: rel.name, props: rel.props }
    }
}

} // verus!
