//! The stages of the query builder and the clauses they write.
//!
//! A query starts at [`Query`]. `create` and `match_` write the first
//! clause and hand over to the stage that offers what may follow.
pub mod block;
pub mod create_query;
pub mod execute;
pub mod finalize;
pub mod match_query;
pub mod return_query;

use vstd::prelude::*;
use vstd::string::*;
use crate::entity::{
    label_texts, labels_view, props_view, Entity, EntityView, Entry, Label, NodeView, PropType,
    PropValue, Props, RelationView,
};
use crate::query::create_query::CreateQuery;
use crate::query::finalize::FinalizeTrait;
use crate::query::match_query::{MatchActionTrait, MatchQuery, MatchTrait};
use crate::text::{concat_all, join};

verus! {

/// One entry of a property block: the name, a colon and a space, the literal.
pub open spec fn entry_text(entry: Entry) -> Seq<char> {
    entry.0 + ": "@ + entry.1.literal()
}

/// The entries whose value is not `Null`, in their order.
pub open spec fn without_null(entries: Seq<Entry>) -> Seq<Entry> {
    entries.filter(|entry: Entry| !(entry.1 is Null))
}

/// What stands between the braces of a property block: the entries whose
/// value is not `Null`, separated by commas.
pub open spec fn props_text(entries: Seq<Entry>) -> Seq<char> {
    join(without_null(entries).map_values(|entry: Entry| entry_text(entry)), ","@)
}

/// The property block of an entity, with the space that sets it off: empty
/// where the entity has no property at all.
pub open spec fn props_block(props: Option<Seq<Entry>>) -> Seq<char> {
    match props {
        Some(entries) if entries.len() > 0 => " { "@ + props_text(entries) + " }"@,
        _ => Seq::empty(),
    }
}

/// The clause that attaches the label `label` to the node `nv`, on a line
/// of its own.
pub open spec fn label_clause(nv: Seq<char>, label: Seq<char>) -> Seq<char> {
    "\nSET "@ + nv + ":"@ + label
}

/// One label clause for each label, in order.
pub open spec fn label_clauses(nv: Seq<char>, labels: Option<Seq<Seq<char>>>) -> Seq<char> {
    match labels {
        Some(list) => concat_all(list.map_values(|label: Seq<char>| label_clause(nv, label))),
        None => Seq::empty(),
    }
}

/// The clause that creates a node, followed by the clauses that attach its
/// further labels.
pub open spec fn create_node_text(node: NodeView) -> Seq<char> {
    "CREATE ("@ + node.nv + ":"@ + node.node_name + props_block(node.props) + ")"@ + label_clauses(
        node.nv,
        node.labels,
    )
}

/// The clause that creates a relation between two nodes that the query
/// has named.
pub open spec fn create_relation_text(rel: RelationView) -> Seq<char> {
    "CREATE ("@ + rel.from.nv + ")-[:"@ + rel.name + props_block(rel.props) + "]->("@ + rel.to.nv
        + ")"@
}

/// The clause that creates an entity.
pub open spec fn create_text(entity: EntityView) -> Seq<char> {
    match entity {
        EntityView::Node(node) => create_node_text(node),
        EntityView::Relation(rel) => create_relation_text(rel),
    }
}

/// The clauses that create the entities, each on a line of its own.
pub open spec fn create_clauses(entities: Seq<EntityView>) -> Seq<char> {
    join(entities.map_values(|entity: EntityView| create_text(entity)), "\n"@)
}

/// The clause that matches an entity. Only the match of a relation can be
/// optional.
pub open spec fn match_text(entity: EntityView, optional: bool) -> Seq<char> {
    match entity {
        EntityView::Node(node) => "MATCH ("@ + node.nv + ":"@ + node.node_name + ")"@,
        EntityView::Relation(rel) => (if optional {
            "OPTIONAL "@
        } else {
            Seq::empty()
        }) + "MATCH ("@ + rel.from.nv + ":"@ + rel.from.node_name + ")-[r:"@ + rel.name + "]->("@
            + rel.to.nv + ":"@ + rel.to.node_name + ")"@,
    }
}

/// The variable that the clauses behind a match speak of unless they name
/// another: the node's own, and none for a relation.
pub open spec fn match_subject(entity: EntityView) -> Seq<char> {
    match entity {
        EntityView::Node(node) => node.nv,
        EntityView::Relation(_) => Seq::empty(),
    }
}

/// The variable that the clauses behind a creation speak of unless they
/// name another: that of the entity created first.
pub open spec fn create_subject(entities: Seq<EntityView>) -> Seq<char> {
    if entities.len() > 0 {
        match_subject(entities[0])
    } else {
        Seq::empty()
    }
}

/// `clause` behind `state`, on a new line unless `state` is empty.
pub open spec fn extend(state: Seq<char>, clause: Seq<char>) -> Seq<char> {
    if state.len() > 0 {
        state + "\n"@ + clause
    } else {
        clause
    }
}

/// What is written stays: a clause goes behind the text that is there and
/// changes none of it.
pub proof fn lemma_extend_keeps_state(state: Seq<char>, clause: Seq<char>)
    ensures
        state.is_prefix_of(extend(state, clause)),
{
    if state.len() > 0 {
        assert(extend(state, clause) =~= state + ("\n"@ + clause));
    }
}

/// A node without a type name has no label to be created under.
pub open spec fn lacks_label(entity: EntityView) -> bool {
    entity matches EntityView::Node(node) && node.node_name.len() == 0
}

/// The views of the entities, in order.
pub open spec fn entity_views(entities: Seq<&Entity>) -> Seq<EntityView> {
    Seq::new(entities.len(), |i: int| entities[i]@)
}

/// Why a clause could not be written.
#[derive(Debug)]
pub enum QueryError {
    /// A node that was to be created has no type name.
    MissingLabel,
}

impl QueryError {
    /// The error in words.
    pub fn message(&self) -> (text: String)
        ensures
            text@ == "node has no label to create it under"@,
    {
        match self {
            QueryError::MissingLabel => String::from_str("node has no label to create it under"),
        }
    }
}

/// A stage at which a query can begin, or begin anew.
pub trait QueryTrait {
    /// The text that the next clause goes behind.
    spec fn state(&self) -> Seq<char>;

    /// Writes the clauses that create `entitys`. A node that has no type
    /// name cannot be created.
    fn create(&self, entitys: Vec<&Entity>) -> (next: Result<CreateQuery, QueryError>)
        ensures
            created(self.state(), entity_views(entitys@), next),
    ;

    /// Writes the clause that matches `entity`.
    fn match_(&self, entity: &Entity, optional: bool) -> (next: MatchQuery)
        ensures
            next.text() == extend(self.state(), match_text(entity@, optional)),
            next.subject() == match_subject(entity@),
    ;
}

/// What `create` returns: the clauses behind `state`, unless one of the
/// entities lacks its label.
pub open spec fn created(
    state: Seq<char>,
    entities: Seq<EntityView>,
    next: Result<CreateQuery, QueryError>,
) -> bool {
    match next {
        Ok(stage) => {
            &&& forall|i: int| 0 <= i < entities.len() ==> !lacks_label(#[trigger] entities[i])
            &&& stage.text() == extend(state, create_clauses(entities))
            &&& stage.subject() == create_subject(entities)
        },
        Err(error) => {
            &&& error is MissingLabel
            &&& exists|i: int| 0 <= i < entities.len() && lacks_label(#[trigger] entities[i])
        },
    }
}

/// The beginning of a query.
pub struct Query {
    state: String,
}

impl Query {
    /// A query without text.
    pub fn init() -> (query: Self)
        ensures
            query.state() == Seq::<char>::empty(),
    {
        Query { state: String::new() }
    }

    /// A query that goes on behind `state`.
    pub fn new(state: String) -> (query: Self)
        ensures
            query.state() == state@,
    {
        Query { state }
    }
}

impl QueryTrait for Query {
    closed spec fn state(&self) -> Seq<char> {
        self.state@
    }

    fn create(&self, entitys: Vec<&Entity>) -> Result<CreateQuery, QueryError> {
        create_method(self.state.as_str(), entitys)
    }

    fn match_(&self, entity: &Entity, optional: bool) -> MatchQuery {
        match_method(self.state.as_str(), entity, optional)
    }
}

/// Puts `clause` behind `state`, on a new line unless `state` is empty.
fn extend_state(state: &str, clause: &str) -> (out: String)
    ensures
        out@ == extend(state@, clause@),
{
    let mut out = String::from_str(state);
    if !state.is_empty() {
        out.append("\n");
    }
    out.append(clause);
    out
}

/// Puts the clause that matches `entity` behind `state`.
pub fn match_method(state: &str, entity: &Entity, optional: bool) -> (next: MatchQuery)
    ensures
        next.text() == extend(state@, match_text(entity@, optional)),
        next.subject() == match_subject(entity@),
{
    match entity {
        Entity::Node { nv, node_name, .. } => {
            let mut clause = String::from_str("MATCH (");
            clause.append(nv.as_str());
            clause.append(":");
            clause.append(node_name);
            clause.append(")");
            MatchQuery::new(subject(entity), extend_state(state, clause.as_str()))
        },
        Entity::Relation { from, to, name, .. } => {
            let mut clause = if optional {
                String::from_str("OPTIONAL ")
            } else {
                String::new()
            };
            clause.append("MATCH (");
            clause.append(from.nv());
            clause.append(":");
            clause.append(from.node_name());
            clause.append(")-[r:");
            clause.append(name);
            clause.append("]->(");
            clause.append(to.nv());
            clause.append(":");
            clause.append(to.node_name());
            clause.append(")");
            assert(clause@ =~= match_text(entity@, optional));
            MatchQuery::new(subject(entity), extend_state(state, clause.as_str()))
        },
    }
}

/// The entries of a prefix that are not `Null` grow with the prefix.
proof fn lemma_without_null_push(entries: Seq<Entry>, entry: Entry)
    ensures
        without_null(entries.push(entry)) == if entry.1 is Null {
            without_null(entries)
        } else {
            without_null(entries).push(entry)
        },
{
    entries.lemma_filter_push(entry, |entry: Entry| !(entry.1 is Null));
}

/// Taking the `Null` entries out twice is taking them out once.
proof fn lemma_without_null_twice(entries: Seq<Entry>)
    ensures
        without_null(without_null(entries)) == without_null(entries),
    decreases entries.len(),
{
    if entries.len() == 0 {
        reveal(Seq::filter);
        assert(without_null(entries) =~= entries);
    } else {
        let front = entries.drop_last();
        let entry = entries.last();
        assert(entries =~= front.push(entry));
        lemma_without_null_push(front, entry);
        lemma_without_null_twice(front);
        if !(entry.1 is Null) {
            lemma_without_null_push(without_null(front), entry);
        }
    }
}

/// A property whose value is `Null` is left out of the property block: the
/// block of a map is the block of its entries that are not `Null`.
pub proof fn lemma_null_is_omitted(entries: Seq<Entry>)
    ensures
        props_text(entries) == props_text(without_null(entries)),
        forall|entry: Entry|
            #[trigger] without_null(entries).contains(entry) ==> !(entry.1 is Null),
{
    lemma_without_null_twice(entries);
    let kept = without_null(entries);
    assert forall|entry: Entry| #[trigger] kept.contains(entry) implies !(entry.1 is Null) by {
        let i = choose|i: int| 0 <= i < kept.len() && kept[i] == entry;
        entries.lemma_filter_pred(|entry: Entry| !(entry.1 is Null), i);
    }
}

/// A `Null` property leaves no trace: with it, at whatever place, the
/// block reads as it does without it.
pub proof fn lemma_null_entry_changes_nothing(entries: Seq<Entry>, at: int, name: Seq<char>)
    requires
        0 <= at <= entries.len(),
    ensures
        props_text(entries.insert(at, (name, PropValue::Null))) == props_text(entries),
{
    let pred = |entry: Entry| !(entry.1 is Null);
    let front = entries.take(at);
    let back = entries.skip(at);
    let null = seq![(name, PropValue::Null)];
    assert(entries.insert(at, (name, PropValue::Null)) =~= front + null + back);
    assert(entries =~= front + back);
    Seq::filter_distributes_over_add(front + null, back, pred);
    Seq::filter_distributes_over_add(front, null, pred);
    Seq::filter_distributes_over_add(front, back, pred);
    assert(null.filter(pred) =~= Seq::empty()) by {
        reveal_with_fuel(Seq::filter, 2);
        assert(null.drop_last() =~= Seq::empty());
    }
    assert(without_null(entries.insert(at, (name, PropValue::Null))) =~= without_null(entries));
}

/// Writes what stands between the braces of a property block.
pub fn props_to_string(props: &Props) -> (out: String)
    ensures
        out@ == props_text(props@),
{
    let mut out = String::new();
    let mut written: usize = 0;
    let mut i: usize = 0;
    let n = props.len();
    while i < n
        invariant
            i <= n,
            n == props@.len(),
            written <= i,
            written == without_null(props@.take(i as int)).len(),
            out@ == props_text(props@.take(i as int)),
        decreases n - i,
    {
        let value = props.value_at(i);
        proof {
            let before = props@.take(i as int);
            assert(props@.take(i + 1) =~= before.push(props@[i as int]));
            lemma_without_null_push(before, props@[i as int]);
        }
        if *value != PropType::Null {
            if written > 0 {
                out.append(",");
            }
            out.append(props.key_at(i));
            out.append(": ");
            out.append(value.to_prop().as_str());
            proof {
                let kept = without_null(props@.take(i as int));
                let texts = kept.map_values(|entry: Entry| entry_text(entry));
                let texts_after = kept.push(props@[i as int]).map_values(
                    |entry: Entry| entry_text(entry),
                );
                assert(texts_after.drop_last() =~= texts);
                assert(texts_after.last() == entry_text(props@[i as int]));
            }
            written += 1;
        }
        i += 1;
    }
    assert(props@.take(i as int) =~= props@);
    out
}

/// Writes the property block of an entity.
fn props_block_text(props: &Option<Props>) -> (out: String)
    ensures
        out@ == props_block(props_view(*props)),
{
    match props {
        Some(entries) => {
            if entries.len() > 0 {
                let mut out = String::from_str(" { ");
                out.append(props_to_string(entries).as_str());
                out.append(" }");
                out
            } else {
                String::new()
            }
        },
        None => String::new(),
    }
}

/// Writes the clauses that attach the labels `labels` to the node `nv`.
fn label_clauses_text(nv: &str, labels: &Option<Vec<Label>>) -> (out: String)
    ensures
        out@ == label_clauses(nv@, labels_view(*labels)),
{
    let mut out = String::new();
    if let Some(list) = labels {
        let ghost clauses = label_texts(list@).map_values(
            |label: Seq<char>| label_clause(nv@, label),
        );
        let mut i: usize = 0;
        while i < list.len()
            invariant
                i <= list.len(),
                clauses == label_texts(list@).map_values(
                    |label: Seq<char>| label_clause(nv@, label),
                ),
                out@ == concat_all(clauses.take(i as int)),
            decreases list.len() - i,
        {
            out.append("\nSET ");
            out.append(nv);
            out.append(":");
            out.append(list[i].as_str());
            proof {
                assert(clauses.take(i + 1).drop_last() =~= clauses.take(i as int));
                assert(clauses.take(i + 1).last() == label_clause(nv@, list@[i as int]@));
            }
            i += 1;
        }
        assert(clauses.take(i as int) =~= clauses);
    }
    out
}

/// Writes the clause that creates `entity`.
fn create_clause(entity: &Entity) -> (out: String)
    ensures
        out@ == create_text(entity@),
{
    match entity {
        Entity::Node { nv, node_name, props, labels } => {
            let mut out = String::from_str("CREATE (");
            out.append(nv.as_str());
            out.append(":");
            out.append(node_name);
            out.append(props_block_text(props).as_str());
            out.append(")");
            out.append(label_clauses_text(nv.as_str(), labels).as_str());
            out
        },
        Entity::Relation { from, to, name, props } => {
            let mut out = String::from_str("CREATE (");
            out.append(from.nv());
            out.append(")-[:");
            out.append(name);
            out.append(props_block_text(props).as_str());
            out.append("]->(");
            out.append(to.nv());
            out.append(")");
            out
        },
    }
}

/// The variable of a node; a relation has none.
fn subject(entity: &Entity) -> (nv: String)
    ensures
        nv@ == match_subject(entity@),
{
    match entity {
        Entity::Node { nv, .. } => nv.clone(),
        Entity::Relation { .. } => String::new(),
    }
}

/// Whether `entity` is a node without a type name.
fn is_unlabelled(entity: &Entity) -> (yes: bool)
    ensures
        yes == lacks_label(entity@),
{
    match entity {
        Entity::Node { node_name, .. } => node_name.is_empty(),
        Entity::Relation { .. } => false,
    }
}

/// Puts the clauses that create `entitys` behind `state`, each on a line of
/// its own. Fails with `MissingLabel` where a node has no type name.
pub fn create_method(state: &str, entitys: Vec<&Entity>) -> (next: Result<CreateQuery, QueryError>)
    ensures
        created(state@, entity_views(entitys@), next),
{
    let ghost views = entity_views(entitys@);
    let ghost texts = views.map_values(|entity: EntityView| create_text(entity));
    let mut clauses = String::new();
    let mut i: usize = 0;
    while i < entitys.len()
        invariant
            i <= entitys.len(),
            views == entity_views(entitys@),
            texts == views.map_values(|entity: EntityView| create_text(entity)),
            forall|k: int| 0 <= k < i ==> !lacks_label(#[trigger] views[k]),
            clauses@ == join(texts.take(i as int), "\n"@),
        decreases entitys.len() - i,
    {
        let entity = entitys[i];
        if is_unlabelled(entity) {
            assert(lacks_label(views[i as int]));
            return Err(QueryError::MissingLabel);
        }
        if i > 0 {
            clauses.append("\n");
        }
        clauses.append(create_clause(entity).as_str());
        proof {
            assert(texts.take(i + 1).drop_last() =~= texts.take(i as int));
            assert(texts.take(i + 1).last() == create_text(views[i as int]));
        }
        i += 1;
    }
    assert(texts.take(i as int) =~= texts);
    let nv = if entitys.len() > 0 {
        subject(entitys[0])
    } else {
        String::new()
    };
    Ok(CreateQuery::new(nv, extend_state(state, clauses.as_str())))
}

} // verus!
