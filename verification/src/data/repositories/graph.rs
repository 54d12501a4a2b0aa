//! The graph repository. Each of its operations is a short exchange with the
//! graph database: send a query, maybe read the rows it answers, maybe send a
//! second query. The operations below decide each next request from the
//! database's last answer; whoever holds the connection carries the requests
//! out and reports the answers back. A failure of the database itself ends the
//! operation at once with `InfrastructureError::Memgraph`, without a further step.

use std::marker::PhantomData;

use vstd::prelude::*;

use crate::data::models::graph::{Conflict, Conversation, Entity, FromRow, Relationship};
use crate::data::record::Row;
use crate::data::repositories::query::{
    conflicts_by_entity_query, create_conflict_query, create_conversation_query,
    create_entity_query, create_relationship_query, creates_conflict, creates_conversation,
    creates_entity, creates_relationship, delete_conversation_query, delete_entity_query,
    delete_relationship_query, entities_by_conversation_query, entity_neighbors_query,
    find_conversation_query, find_entity_query, find_relationship_query, get_conflict_query,
    get_conversation_query, get_entity_query, keyed, neighbors_of, opt_view,
    relationships_by_entity_query, update_conflict_query, update_conversation_query,
    update_entity_query, update_relationship_query, updates_conflict, updates_conversation,
    updates_entity, updates_relationship, Query, CONFLICTS_BY_ENTITY, DELETE_CONVERSATION,
    DELETE_ENTITY, DELETE_RELATIONSHIP, ENTITIES_BY_CONVERSATION, FIND_CONVERSATION, FIND_ENTITY,
    FIND_RELATIONSHIP, GET_CONFLICT, GET_CONVERSATION, GET_ENTITY, RELATIONSHIPS_BY_ENTITY,
};
use crate::infrastructure::errors::InfrastructureError;

verus! {

/// The connection handle of the `neo4rs` crate.
#[verifier::external_type_specification]
#[verifier::external_body]
pub struct ExGraph(neo4rs::Graph);

/// `Clone` of a connection handle (a new handle on the same pool). Nothing is
/// stated of the copy.
pub assume_specification[ <neo4rs::Graph as Clone>::clone ](g: &neo4rs::Graph) -> neo4rs::Graph;

/// The next request an operation makes of the graph database.
#[derive(Debug)]
pub enum Step<O> {
    /// Send the query and open the stream of the rows it answers.
    Execute(Query),
    /// Send the query; the rows it answers are not read.
    Run(Query),
    /// Read the next row of the open stream.
    Pull,
    /// The operation is over, with this outcome.
    Done(Result<O, InfrastructureError>),
}

/// The graph database's answer to the last request.
#[derive(Debug)]
pub enum Event {
    /// The query of the last `Execute` or `Run` was accepted.
    Accepted,
    /// The open stream yielded this row.
    Row(Row),
    /// The open stream has no further row.
    End,
}

/// What an operation waits for.
#[derive(Clone, Copy, Debug, PartialEq, Eq, Structural)]
pub enum Phase {
    /// The answer to an `Execute` or a `Run`.
    Sending,
    /// The answer to a `Pull`.
    Reading,
    /// Nothing: the operation is over.
    Over,
}

/// `event` is an answer that an operation in `phase` can receive.
pub open spec fn awaited(phase: Phase, event: Event) -> bool {
    match phase {
        Phase::Sending => event is Accepted,
        Phase::Reading => !(event is Accepted),
        Phase::Over => false,
    }
}

/// After `step`, the operation waits in `phase`: so answering each step in
/// kind always meets `awaited`.
pub open spec fn waits_after<O>(step: Step<O>, phase: Phase) -> bool {
    match step {
        Step::Execute(_) => phase == Phase::Sending,
        Step::Run(_) => phase == Phase::Sending,
        Step::Pull => phase == Phase::Reading,
        Step::Done(_) => phase == Phase::Over,
    }
}

/// An operation that sends one query and is done once it is accepted.
pub struct Write {
    pub phase: Phase,
}

impl Write {
    /// Starts by running `query`.
    pub fn start(query: Query) -> (r: (Write, Step<()>))
        ensures
            r.1 == Step::<()>::Run(query),
            waits_after(r.1, r.0.phase),
    {
        (Write { phase: Phase::Sending }, Step::Run(query))
    }

    /// Once the query is accepted, the write is done.
    pub fn on(&mut self, event: Event) -> (r: Step<()>)
        requires
            awaited(old(self).phase, event),
        ensures
            r == Step::<()>::Done(Ok(())),
            waits_after(r, final(self).phase),
    {
        self.phase = Phase::Over;
        Step::Done(Ok(()))
    }
}

/// An operation that sends one query and tells whether it answered a row.
pub struct Probe {
    pub phase: Phase,
}

impl Probe {
    /// Starts by executing `query`.
    pub fn start(query: Query) -> (r: (Probe, Step<bool>))
        ensures
            r.1 == Step::<bool>::Execute(query),
            waits_after(r.1, r.0.phase),
    {
        (Probe { phase: Phase::Sending }, Step::Execute(query))
    }

    /// Reads the first row; the outcome is whether there was one.
    pub fn on(&mut self, event: Event) -> (r: Step<bool>)
        requires
            awaited(old(self).phase, event),
        ensures
            match event {
                Event::Accepted => r == Step::<bool>::Pull,
                Event::Row(_) => r == Step::<bool>::Done(Ok(true)),
                Event::End => r == Step::<bool>::Done(Ok(false)),
            },
            waits_after(r, final(self).phase),
    {
        match event {
            Event::Accepted => {
                self.phase = Phase::Reading;
                Step::Pull
            },
            Event::Row(_) => {
                self.phase = Phase::Over;
                Step::Done(Ok(true))
            },
            Event::End => {
                self.phase = Phase::Over;
                Step::Done(Ok(false))
            },
        }
    }
}

/// An operation that looks for a record and removes it only if it was found;
/// its outcome is whether it was found.
pub struct Delete {
    pub phase: Phase,
    /// The query that removes the record, until it is sent.
    pub removal: Option<Query>,
}

impl Delete {
    /// While the removal is pending, the operation is still looking.
    pub open spec fn wf(&self) -> bool {
        self.phase == Phase::Reading ==> self.removal is Some
    }

    /// Starts by executing `probe`; `removal` is kept for when a row is found.
    pub fn start(probe: Query, removal: Query) -> (r: (Delete, Step<bool>))
        ensures
            r.1 == Step::<bool>::Execute(probe),
            r.0.removal == Some(removal),
            r.0.wf(),
            waits_after(r.1, r.0.phase),
    {
        (Delete { phase: Phase::Sending, removal: Some(removal) }, Step::Execute(probe))
    }

    /// After the probe is accepted, reads its first row; a row sends the
    /// removal, no row ends with `false`; once the removal is accepted the
    /// outcome is `true`.
    pub fn on(&mut self, event: Event) -> (r: Step<bool>)
        requires
            old(self).wf(),
            awaited(old(self).phase, event),
        ensures
            final(self).wf(),
            waits_after(r, final(self).phase),
            match event {
                Event::Accepted => match old(self).removal {
                    Some(_) => r == Step::<bool>::Pull && final(self).removal == old(self).removal,
                    None => r == Step::<bool>::Done(Ok(true)),
                },
                Event::Row(_) => r == Step::<bool>::Run(old(self).removal->Some_0)
                    && final(self).removal is None,
                Event::End => r == Step::<bool>::Done(Ok(false)),
            },
    {
        match event {
            Event::Accepted => {
                if self.removal.is_some() {
                    self.phase = Phase::Reading;
                    Step::Pull
                } else {
                    self.phase = Phase::Over;
                    Step::Done(Ok(true))
                }
            },
            Event::Row(_) => {
                let removal = self.removal.take();
                self.phase = Phase::Sending;
                match removal {
                    Some(q) => Step::Run(q),
                    None => Step::Done(Ok(false)),
                }
            },
            Event::End => {
                self.phase = Phase::Over;
                Step::Done(Ok(false))
            },
        }
    }
}

/// An operation that decodes the first row a query answers, if any.
pub struct FetchOne<T> {
    pub phase: Phase,
    /// The column the record is decoded from.
    pub alias: String,
    pub record: PhantomData<T>,
}

impl<T: FromRow> FetchOne<T> {
    /// Starts by executing `query`; the record is read from column `alias`.
    pub fn start(query: Query, alias: &str) -> (r: (FetchOne<T>, Step<Option<T>>))
        ensures
            r.1 == Step::<Option<T>>::Execute(query),
            r.0.alias@ == alias@,
            waits_after(r.1, r.0.phase),
    {
        (
            FetchOne { phase: Phase::Sending, alias: alias.to_owned(), record: PhantomData },
            Step::Execute(query),
        )
    }

    /// Reads the first row: none gives `None`, one gives its decoding, or the
    /// decoding's failure.
    pub fn on(&mut self, event: Event) -> (r: Step<Option<T>>)
        requires
            awaited(old(self).phase, event),
        ensures
            final(self).alias == old(self).alias,
            waits_after(r, final(self).phase),
            match event {
                Event::Accepted => r == Step::<Option<T>>::Pull,
                Event::Row(row) => match T::decode_failure(row, old(self).alias@) {
                    Some(e) => r == Step::<Option<T>>::Done(
                        Err(InfrastructureError::MemgraphDeserialize(e)),
                    ),
                    None => r matches Step::Done(Ok(Some(v))) && T::decodes_to(
                        row,
                        old(self).alias@,
                        v,
                    ),
                },
                Event::End => r == Step::<Option<T>>::Done(Ok(None)),
            },
    {
        match event {
            Event::Accepted => {
                self.phase = Phase::Reading;
                Step::Pull
            },
            Event::Row(row) => {
                self.phase = Phase::Over;
                match T::from_row(&row, self.alias.as_str()) {
                    Ok(v) => Step::Done(Ok(Some(v))),
                    Err(e) => Step::Done(Err(e)),
                }
            },
            Event::End => {
                self.phase = Phase::Over;
                Step::Done(Ok(None))
            },
        }
    }
}

/// `items` are the decodings, under `alias`, of `rows`, one for one and in order.
pub open spec fn decodes_all<T: FromRow>(rows: Seq<Row>, alias: Seq<char>, items: Seq<T>) -> bool {
    &&& items.len() == rows.len()
    &&& forall|i: int| 0 <= i < items.len() ==> T::decodes_to(#[trigger] rows[i], alias, items[i])
}

/// An operation that decodes every row a query answers, in order, and stops at
/// the first row that does not decode.
pub struct FetchAll<T> {
    pub phase: Phase,
    /// The column each record is decoded from.
    pub alias: String,
    /// The records decoded so far.
    pub items: Vec<T>,
    /// The rows read so far.
    pub seen: Ghost<Seq<Row>>,
}

impl<T: FromRow> FetchAll<T> {
    /// Each record decoded so far is the decoding of the row read at its place.
    pub open spec fn wf(&self) -> bool {
        decodes_all(self.seen@, self.alias@, self.items@)
    }

    /// Starts by executing `query`; each record is read from column `alias`.
    pub fn start(query: Query, alias: &str) -> (r: (FetchAll<T>, Step<Vec<T>>))
        ensures
            r.1 == Step::<Vec<T>>::Execute(query),
            r.0.alias@ == alias@,
            r.0.seen@ == Seq::<Row>::empty(),
            r.0.wf(),
            waits_after(r.1, r.0.phase),
    {
        (
            FetchAll { phase: Phase::Sending, alias: alias.to_owned(), items: Vec::new(), seen: Ghost(Seq::empty()) },
            Step::Execute(query),
        )
    }

    /// Reads the rows one by one; a row that decodes is kept and the next one
    /// read, a row that does not ends the operation with the failure, and the
    /// end of the stream ends it with the records kept, in the order read.
    pub fn on(&mut self, event: Event) -> (r: Step<Vec<T>>)
        requires
            old(self).wf(),
            awaited(old(self).phase, event),
        ensures
            final(self).wf(),
            final(self).alias == old(self).alias,
            waits_after(r, final(self).phase),
            match event {
                Event::Accepted => r == Step::<Vec<T>>::Pull && final(self).seen == old(self).seen,
                Event::Row(row) => match T::decode_failure(row, old(self).alias@) {
                    Some(e) => r == Step::<Vec<T>>::Done(
                        Err(InfrastructureError::MemgraphDeserialize(e)),
                    ),
                    None => r == Step::<Vec<T>>::Pull && final(self).seen@ == old(
                        self,
                    ).seen@.push(row) && final(self).items@.len() == old(self).items@.len() + 1
                        && final(self).items@.drop_last() == old(self).items@ && T::decodes_to(
                        row,
                        old(self).alias@,
                        final(self).items@.last(),
                    ),
                },
                Event::End => r matches Step::Done(Ok(v)) && v@ == old(self).items@ && v@.len()
                    == old(self).seen@.len() && (forall|i: int|
                    0 <= i < v@.len() ==> T::decodes_to(
                        #[trigger] old(self).seen@[i],
                        old(self).alias@,
                        v@[i],
                    )),
            },
    {
        match event {
            Event::Accepted => {
                self.phase = Phase::Reading;
                Step::Pull
            },
            Event::Row(row) => {
                match T::from_row(&row, self.alias.as_str()) {
                    Ok(v) => {
                        self.items.push(v);
                        proof {
                            self.seen@ = self.seen@.push(row);
                        }
                        Step::Pull
                    },
                    Err(e) => {
                        self.phase = Phase::Over;
                        Step::Done(Err(e))
                    },
                }
            },
            Event::End => {
                self.phase = Phase::Over;
                let mut items: Vec<T> = Vec::new();
                std::mem::swap(&mut items, &mut self.items);
                proof {
                    self.seen@ = Seq::empty();
                }
                Step::Done(Ok(items))
            },
        }
    }
}

/// One neighbour of an entity and the relation that links them.
pub open spec fn neighbor_decodes(row: Row, value: (Entity, Relationship)) -> bool {
    &&& Entity::decodes_to(row, "m"@, value.0)
    &&& Relationship::decodes_to(row, "r"@, value.1)
}

/// Why a neighbour row does not decode, if it does not: the neighbour in
/// column `m` is decoded first, then the relation in column `r`.
pub open spec fn neighbor_failure(row: Row) -> Option<crate::data::record::DecodeError> {
    crate::data::record::first_failure(
        Entity::decode_failure(row, "m"@),
        Relationship::decode_failure(row, "r"@),
    )
}

/// `items` are the neighbour decodings of `rows`, one for one and in order.
pub open spec fn neighbors_all(rows: Seq<Row>, items: Seq<(Entity, Relationship)>) -> bool {
    &&& items.len() == rows.len()
    &&& forall|i: int| 0 <= i < items.len() ==> neighbor_decodes(#[trigger] rows[i], items[i])
}

/// An operation that decodes every row of a neighbours query into the
/// neighbour and its relation, in order, and stops at the first row that does
/// not decode.
pub struct Neighbors {
    pub phase: Phase,
    /// The neighbours decoded so far.
    pub items: Vec<(Entity, Relationship)>,
    /// The rows read so far.
    pub seen: Ghost<Seq<Row>>,
}

impl Neighbors {
    /// Each neighbour decoded so far is the decoding of the row read at its place.
    pub open spec fn wf(&self) -> bool {
        neighbors_all(self.seen@, self.items@)
    }

    /// Starts by executing `query`.
    pub fn start(query: Query) -> (r: (Neighbors, Step<Vec<(Entity, Relationship)>>))
        ensures
            r.1 == Step::<Vec<(Entity, Relationship)>>::Execute(query),
            r.0.seen@ == Seq::<Row>::empty(),
            r.0.wf(),
            waits_after(r.1, r.0.phase),
    {
        (
            Neighbors { phase: Phase::Sending, items: Vec::new(), seen: Ghost(Seq::empty()) },
            Step::Execute(query),
        )
    }

    /// Reads the rows one by one as `FetchAll` does, decoding from each the
    /// neighbour (column `m`) and then the relation (column `r`).
    pub fn on(&mut self, event: Event) -> (r: Step<Vec<(Entity, Relationship)>>)
        requires
            old(self).wf(),
            awaited(old(self).phase, event),
        ensures
            final(self).wf(),
            waits_after(r, final(self).phase),
            match event {
                Event::Accepted => r == Step::<Vec<(Entity, Relationship)>>::Pull
                    && final(self).seen == old(self).seen,
                Event::Row(row) => match neighbor_failure(row) {
                    Some(e) => r == Step::<Vec<(Entity, Relationship)>>::Done(
                        Err(InfrastructureError::MemgraphDeserialize(e)),
                    ),
                    None => r == Step::<Vec<(Entity, Relationship)>>::Pull && final(self).seen@
                        == old(self).seen@.push(row) && final(self).items@.len() == old(
                        self,
                    ).items@.len() + 1 && final(self).items@.drop_last() == old(self).items@
                        && Entity::decodes_to(row, "m"@, final(self).items@.last().0)
                        && Relationship::decodes_to(row, "r"@, final(self).items@.last().1),
                },
                Event::End => r matches Step::Done(Ok(v)) && v@ == old(self).items@ && v@.len()
                    == old(self).seen@.len() && (forall|i: int|
                    0 <= i < v@.len() ==> Entity::decodes_to(#[trigger] old(self).seen@[i], "m"@, v@[i].0)
                        && Relationship::decodes_to(old(self).seen@[i], "r"@, v@[i].1)),
            },
    {
        match event {
            Event::Accepted => {
                self.phase = Phase::Reading;
                Step::Pull
            },
            Event::Row(row) => {
                let entity = match Entity::from_row(&row, "m") {
                    Ok(v) => v,
                    Err(e) => {
                        self.phase = Phase::Over;
                        return Step::Done(Err(e));
                    },
                };
                let relationship = match Relationship::from_row(&row, "r") {
                    Ok(v) => v,
                    Err(e) => {
                        self.phase = Phase::Over;
                        return Step::Done(Err(e));
                    },
                };
                self.items.push((entity, relationship));
                proof {
                    self.seen@ = self.seen@.push(row);
                }
                Step::Pull
            },
            Event::End => {
                self.phase = Phase::Over;
                let mut items: Vec<(Entity, Relationship)> = Vec::new();
                std::mem::swap(&mut items, &mut self.items);
                proof {
                    self.seen@ = Seq::empty();
                }
                Step::Done(Ok(items))
            },
        }
    }
}

/// Between events, a neighbours operation holds exactly one neighbour per row
/// read, the i-th being the neighbour (column `m`) and relation (column `r`)
/// decoded from the i-th row.
pub proof fn lemma_neighbors_one_per_row(n: Neighbors)
    requires
        n.wf(),
    ensures
        n.items@.len() == n.seen@.len(),
        forall|i: int|
            0 <= i < n.items@.len() ==> Entity::decodes_to(#[trigger] n.seen@[i], "m"@, n.items@[i].0)
                && Relationship::decodes_to(n.seen@[i], "r"@, n.items@[i].1),
{
}

/// Between events, a fetch of every row holds exactly one record per row read,
/// the i-th being the decoding of the i-th row under the operation's column.
pub proof fn lemma_fetch_all_one_per_row<T: FromRow>(f: FetchAll<T>)
    requires
        f.wf(),
    ensures
        f.items@.len() == f.seen@.len(),
        forall|i: int|
            0 <= i < f.items@.len() ==> T::decodes_to(#[trigger] f.seen@[i], f.alias@, f.items@[i]),
{
}

/// The repository of entities, relationships, conversations and conflicts
/// kept in the graph database. Each operation below starts the exchange that
/// carries it out: it answers the operation's state and its first request.
#[derive(Clone)]
pub struct GraphRepository {
    graph: neo4rs::Graph,
}

impl GraphRepository {
    /// The connection handle the repository was made with.
    pub closed spec fn handle(&self) -> neo4rs::Graph {
        self.graph
    }

    /// A repository on the given connection.
    pub fn new(graph: neo4rs::Graph) -> (r: Self)
        ensures
            r.handle() == graph,
    {
        GraphRepository { graph }
    }

    /// The connection the repository's requests go to.
    pub fn graph(&self) -> (r: &neo4rs::Graph)
        ensures
            *r == self.handle(),
    {
        &self.graph
    }

    /// Creates the node of `entity`; succeeds once the query is accepted.
    pub fn create_entity(&self, entity: &Entity) -> (r: (Write, Step<()>))
        ensures
            r.1 matches Step::Run(q) && creates_entity(q@, *entity),
            waits_after(r.1, r.0.phase),
    {
        Write::start(create_entity_query(entity))
    }

    /// Sets the fields of the entity `id`; answers whether it exists.
    pub fn update_entity(&self, id: &str, entity: &Entity) -> (r: (Probe, Step<bool>))
        ensures
            r.1 matches Step::Execute(q) && updates_entity(q@, id@, *entity),
            waits_after(r.1, r.0.phase),
    {
        Probe::start(update_entity_query(id, entity))
    }

    /// Deletes the entity `id` and its relations if it exists; answers whether
    /// it existed.
    pub fn delete_entity(&self, id: &str) -> (r: (Delete, Step<bool>))
        ensures
            r.1 matches Step::Execute(q) && q@ == keyed(FIND_ENTITY@, "id"@, id@),
            r.0.removal matches Some(d) && d@ == keyed(DELETE_ENTITY@, "id"@, id@),
            r.0.wf(),
            waits_after(r.1, r.0.phase),
    {
        Delete::start(find_entity_query(id), delete_entity_query(id))
    }

    /// Reads the entity `id`, if it exists.
    pub fn get_entity(&self, id: &str) -> (r: (FetchOne<Entity>, Step<Option<Entity>>))
        ensures
            r.1 matches Step::Execute(q) && q@ == keyed(GET_ENTITY@, "id"@, id@),
            r.0.alias@ == "e"@,
            waits_after(r.1, r.0.phase),
    {
        FetchOne::start(get_entity_query(id), "e")
    }

    /// Reads each neighbour of the entity `id` with the relation that links
    /// them, optionally only along relations of type `rel_type` and only to
    /// neighbours of kind `kind`.
    pub fn get_entity_neighbors(&self, id: &str, rel_type: Option<&str>, kind: Option<&str>) -> (r: (
        Neighbors,
        Step<Vec<(Entity, Relationship)>>,
    ))
        ensures
            r.1 matches Step::Execute(q) && neighbors_of(
                q@,
                id@,
                opt_view(rel_type),
                opt_view(kind),
            ),
            r.0.seen@ == Seq::<Row>::empty(),
            r.0.wf(),
            waits_after(r.1, r.0.phase),
    {
        Neighbors::start(entity_neighbors_query(id, rel_type, kind))
    }

    /// Creates `relationship` between its two entities; succeeds once the
    /// query is accepted.
    pub fn create_relationship(&self, relationship: &Relationship) -> (r: (Write, Step<()>))
        ensures
            r.1 matches Step::Run(q) && creates_relationship(q@, *relationship),
            waits_after(r.1, r.0.phase),
    {
        Write::start(create_relationship_query(relationship))
    }

    /// Sets the description and properties of the relationship `id`; answers
    /// whether it exists.
    pub fn update_relationship(&self, id: &str, relationship: &Relationship) -> (r: (
        Probe,
        Step<bool>,
    ))
        ensures
            r.1 matches Step::Execute(q) && updates_relationship(q@, id@, *relationship),
            waits_after(r.1, r.0.phase),
    {
        Probe::start(update_relationship_query(id, relationship))
    }

    /// Deletes the relationship `id` if it exists; answers whether it existed.
    pub fn delete_relationship(&self, id: &str) -> (r: (Delete, Step<bool>))
        ensures
            r.1 matches Step::Execute(q) && q@ == keyed(FIND_RELATIONSHIP@, "id"@, id@),
            r.0.removal matches Some(d) && d@ == keyed(DELETE_RELATIONSHIP@, "id"@, id@),
            r.0.wf(),
            waits_after(r.1, r.0.phase),
    {
        Delete::start(find_relationship_query(id), delete_relationship_query(id))
    }

    /// Creates the node of `conversation`; succeeds once the query is accepted.
    pub fn create_conversation(&self, conversation: &Conversation) -> (r: (Write, Step<()>))
        ensures
            r.1 matches Step::Run(q) && creates_conversation(q@, *conversation),
            waits_after(r.1, r.0.phase),
    {
        Write::start(create_conversation_query(conversation))
    }

    /// Sets the summary of the conversation `id`; answers whether it exists.
    pub fn update_conversation(&self, id: &str, conversation: &Conversation) -> (r: (
        Probe,
        Step<bool>,
    ))
        ensures
            r.1 matches Step::Execute(q) && updates_conversation(q@, id@, *conversation),
            waits_after(r.1, r.0.phase),
    {
        Probe::start(update_conversation_query(id, conversation))
    }

    /// Deletes the conversation `id` and its relations if it exists; answers
    /// whether it existed.
    pub fn delete_conversation(&self, id: &str) -> (r: (Delete, Step<bool>))
        ensures
            r.1 matches Step::Execute(q) && q@ == keyed(FIND_CONVERSATION@, "id"@, id@),
            r.0.removal matches Some(d) && d@ == keyed(DELETE_CONVERSATION@, "id"@, id@),
            r.0.wf(),
            waits_after(r.1, r.0.phase),
    {
        Delete::start(find_conversation_query(id), delete_conversation_query(id))
    }

    /// Reads the conversation `id`, if it exists.
    pub fn get_conversation(&self, id: &str) -> (r: (
        FetchOne<Conversation>,
        Step<Option<Conversation>>,
    ))
        ensures
            r.1 matches Step::Execute(q) && q@ == keyed(GET_CONVERSATION@, "id"@, id@),
            r.0.alias@ == "c"@,
            waits_after(r.1, r.0.phase),
    {
        FetchOne::start(get_conversation_query(id), "c")
    }

    /// Creates the node of `conflict`, linked from its entity; succeeds once
    /// the query is accepted.
    pub fn create_conflict(&self, conflict: &Conflict) -> (r: (Write, Step<()>))
        ensures
            r.1 matches Step::Run(q) && creates_conflict(q@, *conflict),
            waits_after(r.1, r.0.phase),
    {
        Write::start(create_conflict_query(conflict))
    }

    /// Sets whether the conflict `id` is resolved; answers whether it exists.
    pub fn update_conflict(&self, id: &str, conflict: &Conflict) -> (r: (Probe, Step<bool>))
        ensures
            r.1 matches Step::Execute(q) && updates_conflict(q@, id@, *conflict),
            waits_after(r.1, r.0.phase),
    {
        Probe::start(update_conflict_query(id, conflict))
    }

    /// Reads the conflict `id`, if it exists.
    pub fn get_conflict(&self, id: &str) -> (r: (FetchOne<Conflict>, Step<Option<Conflict>>))
        ensures
            r.1 matches Step::Execute(q) && q@ == keyed(GET_CONFLICT@, "id"@, id@),
            r.0.alias@ == "c"@,
            waits_after(r.1, r.0.phase),
    {
        FetchOne::start(get_conflict_query(id), "c")
    }

    /// Reads the conflicts of the entity `entity_id`.
    pub fn get_conflicts_by_entity(&self, entity_id: &str) -> (r: (
        FetchAll<Conflict>,
        Step<Vec<Conflict>>,
    ))
        ensures
            r.1 matches Step::Execute(q) && q@ == keyed(
                CONFLICTS_BY_ENTITY@,
                "entity_id"@,
                entity_id@,
            ),
            r.0.alias@ == "c"@,
            r.0.seen@ == Seq::<Row>::empty(),
            r.0.wf(),
            waits_after(r.1, r.0.phase),
    {
        FetchAll::start(conflicts_by_entity_query(entity_id), "c")
    }

    /// Reads the relationships of the entity `entity_id`.
    pub fn get_relationships_by_entity(&self, entity_id: &str) -> (r: (
        FetchAll<Relationship>,
        Step<Vec<Relationship>>,
    ))
        ensures
            r.1 matches Step::Execute(q) && q@ == keyed(
                RELATIONSHIPS_BY_ENTITY@,
                "entity_id"@,
                entity_id@,
            ),
            r.0.alias@ == "r"@,
            r.0.seen@ == Seq::<Row>::empty(),
            r.0.wf(),
            waits_after(r.1, r.0.phase),
    {
        FetchAll::start(relationships_by_entity_query(entity_id), "r")
    }

    /// Reads, once each, the entities with a relation drawn from the
    /// conversation `conversation_id`.
    pub fn get_entities_by_conversation(&self, conversation_id: &str) -> (r: (
        FetchAll<Entity>,
        Step<Vec<Entity>>,
    ))
        ensures
            r.1 matches Step::Execute(q) && q@ == keyed(
                ENTITIES_BY_CONVERSATION@,
                "conversation_id"@,
                conversation_id@,
            ),
            r.0.alias@ == "e"@,
            r.0.seen@ == Seq::<Row>::empty(),
            r.0.wf(),
            waits_after(r.1, r.0.phase),
    {
        FetchAll::start(entities_by_conversation_query(conversation_id), "e")
    }
}

} // verus!
