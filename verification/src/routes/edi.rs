//! Storing an EDIFACT message with what was parsed from it, and reading
//! stored messages back.

pub mod laws;
pub mod query;
pub mod rows;

pub use crate::services::edi::ingestion::{
    message_kind, plan_ingest, EdiError, IngestPlan, Ingestion, MessageKind, ParsedMessage, Stage,
    StoreAction, StoreEvent,
};
pub use query::{
    assemble, fetch_baplie_with_containers, fetch_coarri_with_movements,
    fetch_codeco_with_movements, get_edi_messages,
};

use crate::models::edi::{
    BaplieContainerRow, BaplieMessageText, CoarriMessageText, CoarriMovementRow,
    CodecoMessageText, CodecoMovementRow, CreateEdiMessage, EdiMessageResponse,
};
use crate::routes::edi::laws::{all_whole, lemma_ingest_keeps_whole};
use crate::routes::edi::query::response_of;
use crate::routes::edi::rows::{
    ingest_inv, ingest_refusal, ingested, lemma_rows_with_child, lemma_rows_with_parent,
    lemma_rows_without_children, new_envelope, new_rows, steps_left,
};
use crate::services::edi::ingestion::{children, next_stage, plan_of, ParsedText};
use crate::store::{
    after_operation, is_row, lemma_wf_bounds, write_result, MemoryStore, StorageError,
    TablesText, Transaction,
};
use vstd::prelude::*;

verus! {

/// Writes the header row of a parsed message.
fn write_parent(tx: &mut Transaction, parsed: &ParsedMessage, envelope_id: i64) -> (result: Result<
    i64,
    StorageError,
>)
    requires
        old(tx).wf(),
    ensures
        final(tx).wf(),
        final(tx).base == old(tx).base,
        final(tx).operations_left == after_operation(old(tx).operations_left),
        result == write_result(
            old(tx).operations_left,
            is_row(envelope_id, old(tx).base.edi_messages + old(tx).staged@.edi_messages.len()),
            match parsed@ {
                ParsedText::Baplie(_) => old(tx).base.baplie_messages + old(
                    tx,
                ).staged@.baplie_messages.len(),
                ParsedText::Coarri(_) => old(tx).base.coarri_messages + old(
                    tx,
                ).staged@.coarri_messages.len(),
                ParsedText::Codeco(_) => old(tx).base.codeco_messages + old(
                    tx,
                ).staged@.codeco_messages.len(),
            },
        ),
        final(tx).staged@ == match result {
            Ok(id) => match parsed@ {
                ParsedText::Baplie(d) => TablesText {
                    baplie_messages: old(tx).staged@.baplie_messages.push(
                        BaplieMessageText {
                            id,
                            edi_message_id: envelope_id,
                            vessel_name: d.vessel_name,
                            voyage_number: d.voyage_number,
                            port_of_loading: d.port_of_loading,
                            port_of_discharge: d.port_of_discharge,
                        },
                    ),
                    ..old(tx).staged@
                },
                ParsedText::Coarri(d) => TablesText {
                    coarri_messages: old(tx).staged@.coarri_messages.push(
                        CoarriMessageText {
                            id,
                            edi_message_id: envelope_id,
                            vessel_name: d.vessel_name,
                            voyage_number: d.voyage_number,
                        },
                    ),
                    ..old(tx).staged@
                },
                ParsedText::Codeco(d) => TablesText {
                    codeco_messages: old(tx).staged@.codeco_messages.push(
                        CodecoMessageText { id, edi_message_id: envelope_id, gate: d.gate },
                    ),
                    ..old(tx).staged@
                },
            },
            Err(_) => old(tx).staged@,
        },
{
    match parsed {
        ParsedMessage::Baplie(d) => tx.insert_baplie_parent(envelope_id, d),
        ParsedMessage::Coarri(d) => tx.insert_coarri_parent(envelope_id, d),
        ParsedMessage::Codeco(d) => tx.insert_codeco_parent(envelope_id, d),
    }
}

/// Writes the container or movement at `index` of a parsed message.
fn write_child(tx: &mut Transaction, parsed: &ParsedMessage, parent_id: i64, index: usize) -> (result:
    Result<i64, StorageError>)
    requires
        old(tx).wf(),
        index < children(parsed@),
    ensures
        final(tx).wf(),
        final(tx).base == old(tx).base,
        final(tx).operations_left == after_operation(old(tx).operations_left),
        result == match parsed@ {
            ParsedText::Baplie(_) => write_result(
                old(tx).operations_left,
                is_row(
                    parent_id,
                    old(tx).base.baplie_messages + old(tx).staged@.baplie_messages.len(),
                ),
                old(tx).base.baplie_containers + old(tx).staged@.baplie_containers.len(),
            ),
            ParsedText::Coarri(_) => write_result(
                old(tx).operations_left,
                is_row(
                    parent_id,
                    old(tx).base.coarri_messages + old(tx).staged@.coarri_messages.len(),
                ),
                old(tx).base.coarri_movements + old(tx).staged@.coarri_movements.len(),
            ),
            ParsedText::Codeco(_) => write_result(
                old(tx).operations_left,
                is_row(
                    parent_id,
                    old(tx).base.codeco_messages + old(tx).staged@.codeco_messages.len(),
                ),
                old(tx).base.codeco_movements + old(tx).staged@.codeco_movements.len(),
            ),
        },
        final(tx).staged@ == match result {
            Ok(id) => match parsed@ {
                ParsedText::Baplie(d) => TablesText {
                    baplie_containers: old(tx).staged@.baplie_containers.push(
                        BaplieContainerRow {
                            id,
                            baplie_message_id: parent_id,
                            fields: d.containers[index as int],
                        },
                    ),
                    ..old(tx).staged@
                },
                ParsedText::Coarri(d) => TablesText {
                    coarri_movements: old(tx).staged@.coarri_movements.push(
                        CoarriMovementRow {
                            id,
                            coarri_message_id: parent_id,
                            fields: d.movements[index as int],
                        },
                    ),
                    ..old(tx).staged@
                },
                ParsedText::Codeco(d) => TablesText {
                    codeco_movements: old(tx).staged@.codeco_movements.push(
                        CodecoMovementRow {
                            id,
                            codeco_message_id: parent_id,
                            fields: d.movements[index as int],
                        },
                    ),
                    ..old(tx).staged@
                },
            },
            Err(_) => old(tx).staged@,
        },
{
    match parsed {
        ParsedMessage::Baplie(d) => tx.insert_baplie_container(parent_id, &d.containers[index]),
        ParsedMessage::Coarri(d) => tx.insert_coarri_movement(parent_id, &d.movements[index]),
        ParsedMessage::Codeco(d) => tx.insert_codeco_movement(parent_id, &d.movements[index]),
    }
}

/// The event by which an outcome is reported to an ingestion.
pub open spec fn event_of(outcome: Result<StoreEvent, StorageError>) -> StoreEvent {
    match outcome {
        Ok(event) => event,
        Err(_) => StoreEvent::Failed,
    }
}

/// The failure that an outcome leaves behind.
pub open spec fn failure_of(outcome: Result<StoreEvent, StorageError>) -> Option<StorageError> {
    match outcome {
        Ok(_) => None,
        Err(e) => Some(e),
    }
}

/// Opens the transaction of an ingestion.
fn step_begin(store: &MemoryStore, plan: &IngestPlan, tx: &mut Option<Transaction>, created_at: &str)
    -> (outcome: Result<StoreEvent, StorageError>)
    requires
        ingest_inv(
            store.tables@,
            store.tables@,
            store.fault_after,
            plan@,
            created_at@,
            Stage::Opening,
            *old(tx),
            None,
        ),
    ensures
        ingest_inv(
            store.tables@,
            store.tables@,
            store.fault_after,
            plan@,
            created_at@,
            next_stage(children(plan@.parsed), Stage::Opening, event_of(outcome)),
            *final(tx),
            failure_of(outcome),
        ),
        outcome is Ok ==> outcome->Ok_0 == StoreEvent::Opened,
{
    proof {
        lemma_wf_bounds(store.tables@);
    }
    match store.begin() {
        Ok(opened) => {
            *tx = Some(opened);
            Ok(StoreEvent::Opened)
        },
        Err(e) => Err(e),
    }
}

/// Writes the message row of an ingestion.
fn step_envelope(
    store: &MemoryStore,
    plan: &IngestPlan,
    tx: &mut Option<Transaction>,
    created_at: &str,
) -> (outcome: Result<StoreEvent, StorageError>)
    requires
        ingest_inv(
            store.tables@,
            store.tables@,
            store.fault_after,
            plan@,
            created_at@,
            Stage::Envelope,
            *old(tx),
            None,
        ),
    ensures
        ingest_inv(
            store.tables@,
            store.tables@,
            store.fault_after,
            plan@,
            created_at@,
            next_stage(children(plan@.parsed), Stage::Envelope, event_of(outcome)),
            *final(tx),
            failure_of(outcome),
        ),
        outcome is Ok ==> outcome->Ok_0 is Inserted,
{
    let ghost before = store.tables@;
    proof {
        lemma_wf_bounds(before);
    }
    let mut open = tx.take().unwrap();
    let written = open.insert_envelope(
        plan.message_type.as_str(),
        plan.content.as_str(),
        plan.container_id.as_str(),
        created_at,
    );
    proof {
        if written is Ok {
            lemma_rows_without_children(before, plan@, created_at@);
            assert(open.staged@.edi_messages =~= new_rows(
                before,
                plan@,
                created_at@,
                false,
                0,
            ).edi_messages);
        }
    }
    *tx = Some(open);
    match written {
        Ok(id) => Ok(StoreEvent::Inserted(id)),
        Err(e) => Err(e),
    }
}

/// Writes the header row of an ingestion.
fn step_parent(
    store: &MemoryStore,
    plan: &IngestPlan,
    tx: &mut Option<Transaction>,
    created_at: &str,
    envelope_id: i64,
) -> (outcome: Result<StoreEvent, StorageError>)
    requires
        ingest_inv(
            store.tables@,
            store.tables@,
            store.fault_after,
            plan@,
            created_at@,
            Stage::Parent { envelope_id },
            *old(tx),
            None,
        ),
    ensures
        ingest_inv(
            store.tables@,
            store.tables@,
            store.fault_after,
            plan@,
            created_at@,
            next_stage(children(plan@.parsed), Stage::Parent { envelope_id }, event_of(outcome)),
            *final(tx),
            failure_of(outcome),
        ),
        outcome is Ok ==> outcome->Ok_0 is Inserted,
{
    let ghost before = store.tables@;
    proof {
        lemma_wf_bounds(before);
    }
    let mut open = tx.take().unwrap();
    proof {
        lemma_rows_without_children(before, plan@, created_at@);
    }
    let written = write_parent(&mut open, &plan.parsed, envelope_id);
    proof {
        if written is Ok {
            lemma_rows_with_parent(before, plan@, created_at@, open.staged@);
        }
    }
    *tx = Some(open);
    match written {
        Ok(id) => Ok(StoreEvent::Inserted(id)),
        Err(e) => Err(e),
    }
}

/// Writes one container or movement of an ingestion.
fn step_child(
    store: &MemoryStore,
    plan: &IngestPlan,
    tx: &mut Option<Transaction>,
    created_at: &str,
    envelope_id: i64,
    parent_id: i64,
    index: usize,
) -> (outcome: Result<StoreEvent, StorageError>)
    requires
        ingest_inv(
            store.tables@,
            store.tables@,
            store.fault_after,
            plan@,
            created_at@,
            Stage::Child { envelope_id, parent_id, index },
            *old(tx),
            None,
        ),
    ensures
        ingest_inv(
            store.tables@,
            store.tables@,
            store.fault_after,
            plan@,
            created_at@,
            next_stage(
                children(plan@.parsed),
                Stage::Child { envelope_id, parent_id, index },
                event_of(outcome),
            ),
            *final(tx),
            failure_of(outcome),
        ),
        outcome is Ok ==> outcome->Ok_0 is Inserted,
{
    let ghost before = store.tables@;
    proof {
        lemma_wf_bounds(before);
    }
    let mut open = tx.take().unwrap();
    let count = plan.parsed.children();
    let written = write_child(&mut open, &plan.parsed, parent_id, index);
    proof {
        if written is Ok {
            lemma_rows_with_child(before, plan@, created_at@, index as int, open.staged@);
        }
    }
    *tx = Some(open);
    match written {
        Ok(id) => Ok(StoreEvent::Inserted(id)),
        Err(e) => Err(e),
    }
}

/// Commits the transaction of an ingestion.
fn step_commit(
    store: &mut MemoryStore,
    plan: &IngestPlan,
    tx: &mut Option<Transaction>,
    created_at: &str,
    envelope_id: i64,
    parent_id: i64,
) -> (outcome: Result<StoreEvent, StorageError>)
    requires
        ingest_inv(
            old(store).tables@,
            old(store).tables@,
            old(store).fault_after,
            plan@,
            created_at@,
            Stage::Committing { envelope_id, parent_id },
            *old(tx),
            None,
        ),
    ensures
        final(store).fault_after == old(store).fault_after,
        final(store).wf(),
        ingest_inv(
            old(store).tables@,
            final(store).tables@,
            old(store).fault_after,
            plan@,
            created_at@,
            next_stage(
                children(plan@.parsed),
                Stage::Committing { envelope_id, parent_id },
                event_of(outcome),
            ),
            *final(tx),
            failure_of(outcome),
        ),
        outcome is Ok ==> outcome->Ok_0 == StoreEvent::Committed,
{
    let open = tx.take().unwrap();
    match store.commit(open) {
        Ok(_) => Ok(StoreEvent::Committed),
        Err(e) => Err(e),
    }
}

/// Carries out on the store the action that an ingestion waits for, and
/// reports the outcome to the ingestion.
fn step(
    store: &mut MemoryStore,
    ingestion: &mut Ingestion,
    tx: &mut Option<Transaction>,
    failure: &mut Option<StorageError>,
    created_at: &str,
)
    requires
        !(old(ingestion).stage is Done),
        !(old(ingestion).stage is Failed),
        ingest_inv(
            old(store).tables@,
            old(store).tables@,
            old(store).fault_after,
            old(ingestion).plan@,
            created_at@,
            old(ingestion).stage,
            *old(tx),
            *old(failure),
        ),
    ensures
        final(ingestion).plan == old(ingestion).plan,
        final(store).fault_after == old(store).fault_after,
        final(store).wf(),
        ingest_inv(
            old(store).tables@,
            final(store).tables@,
            old(store).fault_after,
            old(ingestion).plan@,
            created_at@,
            final(ingestion).stage,
            *final(tx),
            *final(failure),
        ),
        steps_left(final(ingestion).stage, children(old(ingestion).plan@.parsed)) < steps_left(
            old(ingestion).stage,
            children(old(ingestion).plan@.parsed),
        ),
{
    let count = ingestion.plan.parsed.children();
    let outcome: Result<StoreEvent, StorageError> = match ingestion.stage {
        Stage::Opening => step_begin(store, &ingestion.plan, tx, created_at),
        Stage::Envelope => step_envelope(store, &ingestion.plan, tx, created_at),
        Stage::Parent { envelope_id } => step_parent(
            store,
            &ingestion.plan,
            tx,
            created_at,
            envelope_id,
        ),
        Stage::Child { envelope_id, parent_id, index } => step_child(
            store,
            &ingestion.plan,
            tx,
            created_at,
            envelope_id,
            parent_id,
            index,
        ),
        Stage::Committing { envelope_id, parent_id } => step_commit(
            store,
            &ingestion.plan,
            tx,
            created_at,
            envelope_id,
            parent_id,
        ),
        _ => Err(StorageError::Conflict),
    };
    let event = match outcome {
        Ok(event) => event,
        Err(e) => {
            *failure = Some(e);
            StoreEvent::Failed
        },
    };
    ingestion.advance(event);
}

/// Stores a message with what is parsed from it, and answers with the
/// stored message and its parsed part.
///
/// The message is checked first; one that fails a check is not stored.
/// The rows are written in one transaction: the message row, the header,
/// then each container or movement in the order of the message. If the
/// store refuses any operation, nothing of the message is stored.
pub fn create_edi_message(
    store: &mut MemoryStore,
    container_id: &str,
    data: &CreateEdiMessage,
    created_at: &str,
) -> (result: Result<EdiMessageResponse, EdiError>)
    requires
        old(store).wf(),
    ensures
        final(store).wf(),
        final(store).fault_after == old(store).fault_after,
        all_whole(old(store).tables@) ==> all_whole(final(store).tables@),
        ({
            let before = old(store).tables@;
            let plan = plan_of(container_id@, data.message_type@, data.content@);
            match result {
                Ok(response) => {
                    &&& data.valid()
                    &&& ingest_refusal(before, old(store).fault_after, plan.parsed) is None
                    &&& final(store).tables@ == ingested(before, plan, created_at@)
                    &&& response@ == response_of(
                        final(store).tables@,
                        new_envelope(before, plan, created_at@),
                    )
                    &&& response.content@ == data.content@
                    &&& final(store).tables@.edi_messages.last().content == data.content@
                },
                Err(EdiError::Validation(errors)) => {
                    &&& !data.valid()
                    &&& errors@ == data.errors()
                    &&& final(store).tables@ == before
                },
                Err(EdiError::Storage(e)) => {
                    &&& data.valid()
                    &&& ingest_refusal(before, old(store).fault_after, plan.parsed) == Some(e)
                    &&& final(store).tables@ == before
                },
                Err(EdiError::Parsing(_)) => false,
            }
        }),
{
    let plan = match plan_ingest(container_id, data) {
        Ok(plan) => plan,
        Err(e) => {
            return Err(e);
        },
    };
    let ghost before = store.tables@;
    let ghost planned = plan@;
    let mut ingestion = Ingestion::new(plan);
    let mut tx: Option<Transaction> = None;
    let mut failure: Option<StorageError> = None;
    while !ingestion.finished()
        invariant
            ingestion.plan@ == planned,
            store.fault_after == old(store).fault_after,
            store.wf(),
            ingest_inv(
                before,
                store.tables@,
                store.fault_after,
                planned,
                created_at@,
                ingestion.stage,
                tx,
                failure,
            ),
        decreases steps_left(ingestion.stage, children(planned.parsed)),
    {
        step(store, &mut ingestion, &mut tx, &mut failure, created_at);
    }
    match ingestion.stage {
        Stage::Done { envelope_id } => {
            let stored = store.tables.edi_messages.len();
            assert(store.tables@.edi_messages.len() == before.edi_messages.len() + 1);
            let row = &store.tables.edi_messages[stored - 1];
            assert(row@ == store.tables@.edi_messages[stored - 1]);
            assert(row@ == new_envelope(before, planned, created_at@));
            proof {
                if all_whole(before) {
                    lemma_ingest_keeps_whole(
                        before,
                        container_id@,
                        data.message_type@,
                        data.content@,
                        created_at@,
                    );
                }
            }
            Ok(assemble(store, row))
        },
        _ => match failure {
            Some(e) => Err(EdiError::Storage(e)),
            None => Err(EdiError::Storage(StorageError::Conflict)),
        },
    }
}

} // verus!
