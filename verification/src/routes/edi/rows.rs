//! The rows that storing a message writes, and what holds of a
//! transaction on the way.

use crate::models::edi::{
    BaplieContainerRow, BaplieMessageText, CoarriMessageText, CoarriMovementRow,
    CodecoMessageText, CodecoMovementRow, EdiMessageText,
};
use crate::services::edi::ingestion::{
    children, kind_of_parsed, operations_done, MessageKind, ParsedText, PlanText, Stage,
};
use crate::store::{
    counted, joined, no_rows, tables_wf, StorageError, TablesText, Transaction, MAX_ID,
};
use vstd::prelude::*;

verus! {

/// How many header rows of `kind` the tables hold.
pub open spec fn parent_rows(tables: TablesText, kind: MessageKind) -> nat {
    match kind {
        MessageKind::Baplie => tables.baplie_messages.len(),
        MessageKind::Coarri => tables.coarri_messages.len(),
        MessageKind::Codeco => tables.codeco_messages.len(),
    }
}

/// How many container or movement rows of `kind` the tables hold.
pub open spec fn child_rows(tables: TablesText, kind: MessageKind) -> nat {
    match kind {
        MessageKind::Baplie => tables.baplie_containers.len(),
        MessageKind::Coarri => tables.coarri_movements.len(),
        MessageKind::Codeco => tables.codeco_movements.len(),
    }
}

/// The message row that storing `plan` adds to `tables`.
pub open spec fn new_envelope(tables: TablesText, plan: PlanText, created_at: Seq<char>)
    -> EdiMessageText {
    EdiMessageText {
        id: (tables.edi_messages.len() + 1) as i64,
        message_type: plan.message_type,
        content: plan.content,
        container_id: Some(plan.container_id),
        created_at,
    }
}

/// The rows that storing `plan` adds to `tables`, as far as written: the
/// message row, the header row if `with_parent`, and the first `k`
/// containers or movements, in the order of the plan. Each row gets the
/// next id of its table, the header names the message row, and each child
/// names the header.
pub open spec fn new_rows(
    tables: TablesText,
    plan: PlanText,
    created_at: Seq<char>,
    with_parent: bool,
    k: int,
) -> TablesText {
    let e = (tables.edi_messages.len() + 1) as i64;
    let envelope = seq![new_envelope(tables, plan, created_at)];
    match plan.parsed {
        ParsedText::Baplie(d) => {
            let p = (tables.baplie_messages.len() + 1) as i64;
            TablesText {
                edi_messages: envelope,
                baplie_messages: if with_parent {
                    seq![
                        BaplieMessageText {
                            id: p,
                            edi_message_id: e,
                            vessel_name: d.vessel_name,
                            voyage_number: d.voyage_number,
                            port_of_loading: d.port_of_loading,
                            port_of_discharge: d.port_of_discharge,
                        },
                    ]
                } else {
                    Seq::empty()
                },
                baplie_containers: Seq::new(
                    k as nat,
                    |j: int|
                        BaplieContainerRow {
                            id: (tables.baplie_containers.len() + j + 1) as i64,
                            baplie_message_id: p,
                            fields: d.containers[j],
                        },
                ),
                ..no_rows()
            }
        },
        ParsedText::Coarri(d) => {
            let p = (tables.coarri_messages.len() + 1) as i64;
            TablesText {
                edi_messages: envelope,
                coarri_messages: if with_parent {
                    seq![
                        CoarriMessageText {
                            id: p,
                            edi_message_id: e,
                            vessel_name: d.vessel_name,
                            voyage_number: d.voyage_number,
                        },
                    ]
                } else {
                    Seq::empty()
                },
                coarri_movements: Seq::new(
                    k as nat,
                    |j: int|
                        CoarriMovementRow {
                            id: (tables.coarri_movements.len() + j + 1) as i64,
                            coarri_message_id: p,
                            fields: d.movements[j],
                        },
                ),
                ..no_rows()
            }
        },
        ParsedText::Codeco(d) => {
            let p = (tables.codeco_messages.len() + 1) as i64;
            TablesText {
                edi_messages: envelope,
                codeco_messages: if with_parent {
                    seq![CodecoMessageText { id: p, edi_message_id: e, gate: d.gate }]
                } else {
                    Seq::empty()
                },
                codeco_movements: Seq::new(
                    k as nat,
                    |j: int|
                        CodecoMovementRow {
                            id: (tables.codeco_movements.len() + j + 1) as i64,
                            codeco_message_id: p,
                            fields: d.movements[j],
                        },
                ),
                ..no_rows()
            }
        },
    }
}

/// The tables after `plan` was stored whole.
pub open spec fn ingested(tables: TablesText, plan: PlanText, created_at: Seq<char>)
    -> TablesText {
    joined(tables, new_rows(tables, plan, created_at, true, children(plan.parsed) as int))
}

/// The operation of an ingestion at which a table runs out of ids, if one
/// does. Operations are counted from 1: the beginning, the message row,
/// the header row, each child, the commit.
pub open spec fn exhausted_at(tables: TablesText, parsed: ParsedText) -> Option<int> {
    let kind = kind_of_parsed(parsed);
    if tables.edi_messages.len() >= MAX_ID {
        Some(2)
    } else if parent_rows(tables, kind) >= MAX_ID {
        Some(3)
    } else if child_rows(tables, kind) + children(parsed) > MAX_ID {
        Some(4 + MAX_ID - child_rows(tables, kind))
    } else {
        None
    }
}

/// The operation of an ingestion at which the store fails because it was
/// told to, if it does.
pub open spec fn fault_at(fault_after: Option<usize>, parsed: ParsedText) -> Option<int> {
    match fault_after {
        Some(k) => if k < children(parsed) + 4 {
            Some(k + 1)
        } else {
            None
        },
        None => None,
    }
}

/// Why the store refuses to take in a message, if it does: the error of the
/// first operation that fails.
pub open spec fn ingest_refusal(tables: TablesText, fault_after: Option<usize>, parsed: ParsedText)
    -> Option<StorageError> {
    match (fault_at(fault_after, parsed), exhausted_at(tables, parsed)) {
        (Some(f), Some(e)) => if f <= e {
            Some(StorageError::Fault)
        } else {
            Some(StorageError::Exhausted)
        },
        (Some(_), None) => Some(StorageError::Fault),
        (None, Some(_)) => Some(StorageError::Exhausted),
        (None, None) => None,
    }
}

/// The rows that a transaction holds when a stage is reached.
pub open spec fn staged_at(tables: TablesText, plan: PlanText, created_at: Seq<char>, stage: Stage)
    -> TablesText {
    match stage {
        Stage::Parent { envelope_id } => new_rows(tables, plan, created_at, false, 0),
        Stage::Child { envelope_id, parent_id, index } => new_rows(
            tables,
            plan,
            created_at,
            true,
            index as int,
        ),
        Stage::Committing { envelope_id, parent_id } => new_rows(
            tables,
            plan,
            created_at,
            true,
            children(plan.parsed) as int,
        ),
        _ => no_rows(),
    }
}

/// Whether the ids that a stage carries are those of the rows written.
pub open spec fn ids_at(tables: TablesText, parsed: ParsedText, stage: Stage) -> bool {
    let e = (tables.edi_messages.len() + 1) as i64;
    let p = (parent_rows(tables, kind_of_parsed(parsed)) + 1) as i64;
    match stage {
        Stage::Parent { envelope_id } => envelope_id == e,
        Stage::Child { envelope_id, parent_id, index } => envelope_id == e && parent_id == p
            && index < children(parsed),
        Stage::Committing { envelope_id, parent_id } => envelope_id == e && parent_id == p,
        Stage::Done { envelope_id } => envelope_id == e,
        _ => true,
    }
}

/// Whether a transaction is as it should be when `stage` is reached without
/// a failure: it began on `tables`, holds the rows written so far, and has
/// spent one operation on each step.
pub open spec fn transaction_at(
    tables: TablesText,
    fault_after: Option<usize>,
    plan: PlanText,
    created_at: Seq<char>,
    stage: Stage,
    tx: Transaction,
) -> bool {
    let done = operations_done(stage, children(plan.parsed));
    &&& tx.wf()
    &&& counted(tables, tx.base)
    &&& tx.staged@ == staged_at(tables, plan, created_at, stage)
    &&& match fault_after {
        Some(k) => k >= done && tx.operations_left == Some((k - done) as usize),
        None => tx.operations_left is None,
    }
    &&& match exhausted_at(tables, plan.parsed) {
        Some(e) => e > done,
        None => true,
    }
}

/// What holds of an ingestion between two steps. Until the commit the
/// store is as it was; after a failure it still is, and the failure is the
/// refusal that the store and the plan determine.
pub open spec fn ingest_inv(
    before: TablesText,
    now: TablesText,
    fault_after: Option<usize>,
    plan: PlanText,
    created_at: Seq<char>,
    stage: Stage,
    tx: Option<Transaction>,
    failure: Option<StorageError>,
) -> bool {
    &&& tables_wf(before)
    &&& ids_at(before, plan.parsed, stage)
    &&& match stage {
        Stage::Done { envelope_id } => {
            &&& now == ingested(before, plan, created_at)
            &&& failure is None
            &&& ingest_refusal(before, fault_after, plan.parsed) is None
        },
        Stage::Failed => {
            &&& now == before
            &&& failure is Some
            &&& failure == ingest_refusal(before, fault_after, plan.parsed)
        },
        Stage::Opening => now == before && failure is None && tx is None,
        _ => {
            &&& now == before
            &&& failure is None
            &&& tx is Some
            &&& transaction_at(before, fault_after, plan, created_at, stage, tx->0)
        },
    }
}

/// The steps that an ingestion has still to take, at most.
pub open spec fn steps_left(stage: Stage, children: nat) -> int {
    match stage {
        Stage::Done { envelope_id } => 0,
        Stage::Failed => 0,
        _ => 5 + children - operations_done(stage, children),
    }
}

/// Before the header is written, a transaction holds the message row alone.
pub proof fn lemma_rows_without_children(tables: TablesText, plan: PlanText, created_at: Seq<char>)
    ensures
        new_rows(tables, plan, created_at, false, 0) == (TablesText {
            edi_messages: seq![new_envelope(tables, plan, created_at)],
            ..no_rows()
        }),
{
    let rows = new_rows(tables, plan, created_at, false, 0);
    assert(rows.baplie_containers =~= Seq::empty());
    assert(rows.coarri_movements =~= Seq::empty());
    assert(rows.codeco_movements =~= Seq::empty());
}

/// Writing the header after the message row gives the rows of a plan with
/// its header and no child yet.
pub proof fn lemma_rows_with_parent(
    tables: TablesText,
    plan: PlanText,
    created_at: Seq<char>,
    staged: TablesText,
)
    requires
        ({
            let e = (tables.edi_messages.len() + 1) as i64;
            let had = new_rows(tables, plan, created_at, false, 0);
            staged == match plan.parsed {
                ParsedText::Baplie(d) => TablesText {
                    baplie_messages: had.baplie_messages.push(
                        BaplieMessageText {
                            id: (tables.baplie_messages.len() + 1) as i64,
                            edi_message_id: e,
                            vessel_name: d.vessel_name,
                            voyage_number: d.voyage_number,
                            port_of_loading: d.port_of_loading,
                            port_of_discharge: d.port_of_discharge,
                        },
                    ),
                    ..had
                },
                ParsedText::Coarri(d) => TablesText {
                    coarri_messages: had.coarri_messages.push(
                        CoarriMessageText {
                            id: (tables.coarri_messages.len() + 1) as i64,
                            edi_message_id: e,
                            vessel_name: d.vessel_name,
                            voyage_number: d.voyage_number,
                        },
                    ),
                    ..had
                },
                ParsedText::Codeco(d) => TablesText {
                    codeco_messages: had.codeco_messages.push(
                        CodecoMessageText {
                            id: (tables.codeco_messages.len() + 1) as i64,
                            edi_message_id: e,
                            gate: d.gate,
                        },
                    ),
                    ..had
                },
            }
        }),
    ensures
        staged == new_rows(tables, plan, created_at, true, 0),
{
    let rows = new_rows(tables, plan, created_at, true, 0);
    assert(staged.baplie_messages =~= rows.baplie_messages);
    assert(staged.coarri_messages =~= rows.coarri_messages);
    assert(staged.codeco_messages =~= rows.codeco_messages);
    assert(staged.baplie_containers =~= rows.baplie_containers);
    assert(staged.coarri_movements =~= rows.coarri_movements);
    assert(staged.codeco_movements =~= rows.codeco_movements);
}

/// Writing the child at `index` after those before it gives the rows of a
/// plan with one more child.
pub proof fn lemma_rows_with_child(
    tables: TablesText,
    plan: PlanText,
    created_at: Seq<char>,
    index: int,
    staged: TablesText,
)
    requires
        0 <= index < children(plan.parsed),
        ({
            let had = new_rows(tables, plan, created_at, true, index);
            staged == match plan.parsed {
                ParsedText::Baplie(d) => TablesText {
                    baplie_containers: had.baplie_containers.push(
                        BaplieContainerRow {
                            id: (tables.baplie_containers.len() + index + 1) as i64,
                            baplie_message_id: (tables.baplie_messages.len() + 1) as i64,
                            fields: d.containers[index],
                        },
                    ),
                    ..had
                },
                ParsedText::Coarri(d) => TablesText {
                    coarri_movements: had.coarri_movements.push(
                        CoarriMovementRow {
                            id: (tables.coarri_movements.len() + index + 1) as i64,
                            coarri_message_id: (tables.coarri_messages.len() + 1) as i64,
                            fields: d.movements[index],
                        },
                    ),
                    ..had
                },
                ParsedText::Codeco(d) => TablesText {
                    codeco_movements: had.codeco_movements.push(
                        CodecoMovementRow {
                            id: (tables.codeco_movements.len() + index + 1) as i64,
                            codeco_message_id: (tables.codeco_messages.len() + 1) as i64,
                            fields: d.movements[index],
                        },
                    ),
                    ..had
                },
            }
        }),
    ensures
        staged == new_rows(tables, plan, created_at, true, index + 1),
{
    let rows = new_rows(tables, plan, created_at, true, index + 1);
    assert(staged.baplie_containers =~= rows.baplie_containers);
    assert(staged.coarri_movements =~= rows.coarri_movements);
    assert(staged.codeco_movements =~= rows.codeco_movements);
}

} // verus!
