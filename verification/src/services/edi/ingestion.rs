//! The plan for storing one message and the state machine that carries it
//! out: it decides what is done with the store, step by step.

use crate::models::edi::{
    is_message_type, BaplieDataText, CoarriDataText, CodecoDataText, CreateEdiMessage,
    ParsedBaplieData, ParsedCoarriData, ParsedCodecoData,
};
use crate::services::edi::baplie_parser::{parse_baplie, parse_baplie_spec};
use crate::services::edi::coarri_parser::{parse_coarri, parse_coarri_spec};
use crate::services::edi::codeco_parser::{parse_codeco, parse_codeco_spec};
use crate::store::StorageError;
use crate::validation::{same_text, ValidationErrors};
use vstd::prelude::*;

verus! {

/// The three kinds of message.
#[derive(Debug, Clone, Copy, PartialEq, Eq, Structural)]
pub enum MessageKind {
    Baplie,
    Coarri,
    Codeco,
}

/// The kind that a message-type tag names, if it names one.
pub open spec fn kind_of(message_type: Seq<char>) -> Option<MessageKind> {
    if message_type == "BAPLIE"@ {
        Some(MessageKind::Baplie)
    } else if message_type == "COARRI"@ {
        Some(MessageKind::Coarri)
    } else if message_type == "CODECO"@ {
        Some(MessageKind::Codeco)
    } else {
        None
    }
}

/// The kind that a message-type tag names, if it names one.
pub fn message_kind(message_type: &str) -> (kind: Option<MessageKind>)
    ensures
        kind == kind_of(message_type@),
{
    if same_text(message_type, "BAPLIE") {
        Some(MessageKind::Baplie)
    } else if same_text(message_type, "COARRI") {
        Some(MessageKind::Coarri)
    } else if same_text(message_type, "CODECO") {
        Some(MessageKind::Codeco)
    } else {
        None
    }
}

/// The content of a message of one of the three kinds.
#[derive(Debug, Clone)]
pub enum ParsedMessage {
    Baplie(ParsedBaplieData),
    Coarri(ParsedCoarriData),
    Codeco(ParsedCodecoData),
}

/// The text of a `ParsedMessage`.
pub enum ParsedText {
    Baplie(BaplieDataText),
    Coarri(CoarriDataText),
    Codeco(CodecoDataText),
}

impl View for ParsedMessage {
    type V = ParsedText;

    open spec fn view(&self) -> ParsedText {
        match self {
            ParsedMessage::Baplie(d) => ParsedText::Baplie(d@),
            ParsedMessage::Coarri(d) => ParsedText::Coarri(d@),
            ParsedMessage::Codeco(d) => ParsedText::Codeco(d@),
        }
    }
}

/// How many containers or movements a message holds.
pub open spec fn children(parsed: ParsedText) -> nat {
    match parsed {
        ParsedText::Baplie(d) => d.containers.len(),
        ParsedText::Coarri(d) => d.movements.len(),
        ParsedText::Codeco(d) => d.movements.len(),
    }
}

/// The kind of a parsed message.
pub open spec fn kind_of_parsed(parsed: ParsedText) -> MessageKind {
    match parsed {
        ParsedText::Baplie(_) => MessageKind::Baplie,
        ParsedText::Coarri(_) => MessageKind::Coarri,
        ParsedText::Codeco(_) => MessageKind::Codeco,
    }
}

/// What a message text holds when read as a message of `kind`.
pub open spec fn parsed_as(kind: MessageKind, content: Seq<char>) -> ParsedText {
    match kind {
        MessageKind::Baplie => ParsedText::Baplie(parse_baplie_spec(content)),
        MessageKind::Coarri => ParsedText::Coarri(parse_coarri_spec(content)),
        MessageKind::Codeco => ParsedText::Codeco(parse_codeco_spec(content)),
    }
}

impl ParsedMessage {
    /// How many containers or movements the message holds.
    pub fn children(&self) -> (n: usize)
        ensures
            n == children(self@),
    {
        match self {
            ParsedMessage::Baplie(d) => d.containers.len(),
            ParsedMessage::Coarri(d) => d.movements.len(),
            ParsedMessage::Codeco(d) => d.movements.len(),
        }
    }
}

/// Everything that storing one message will write: the message as it came
/// and what was parsed from it.
#[derive(Debug, Clone)]
pub struct IngestPlan {
    pub message_type: String,
    pub content: String,
    pub container_id: String,
    pub parsed: ParsedMessage,
}

/// The text of an `IngestPlan`.
pub struct PlanText {
    pub message_type: Seq<char>,
    pub content: Seq<char>,
    pub container_id: Seq<char>,
    pub parsed: ParsedText,
}

impl View for IngestPlan {
    type V = PlanText;

    open spec fn view(&self) -> PlanText {
        PlanText {
            message_type: self.message_type@,
            content: self.content@,
            container_id: self.container_id@,
            parsed: self.parsed@,
        }
    }
}

/// The plan for a message of an accepted type: type and content as they
/// came, under the caller's container, with the content parsed as its type
/// says.
pub open spec fn plan_of(container_id: Seq<char>, message_type: Seq<char>, content: Seq<char>)
    -> PlanText
    recommends
        is_message_type(message_type),
{
    PlanText {
        message_type,
        content,
        container_id,
        parsed: parsed_as(kind_of(message_type)->0, content),
    }
}

/// Why a message was not stored.
#[derive(Debug, Clone)]
pub enum EdiError {
    /// The message failed a check: its type is not accepted or its content
    /// is empty.
    Validation(ValidationErrors),
    /// The content could not be read as a message of its type.
    Parsing(String),
    /// The store refused; nothing was written.
    Storage(StorageError),
}

/// Parses a message text as a message of `kind`.
pub fn parse_as(kind: MessageKind, content: &str) -> (result: Result<ParsedMessage, String>)
    ensures
        result is Ok,
        result->Ok_0@ == parsed_as(kind, content@),
{
    match kind {
        MessageKind::Baplie => match parse_baplie(content) {
            Ok(d) => Ok(ParsedMessage::Baplie(d)),
            Err(e) => Err(e),
        },
        MessageKind::Coarri => match parse_coarri(content) {
            Ok(d) => Ok(ParsedMessage::Coarri(d)),
            Err(e) => Err(e),
        },
        MessageKind::Codeco => match parse_codeco(content) {
            Ok(d) => Ok(ParsedMessage::Codeco(d)),
            Err(e) => Err(e),
        },
    }
}

/// Checks a message and parses it by its type. Every message that passes
/// the checks has a plan.
pub fn plan_ingest(container_id: &str, data: &CreateEdiMessage) -> (result: Result<
    IngestPlan,
    EdiError,
>)
    ensures
        result is Ok <==> data.valid(),
        result is Ok ==> result->Ok_0@ == plan_of(container_id@, data.message_type@, data.content@),
        result is Err ==> result->Err_0 is Validation && result->Err_0->Validation_0@
            == data.errors(),
{
    match data.validate() {
        Ok(_) => {},
        Err(errors) => {
            return Err(EdiError::Validation(errors));
        },
    }
    let kind = match message_kind(data.message_type.as_str()) {
        Some(kind) => kind,
        None => {
            return Err(EdiError::Parsing("Invalid message type".to_owned()));
        },
    };
    let parsed = match parse_as(kind, data.content.as_str()) {
        Ok(parsed) => parsed,
        Err(e) => {
            return Err(EdiError::Parsing(e));
        },
    };
    Ok(
        IngestPlan {
            message_type: data.message_type.clone(),
            content: data.content.clone(),
            container_id: container_id.to_owned(),
            parsed,
        },
    )
}

/// Where an ingestion stands: what it waits for.
#[derive(Debug, Clone, Copy, PartialEq, Eq, Structural)]
pub enum Stage {
    /// Nothing done yet: a transaction is to be opened.
    Opening,
    /// The message row is to be written.
    Envelope,
    /// The header row is to be written under the message row.
    Parent { envelope_id: i64 },
    /// The container or movement at `index` is to be written under the
    /// header row; those before it are written.
    Child { envelope_id: i64, parent_id: i64, index: usize },
    /// Every row is written: the transaction is to be committed.
    Committing { envelope_id: i64, parent_id: i64 },
    /// Committed.
    Done { envelope_id: i64 },
    /// Given up after a failure.
    Failed,
}

/// What the store reports back.
#[derive(Debug, Clone, Copy, PartialEq, Eq, Structural)]
pub enum StoreEvent {
    /// A transaction is open.
    Opened,
    /// The row was written and has this id.
    Inserted(i64),
    /// The transaction is committed.
    Committed,
    /// The operation failed.
    Failed,
}

/// What is to be done with the store next.
#[derive(Debug, Clone, Copy, PartialEq, Eq, Structural)]
pub enum StoreAction {
    /// Open a transaction.
    Begin,
    /// Write the message row of the plan.
    InsertEnvelope,
    /// Write the header row of the plan under this message row.
    InsertParent { envelope_id: i64 },
    /// Write the plan's container or movement at `index` under this header.
    InsertChild { parent_id: i64, index: usize },
    /// Commit the transaction.
    Commit,
    /// All is stored: answer with the message that has this id.
    Respond { envelope_id: i64 },
    /// Roll back the transaction, if one is open, and report a storage error.
    Abort,
}

/// The action that a stage waits for.
pub open spec fn action_of(stage: Stage) -> StoreAction {
    match stage {
        Stage::Opening => StoreAction::Begin,
        Stage::Envelope => StoreAction::InsertEnvelope,
        Stage::Parent { envelope_id } => StoreAction::InsertParent { envelope_id },
        Stage::Child { envelope_id, parent_id, index } => StoreAction::InsertChild {
            parent_id,
            index,
        },
        Stage::Committing { envelope_id, parent_id } => StoreAction::Commit,
        Stage::Done { envelope_id } => StoreAction::Respond { envelope_id },
        Stage::Failed => StoreAction::Abort,
    }
}

/// The stage that follows `stage` when the store reports `event`, for a
/// plan with `children` containers or movements. Rows are written in the
/// order envelope, header, then each child in the order of the plan; the
/// commit comes after the last of them. Any failure, and any report that
/// does not answer the action asked for, ends the ingestion as failed.
pub open spec fn next_stage(children: nat, stage: Stage, event: StoreEvent) -> Stage {
    match (stage, event) {
        (Stage::Opening, StoreEvent::Opened) => Stage::Envelope,
        (Stage::Envelope, StoreEvent::Inserted(id)) => Stage::Parent { envelope_id: id },
        (Stage::Parent { envelope_id }, StoreEvent::Inserted(id)) => if children == 0 {
            Stage::Committing { envelope_id, parent_id: id }
        } else {
            Stage::Child { envelope_id, parent_id: id, index: 0 }
        },
        (Stage::Child { envelope_id, parent_id, index }, StoreEvent::Inserted(_)) => if index + 1
            < children {
            Stage::Child { envelope_id, parent_id, index: (index + 1) as usize }
        } else {
            Stage::Committing { envelope_id, parent_id }
        },
        (Stage::Committing { envelope_id, parent_id }, StoreEvent::Committed) => Stage::Done {
            envelope_id,
        },
        (Stage::Done { envelope_id }, _) => Stage::Done { envelope_id },
        _ => Stage::Failed,
    }
}

/// The ingestion of one message: a plan and the stage reached. It decides
/// what is done with the store; whoever holds the store does it and reports
/// back.
#[derive(Debug, Clone)]
pub struct Ingestion {
    pub plan: IngestPlan,
    pub stage: Stage,
}

impl Ingestion {
    /// An ingestion of `plan` that has done nothing yet.
    pub fn new(plan: IngestPlan) -> (ingestion: Ingestion)
        ensures
            ingestion.plan == plan,
            ingestion.stage == Stage::Opening,
    {
        Ingestion { plan, stage: Stage::Opening }
    }

    /// The action that the ingestion waits for.
    pub fn action(&self) -> (action: StoreAction)
        ensures
            action == action_of(self.stage),
    {
        match self.stage {
            Stage::Opening => StoreAction::Begin,
            Stage::Envelope => StoreAction::InsertEnvelope,
            Stage::Parent { envelope_id } => StoreAction::InsertParent { envelope_id },
            Stage::Child { envelope_id, parent_id, index } => StoreAction::InsertChild {
                parent_id,
                index,
            },
            Stage::Committing { envelope_id, parent_id } => StoreAction::Commit,
            Stage::Done { envelope_id } => StoreAction::Respond { envelope_id },
            Stage::Failed => StoreAction::Abort,
        }
    }

    /// Whether the ingestion has ended, stored or failed.
    pub fn finished(&self) -> (ended: bool)
        ensures
            ended == (self.stage is Done || self.stage is Failed),
    {
        match self.stage {
            Stage::Done { envelope_id } => true,
            Stage::Failed => true,
            _ => false,
        }
    }

    /// Takes in what the store reported on the last action and gives the
    /// next action.
    pub fn advance(&mut self, event: StoreEvent) -> (action: StoreAction)
        ensures
            final(self).plan == old(self).plan,
            final(self).stage == next_stage(children(old(self).plan@.parsed), old(self).stage, event),
            action == action_of(final(self).stage),
    {
        let children = self.plan.parsed.children();
        self.stage = match (self.stage, event) {
            (Stage::Opening, StoreEvent::Opened) => Stage::Envelope,
            (Stage::Envelope, StoreEvent::Inserted(id)) => Stage::Parent { envelope_id: id },
            (Stage::Parent { envelope_id }, StoreEvent::Inserted(id)) => if children == 0 {
                Stage::Committing { envelope_id, parent_id: id }
            } else {
                Stage::Child { envelope_id, parent_id: id, index: 0 }
            },
            (Stage::Child { envelope_id, parent_id, index }, StoreEvent::Inserted(_)) => if index
                < children && index + 1 < children {
                Stage::Child { envelope_id, parent_id, index: index + 1 }
            } else {
                Stage::Committing { envelope_id, parent_id }
            },
            (Stage::Committing { envelope_id, parent_id }, StoreEvent::Committed) => Stage::Done {
                envelope_id,
            },
            (Stage::Done { envelope_id }, _) => Stage::Done { envelope_id },
            _ => Stage::Failed,
        };
        self.action()
    }
}

/// A failure ends an ingestion without a commit: from any stage before the
/// end, a failed operation leads to the failed stage; the failed stage asks
/// for the rollback and is never left.
pub proof fn lemma_failure_aborts(children: nat, stage: Stage, event: StoreEvent)
    ensures
        !(stage is Done) ==> next_stage(children, stage, StoreEvent::Failed) == Stage::Failed,
        next_stage(children, Stage::Failed, event) == Stage::Failed,
        action_of(Stage::Failed) == StoreAction::Abort,
        action_of(next_stage(children, stage, event)) == StoreAction::Commit ==> !(event
            is Failed),
{
}

/// The plan of a message is of the kind that its type names.
pub proof fn lemma_plan_kind(container_id: Seq<char>, message_type: Seq<char>, content: Seq<char>)
    requires
        is_message_type(message_type),
    ensures
        Some(kind_of_parsed(plan_of(container_id, message_type, content).parsed)) == kind_of(
            message_type,
        ),
{
}

/// How many operations are done when a stage is reached.
pub open spec fn operations_done(stage: Stage, children: nat) -> int {
    match stage {
        Stage::Opening => 0,
        Stage::Envelope => 1,
        Stage::Parent { envelope_id } => 2,
        Stage::Child { envelope_id, parent_id, index } => 3 + index,
        Stage::Committing { envelope_id, parent_id } => 3 + children as int,
        Stage::Done { envelope_id } => 4 + children as int,
        Stage::Failed => 4 + children as int,
    }
}

/// The stage that an ingestion is at after the store has reported
/// `events`, one after the other.
pub open spec fn stage_after(children: nat, events: Seq<StoreEvent>) -> Stage
    decreases events.len(),
{
    if events.len() == 0 {
        Stage::Opening
    } else {
        next_stage(children, stage_after(children, events.drop_last()), events.last())
    }
}

/// Whether the reports are those of a run without failure so far: the
/// transaction was opened, and every report after that is a row written.
pub open spec fn all_written(events: Seq<StoreEvent>) -> bool {
    forall|j: int|
        0 <= j < events.len() ==> if j == 0 {
            events[j] == StoreEvent::Opened
        } else {
            #[trigger] events[j] is Inserted
        }
}

/// An ingestion that has neither ended nor failed has taken one report for
/// each operation done, none of them a failure; the child it asks for next
/// is the one whose turn it is.
pub proof fn lemma_stage_counts_reports(children: nat, events: Seq<StoreEvent>)
    requires
        children <= usize::MAX,
        !(stage_after(children, events) is Failed),
        !(stage_after(children, events) is Done),
    ensures
        events.len() == operations_done(stage_after(children, events), children),
        all_written(events),
        stage_after(children, events) matches Stage::Child { index, .. } ==> index < children,
    decreases events.len(),
{
    if events.len() > 0 {
        let before = events.drop_last();
        let stage = stage_after(children, before);
        if !(stage is Failed) && !(stage is Done) {
            lemma_stage_counts_reports(children, before);
            assert forall|j: int| 0 <= j < events.len() implies if j == 0 {
                events[j] == StoreEvent::Opened
            } else {
                #[trigger] events[j] is Inserted
            } by {
                if j < before.len() {
                    assert(events[j] == before[j]);
                    if j > 0 {
                        assert(before[j] is Inserted);
                    }
                }
            }
        }
    }
}

/// The commit is asked for only when every row is written: after the
/// opening, the message row, the header and each child were reported
/// written, in that order, and nothing failed.
pub proof fn lemma_commit_after_all_rows(children: nat, events: Seq<StoreEvent>)
    requires
        children <= usize::MAX,
        action_of(stage_after(children, events)) == StoreAction::Commit,
    ensures
        events.len() == 3 + children,
        all_written(events),
{
    lemma_stage_counts_reports(children, events);
}

/// The children are asked for in the order of the plan: the ingestion asks
/// for the child at `index` exactly when the message row, the header and
/// the `index` children before it are written.
pub proof fn lemma_children_in_turn(children: nat, events: Seq<StoreEvent>)
    requires
        children <= usize::MAX,
        stage_after(children, events) is Child,
    ensures
        events.len() == 3 + stage_after(children, events)->Child_index,
        action_of(stage_after(children, events)) is InsertChild,
        action_of(stage_after(children, events))->InsertChild_index + 3 == events.len(),
        all_written(events),
{
    lemma_stage_counts_reports(children, events);
}

} // verus!
