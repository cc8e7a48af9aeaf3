//! What holds of the store when messages are stored and read back.

use crate::models::edi::{
    is_message_type, BaplieContainerRow, BaplieDataText, BaplieProjection, CoarriDataText,
    CoarriMovementRow, CoarriProjection, CodecoDataText, CodecoMovementRow, CodecoProjection,
    EdiMessageText, EdiResponseText,
};
use crate::routes::edi::query::{
    baplie_of, baplie_projection, coarri_movements_of, coarri_of, coarri_projection,
    codeco_movements_of, codeco_of, codeco_projection, containers_of, first_match, in_scope,
    lemma_first_match_is_row, lemma_first_match_kept, lemma_first_match_skips,
    lemma_matching_all, lemma_matching_joined, lemma_matching_none, matching, response_of,
    responses_in,
};
use crate::routes::edi::rows::{
    exhausted_at, ingest_refusal, ingested, new_envelope, new_rows,
};
use crate::services::edi::baplie_parser::parse_baplie_spec;
use crate::services::edi::coarri_parser::parse_coarri_spec;
use crate::services::edi::codeco_parser::parse_codeco_spec;
use crate::services::edi::ingestion::{
    children, kind_of, kind_of_parsed, lemma_plan_kind, plan_of, MessageKind, ParsedText,
    PlanText,
};
use crate::store::{lemma_wf_bounds, tables_wf, TablesText};
use vstd::prelude::*;

verus! {

/// A stored message keeps what was sent: the last message row after an
/// ingestion holds the content character for character, with the type and
/// the container it was sent under, and the rows before it are untouched.
pub proof fn lemma_envelope_preserved(
    tables: TablesText,
    container_id: Seq<char>,
    message_type: Seq<char>,
    content: Seq<char>,
    created_at: Seq<char>,
)
    ensures
        ({
            let after = ingested(
                tables,
                plan_of(container_id, message_type, content),
                created_at,
            );
            &&& after.edi_messages.len() == tables.edi_messages.len() + 1
            &&& after.edi_messages.drop_last() == tables.edi_messages
            &&& after.edi_messages.last().content == content
            &&& after.edi_messages.last().message_type == message_type
            &&& after.edi_messages.last().container_id == Some(container_id)
        }),
{
    let after = ingested(tables, plan_of(container_id, message_type, content), created_at);
    assert(after.edi_messages.drop_last() =~= tables.edi_messages);
}

/// A store that is told to fail within an ingestion refuses it: whichever
/// operation is forced to fail, the beginning, a row or the commit, the
/// ingestion has a refusal, and so stores nothing.
pub proof fn lemma_forced_failure_refuses(
    tables: TablesText,
    operations: usize,
    parsed: ParsedText,
)
    requires
        operations < children(parsed) + 4,
    ensures
        ingest_refusal(tables, Some(operations), parsed) is Some,
{
}

/// A message of one type adds no row to the tables of the other two types.
pub proof fn lemma_type_isolation(tables: TablesText, plan: PlanText, created_at: Seq<char>)
    ensures
        ({
            let after = ingested(tables, plan, created_at);
            let kind = kind_of_parsed(plan.parsed);
            &&& kind != MessageKind::Baplie ==> after.baplie_messages == tables.baplie_messages
                && after.baplie_containers == tables.baplie_containers
            &&& kind != MessageKind::Coarri ==> after.coarri_messages == tables.coarri_messages
                && after.coarri_movements == tables.coarri_movements
            &&& kind != MessageKind::Codeco ==> after.codeco_messages == tables.codeco_messages
                && after.codeco_movements == tables.codeco_movements
        }),
{
    let after = ingested(tables, plan, created_at);
    let kind = kind_of_parsed(plan.parsed);
    if kind != MessageKind::Baplie {
        assert(after.baplie_messages =~= tables.baplie_messages);
        assert(after.baplie_containers =~= tables.baplie_containers);
    }
    if kind != MessageKind::Coarri {
        assert(after.coarri_messages =~= tables.coarri_messages);
        assert(after.coarri_movements =~= tables.coarri_movements);
    }
    if kind != MessageKind::Codeco {
        assert(after.codeco_messages =~= tables.codeco_messages);
        assert(after.codeco_movements =~= tables.codeco_movements);
    }
}

/// Whether the tables have the ids left that storing `parsed` takes.
pub open spec fn has_room(tables: TablesText, parsed: ParsedText) -> bool {
    exhausted_at(tables, parsed) is None
}

/// The parsed part that is read back for a newly stored message: its
/// header and all its containers or movements, in the order of the plan.
pub open spec fn stored_part(tables: TablesText, plan: PlanText, created_at: Seq<char>)
    -> EdiResponseText {
    let rows = new_rows(tables, plan, created_at, true, children(plan.parsed) as int);
    EdiResponseText {
        message: new_envelope(tables, plan, created_at),
        baplie_message: match plan.parsed {
            ParsedText::Baplie(_) => Some(
                BaplieProjection {
                    header: rows.baplie_messages[0],
                    containers: rows.baplie_containers,
                },
            ),
            _ => None,
        },
        coarri_message: match plan.parsed {
            ParsedText::Coarri(_) => Some(
                CoarriProjection {
                    header: rows.coarri_messages[0],
                    movements: rows.coarri_movements,
                },
            ),
            _ => None,
        },
        codeco_message: match plan.parsed {
            ParsedText::Codeco(_) => Some(
                CodecoProjection {
                    header: rows.codeco_messages[0],
                    movements: rows.codeco_movements,
                },
            ),
            _ => None,
        },
    }
}

/// What is read back for a newly stored message is what was parsed from
/// it: the one typed part of the message's kind, with the parsed header and
/// with every container or movement in the order of the parsed source.
pub proof fn lemma_stored_is_read_back(
    tables: TablesText,
    container_id: Seq<char>,
    message_type: Seq<char>,
    content: Seq<char>,
    created_at: Seq<char>,
)
    requires
        tables_wf(tables),
        is_message_type(message_type),
        has_room(tables, plan_of(container_id, message_type, content).parsed),
    ensures
        ({
            let plan = plan_of(container_id, message_type, content);
            response_of(
                ingested(tables, plan, created_at),
                new_envelope(tables, plan, created_at),
            ) == stored_part(tables, plan, created_at)
        }),
{
    let plan = plan_of(container_id, message_type, content);
    let n = children(plan.parsed) as int;
    let rows = new_rows(tables, plan, created_at, true, n);
    let after = ingested(tables, plan, created_at);
    let envelope = new_envelope(tables, plan, created_at);
    let e = envelope.id;
    lemma_wf_bounds(tables);
    lemma_plan_kind(container_id, message_type, content);
    match plan.parsed {
        ParsedText::Baplie(d) => {
            let p = rows.baplie_messages[0].id;
            assert(baplie_of(e)(rows.baplie_messages[0]));
            lemma_first_match_skips(tables.baplie_messages, rows.baplie_messages, baplie_of(e), 0);
            lemma_matching_joined(tables.baplie_containers, rows.baplie_containers, containers_of(p));
            lemma_matching_none(tables.baplie_containers, containers_of(p));
            lemma_matching_all(rows.baplie_containers, containers_of(p));
            assert(Seq::<BaplieContainerRow>::empty() + rows.baplie_containers
                =~= rows.baplie_containers);
        },
        ParsedText::Coarri(d) => {
            let p = rows.coarri_messages[0].id;
            assert(coarri_of(e)(rows.coarri_messages[0]));
            lemma_first_match_skips(tables.coarri_messages, rows.coarri_messages, coarri_of(e), 0);
            lemma_matching_joined(
                tables.coarri_movements,
                rows.coarri_movements,
                coarri_movements_of(p),
            );
            lemma_matching_none(tables.coarri_movements, coarri_movements_of(p));
            lemma_matching_all(rows.coarri_movements, coarri_movements_of(p));
            assert(Seq::<CoarriMovementRow>::empty() + rows.coarri_movements
                =~= rows.coarri_movements);
        },
        ParsedText::Codeco(d) => {
            let p = rows.codeco_messages[0].id;
            assert(codeco_of(e)(rows.codeco_messages[0]));
            lemma_first_match_skips(tables.codeco_messages, rows.codeco_messages, codeco_of(e), 0);
            lemma_matching_joined(
                tables.codeco_movements,
                rows.codeco_movements,
                codeco_movements_of(p),
            );
            lemma_matching_none(tables.codeco_movements, codeco_movements_of(p));
            lemma_matching_all(rows.codeco_movements, codeco_movements_of(p));
            assert(Seq::<CodecoMovementRow>::empty() + rows.codeco_movements
                =~= rows.codeco_movements);
        },
    }
}

/// The containers or movements that are read back for a newly stored
/// message are those parsed from its content, one for one and in the same
/// order.
pub proof fn lemma_children_in_source_order(
    tables: TablesText,
    container_id: Seq<char>,
    message_type: Seq<char>,
    content: Seq<char>,
    created_at: Seq<char>,
)
    requires
        is_message_type(message_type),
    ensures
        ({
            let read = stored_part(
                tables,
                plan_of(container_id, message_type, content),
                created_at,
            );
            match kind_of(message_type)->0 {
                MessageKind::Baplie => read.baplie_message is Some
                    && read.baplie_message->0.containers.map_values(
                    |r: BaplieContainerRow| r.fields,
                ) == parse_baplie_spec(content).containers,
                MessageKind::Coarri => read.coarri_message is Some
                    && read.coarri_message->0.movements.map_values(
                    |r: CoarriMovementRow| r.fields,
                ) == parse_coarri_spec(content).movements,
                MessageKind::Codeco => read.codeco_message is Some
                    && read.codeco_message->0.movements.map_values(
                    |r: CodecoMovementRow| r.fields,
                ) == parse_codeco_spec(content).movements,
            }
        }),
{
    let read = stored_part(tables, plan_of(container_id, message_type, content), created_at);
    match kind_of(message_type)->0 {
        MessageKind::Baplie => {
            assert(read.baplie_message->0.containers.map_values(|r: BaplieContainerRow| r.fields)
                =~= parse_baplie_spec(content).containers);
        },
        MessageKind::Coarri => {
            assert(read.coarri_message->0.movements.map_values(|r: CoarriMovementRow| r.fields)
                =~= parse_coarri_spec(content).movements);
        },
        MessageKind::Codeco => {
            assert(read.codeco_message->0.movements.map_values(|r: CodecoMovementRow| r.fields)
                =~= parse_codeco_spec(content).movements);
        },
    }
}

/// After a message is stored, listing the messages of its container gives
/// it last, as it is read back from the store.
pub proof fn lemma_listed_after_stored(tables: TablesText, plan: PlanText, created_at: Seq<char>)
    ensures
        ({
            let after = ingested(tables, plan, created_at);
            let listed = responses_in(after, plan.container_id);
            &&& listed.len() == responses_in(tables, plan.container_id).len() + 1
            &&& listed.last() == response_of(after, new_envelope(tables, plan, created_at))
        }),
{
    let after = ingested(tables, plan, created_at);
    let envelope = new_envelope(tables, plan, created_at);
    let wanted = in_scope(plan.container_id);
    let added = seq![envelope];
    assert(after.edi_messages =~= tables.edi_messages + added);
    lemma_matching_joined(tables.edi_messages, added, wanted);
    assert(wanted(envelope));
    assert forall|i: int| 0 <= i < added.len() implies wanted(#[trigger] added[i]) by {}
    lemma_matching_all(added, wanted);
}

/// What a BAPLIE part that is read back says, without the ids of its rows.
pub open spec fn baplie_read(part: BaplieProjection) -> BaplieDataText {
    BaplieDataText {
        vessel_name: part.header.vessel_name,
        voyage_number: part.header.voyage_number,
        port_of_loading: part.header.port_of_loading,
        port_of_discharge: part.header.port_of_discharge,
        containers: part.containers.map_values(|r: BaplieContainerRow| r.fields),
    }
}

/// What a COARRI part that is read back says, without the ids of its rows.
pub open spec fn coarri_read(part: CoarriProjection) -> CoarriDataText {
    CoarriDataText {
        vessel_name: part.header.vessel_name,
        voyage_number: part.header.voyage_number,
        movements: part.movements.map_values(|r: CoarriMovementRow| r.fields),
    }
}

/// What a CODECO part that is read back says, without the ids of its rows.
pub open spec fn codeco_read(part: CodecoProjection) -> CodecoDataText {
    CodecoDataText {
        gate: part.header.gate,
        movements: part.movements.map_values(|r: CodecoMovementRow| r.fields),
    }
}

/// Whether a stored message is whole: the store holds the header of its
/// type under it, and header and children say exactly what its content
/// says, the children in the order of the content. A message of an unknown
/// type is whole as it is.
pub open spec fn whole(tables: TablesText, message: EdiMessageText) -> bool {
    match kind_of(message.message_type) {
        Some(MessageKind::Baplie) => {
            let part = baplie_projection(tables, message.id);
            part is Some && baplie_read(part->0) == parse_baplie_spec(message.content)
        },
        Some(MessageKind::Coarri) => {
            let part = coarri_projection(tables, message.id);
            part is Some && coarri_read(part->0) == parse_coarri_spec(message.content)
        },
        Some(MessageKind::Codeco) => {
            let part = codeco_projection(tables, message.id);
            part is Some && codeco_read(part->0) == parse_codeco_spec(message.content)
        },
        None => true,
    }
}

/// Whether every stored message is whole: no message without its header,
/// no header with a part of its children only.
pub open spec fn all_whole(tables: TablesText) -> bool {
    forall|i: int|
        0 <= i < tables.edi_messages.len() ==> whole(tables, #[trigger] tables.edi_messages[i])
}

/// What is read back of a message stored before stays the same when
/// another message is stored.
pub proof fn lemma_old_parts_kept(
    tables: TablesText,
    plan: PlanText,
    created_at: Seq<char>,
    message: EdiMessageText,
)
    requires
        tables_wf(tables),
        has_room(tables, plan.parsed),
        whole(tables, message),
    ensures
        whole(ingested(tables, plan, created_at), message),
{
    let rows = new_rows(tables, plan, created_at, true, children(plan.parsed) as int);
    let after = ingested(tables, plan, created_at);
    lemma_wf_bounds(tables);
    match kind_of(message.message_type) {
        Some(MessageKind::Baplie) => {
            let wanted = baplie_of(message.id);
            lemma_first_match_kept(tables.baplie_messages, rows.baplie_messages, wanted, 0);
            lemma_first_match_is_row(tables.baplie_messages, wanted, 0);
            let header = first_match(tables.baplie_messages, wanted, 0)->0;
            lemma_matching_joined(
                tables.baplie_containers,
                rows.baplie_containers,
                containers_of(header.id),
            );
            lemma_matching_none(rows.baplie_containers, containers_of(header.id));
            assert(matching(tables.baplie_containers, containers_of(header.id)) + Seq::<
                BaplieContainerRow,
            >::empty() =~= matching(tables.baplie_containers, containers_of(header.id)));
        },
        Some(MessageKind::Coarri) => {
            let wanted = coarri_of(message.id);
            lemma_first_match_kept(tables.coarri_messages, rows.coarri_messages, wanted, 0);
            lemma_first_match_is_row(tables.coarri_messages, wanted, 0);
            let header = first_match(tables.coarri_messages, wanted, 0)->0;
            lemma_matching_joined(
                tables.coarri_movements,
                rows.coarri_movements,
                coarri_movements_of(header.id),
            );
            lemma_matching_none(rows.coarri_movements, coarri_movements_of(header.id));
            assert(matching(tables.coarri_movements, coarri_movements_of(header.id)) + Seq::<
                CoarriMovementRow,
            >::empty() =~= matching(tables.coarri_movements, coarri_movements_of(header.id)));
        },
        Some(MessageKind::Codeco) => {
            let wanted = codeco_of(message.id);
            lemma_first_match_kept(tables.codeco_messages, rows.codeco_messages, wanted, 0);
            lemma_first_match_is_row(tables.codeco_messages, wanted, 0);
            let header = first_match(tables.codeco_messages, wanted, 0)->0;
            lemma_matching_joined(
                tables.codeco_movements,
                rows.codeco_movements,
                codeco_movements_of(header.id),
            );
            lemma_matching_none(rows.codeco_movements, codeco_movements_of(header.id));
            assert(matching(tables.codeco_movements, codeco_movements_of(header.id)) + Seq::<
                CodecoMovementRow,
            >::empty() =~= matching(tables.codeco_movements, codeco_movements_of(header.id)));
        },
        None => {},
    }
}

/// Storing a message keeps the store whole: if every message stored before
/// was whole, then so is every message afterwards, the new one included.
/// No message is ever seen without its header or with a part of its
/// children.
pub proof fn lemma_ingest_keeps_whole(
    tables: TablesText,
    container_id: Seq<char>,
    message_type: Seq<char>,
    content: Seq<char>,
    created_at: Seq<char>,
)
    requires
        tables_wf(tables),
        all_whole(tables),
        is_message_type(message_type),
        has_room(tables, plan_of(container_id, message_type, content).parsed),
    ensures
        all_whole(ingested(tables, plan_of(container_id, message_type, content), created_at)),
{
    let plan = plan_of(container_id, message_type, content);
    let after = ingested(tables, plan, created_at);
    let envelope = new_envelope(tables, plan, created_at);
    assert forall|i: int| 0 <= i < after.edi_messages.len() implies whole(
        after,
        #[trigger] after.edi_messages[i],
    ) by {
        if i < tables.edi_messages.len() {
            assert(after.edi_messages[i] == tables.edi_messages[i]);
            lemma_old_parts_kept(tables, plan, created_at, tables.edi_messages[i]);
        } else {
            assert(after.edi_messages[i] == envelope);
            lemma_stored_is_read_back(tables, container_id, message_type, content, created_at);
            lemma_children_in_source_order(
                tables,
                container_id,
                message_type,
                content,
                created_at,
            );
            lemma_plan_kind(container_id, message_type, content);
        }
    }
}

} // verus!
