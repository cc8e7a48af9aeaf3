use tos_backend::models::edi::{CreateEdiMessage, ParsedBaplieData};
use tos_backend::routes::edi::{
    create_edi_message, fetch_baplie_with_containers, fetch_coarri_with_movements,
    fetch_codeco_with_movements, get_edi_messages, message_kind, plan_ingest, EdiError, Ingestion,
    MessageKind, ParsedMessage, Stage, StoreAction, StoreEvent,
};
use tos_backend::store::{MemoryStore, StorageError};

const BAPLIE: &str = "UNH+1+BAPLIE:D:95B:UN\nTDT+20+V123+1++CARRIER+++VESSEL_NAME:::5\nLOC+5+USNYC:139:6\nLOC+61+GBSOU:139:6\nEQD+CN+CONTAINER123+45G1:102\nLOC+147+010203:5\nMEA+AAE+VGM+KGM:15000\nUNT+7+1";
const COARRI: &str = "UNH+1+COARRI:D:95B:UN\nTDT+20+V123+1++CARRIER+++VESSEL_NAME:::5\nEQD+CN+CONTAINER123+45G1:102\nRFF+BM:LOAD123\nLOC+147+010203\nUNT+5+1";
const CODECO: &str = "UNH+1+CODECO:D:95B:UN\nLOC+9+GATE1:139:6\nEQD+CN+CONTAINER123+45G1:102\nTDT+3++1+++++ABC123:::5\nHAN+2\nUNT+5+1";
const THREE: &str = "EQD+CN+A+22G1\nLOC+147+01:02:03\nEQD+CN+B+45R1\nMEA+AAE++KGM:7.5\nEQD+CN+C\n";

fn message(message_type: &str, content: &str) -> CreateEdiMessage {
    CreateEdiMessage { message_type: message_type.to_string(), content: content.to_string() }
}

fn rows(store: &MemoryStore) -> Vec<usize> {
    let t = &store.tables;
    vec![
        t.edi_messages.len(),
        t.baplie_messages.len(),
        t.baplie_containers.len(),
        t.coarri_messages.len(),
        t.coarri_movements.len(),
        t.codeco_messages.len(),
        t.codeco_movements.len(),
    ]
}

#[test]
fn baplie_is_stored_and_read_back() {
    let mut store = MemoryStore::new();
    let response =
        create_edi_message(&mut store, "C1", &message("BAPLIE", BAPLIE), "2024-05-01 10:00:00")
            .unwrap();
    assert_eq!(response.id, 1);
    assert_eq!(response.message_type, "BAPLIE");
    assert_eq!(response.content, BAPLIE);
    assert_eq!(response.container_id, Some("C1".to_string()));
    assert_eq!(response.created_at, "2024-05-01 10:00:00");
    assert!(response.coarri_message.is_none());
    assert!(response.codeco_message.is_none());
    let part = response.baplie_message.unwrap();
    assert_eq!(part.id, 1);
    assert_eq!(part.edi_message_id, 1);
    assert_eq!(part.vessel_name, Some("VESSEL_NAME".to_string()));
    assert_eq!(part.voyage_number, Some("V123".to_string()));
    assert_eq!(part.port_of_loading, Some("USNYC".to_string()));
    assert_eq!(part.port_of_discharge, Some("GBSOU".to_string()));
    assert_eq!(part.containers.len(), 1);
    assert_eq!(part.containers[0].id, 1);
    assert_eq!(part.containers[0].baplie_message_id, 1);
    assert_eq!(part.containers[0].container_id, "CONTAINER123");
    assert_eq!(part.containers[0].weight, Some("15000".to_string()));
    assert_eq!(rows(&store), vec![1, 1, 1, 0, 0, 0, 0]);
}

#[test]
fn coarri_and_codeco_are_stored_under_their_own_type() {
    let mut store = MemoryStore::new();
    let a = create_edi_message(&mut store, "C1", &message("COARRI", COARRI), "t1").unwrap();
    assert_eq!(rows(&store), vec![1, 0, 0, 1, 1, 0, 0]);
    let b = create_edi_message(&mut store, "C1", &message("CODECO", CODECO), "t2").unwrap();
    assert_eq!(rows(&store), vec![2, 0, 0, 1, 1, 1, 1]);
    assert!(a.baplie_message.is_none() && a.codeco_message.is_none());
    let movements = a.coarri_message.unwrap().movements;
    assert_eq!(movements[0].movement_type, Some("LOAD".to_string()));
    assert_eq!(movements[0].stowage_location, Some("010203".to_string()));
    assert_eq!(b.id, 2);
    assert!(b.baplie_message.is_none() && b.coarri_message.is_none());
    let codeco = b.codeco_message.unwrap();
    assert_eq!(codeco.edi_message_id, 2);
    assert_eq!(codeco.gate, Some("GATE1".to_string()));
    assert_eq!(codeco.movements[0].movement_type, Some("IN".to_string()));
    assert_eq!(codeco.movements[0].truck_license_plate, Some("ABC123".to_string()));
}

#[test]
fn a_baplie_text_read_as_coarri_makes_no_baplie_rows() {
    let mut store = MemoryStore::new();
    let r = create_edi_message(&mut store, "C1", &message("COARRI", BAPLIE), "t").unwrap();
    assert_eq!(rows(&store), vec![1, 0, 0, 1, 1, 0, 0]);
    assert!(r.baplie_message.is_none());
    assert_eq!(r.coarri_message.unwrap().movements[0].container_id, "CONTAINER123");
}

#[test]
fn unknown_message_type_is_rejected_and_nothing_written() {
    let mut store = MemoryStore::new();
    create_edi_message(&mut store, "C1", &message("BAPLIE", BAPLIE), "t").unwrap();
    let before = rows(&store);
    let result = create_edi_message(&mut store, "C1", &message("IFTMIN", BAPLIE), "t");
    match result {
        Err(EdiError::Validation(errors)) => {
            assert_eq!(errors.errors.len(), 1);
            assert_eq!(errors.errors[0].field, "message_type");
            assert_eq!(errors.errors[0].code, "invalid_message_type");
        }
        _ => panic!("a validation error was expected"),
    }
    assert_eq!(rows(&store), before);
    let result = create_edi_message(&mut store, "C1", &message("baplie", ""), "t");
    match result {
        Err(EdiError::Validation(errors)) => {
            assert_eq!(errors.errors.len(), 2);
            assert_eq!(errors.errors[0].field, "message_type");
            assert_eq!(errors.errors[1].field, "content");
            assert_eq!(errors.errors[1].code, "length");
        }
        _ => panic!("a validation error was expected"),
    }
    assert_eq!(rows(&store), before);
}

#[test]
fn failure_during_child_insert_leaves_no_rows() {
    let mut store = MemoryStore::new();
    // begin, message row, header, first child succeed; the second child fails
    store.fail_after(4);
    let result = create_edi_message(&mut store, "C1", &message("BAPLIE", THREE), "t");
    assert!(matches!(result, Err(EdiError::Storage(StorageError::Fault))));
    assert_eq!(rows(&store), vec![0, 0, 0, 0, 0, 0, 0]);
    assert!(get_edi_messages(&store, "C1").is_empty());
    store.never_fail();
    let stored = create_edi_message(&mut store, "C1", &message("BAPLIE", THREE), "t").unwrap();
    assert_eq!(stored.id, 1);
    assert_eq!(rows(&store), vec![1, 1, 3, 0, 0, 0, 0]);
}

#[test]
fn a_failure_at_any_operation_stores_nothing() {
    // three children: begin, message row, header, three children, commit
    for operations in 0..7 {
        let mut store = MemoryStore::new();
        create_edi_message(&mut store, "C0", &message("CODECO", CODECO), "t").unwrap();
        let before = rows(&store);
        store.fail_after(operations);
        let result = create_edi_message(&mut store, "C1", &message("COARRI", THREE), "t");
        assert!(matches!(result, Err(EdiError::Storage(StorageError::Fault))));
        assert_eq!(rows(&store), before);
    }
    let mut store = MemoryStore::new();
    store.fail_after(7);
    assert!(create_edi_message(&mut store, "C1", &message("COARRI", THREE), "t").is_ok());
    assert_eq!(rows(&store), vec![1, 0, 0, 1, 3, 0, 0]);
}

#[test]
fn children_are_read_back_in_source_order() {
    let mut store = MemoryStore::new();
    create_edi_message(&mut store, "C9", &message("BAPLIE", "EQD+CN+Z\nEQD+CN+Y\n"), "t").unwrap();
    create_edi_message(&mut store, "C1", &message("BAPLIE", THREE), "t").unwrap();
    let listed = get_edi_messages(&store, "C1");
    assert_eq!(listed.len(), 1);
    assert_eq!(listed[0].id, 2);
    let part = listed[0].baplie_message.as_ref().unwrap();
    assert_eq!(part.id, 2);
    let ids: Vec<&str> = part.containers.iter().map(|c| c.container_id.as_str()).collect();
    assert_eq!(ids, vec!["A", "B", "C"]);
    let row_ids: Vec<i64> = part.containers.iter().map(|c| c.id).collect();
    assert_eq!(row_ids, vec![3, 4, 5]);
    assert_eq!(part.containers[0].bay, Some("01".to_string()));
    assert_eq!(part.containers[1].weight, Some("7.5".to_string()));
    assert_eq!(part.containers[2].size, None);
}

#[test]
fn content_is_kept_character_for_character() {
    let content = "EQD+CN+A\r\n\r\n  FTX+x++caf\u{e9} \u{1F6A2}\n\n";
    let mut store = MemoryStore::new();
    let r = create_edi_message(&mut store, "S 1", &message("CODECO", content), "t").unwrap();
    assert_eq!(r.content, content);
    assert_eq!(store.tables.edi_messages[0].content, content);
    assert_eq!(get_edi_messages(&store, "S 1")[0].content, content);
}

#[test]
fn the_same_message_twice_is_stored_twice() {
    let mut store = MemoryStore::new();
    create_edi_message(&mut store, "C1", &message("COARRI", COARRI), "t1").unwrap();
    create_edi_message(&mut store, "C1", &message("COARRI", COARRI), "t2").unwrap();
    let listed = get_edi_messages(&store, "C1");
    assert_eq!(listed.len(), 2);
    assert_eq!(listed[0].id, 1);
    assert_eq!(listed[1].id, 2);
    assert_eq!(listed[1].coarri_message.as_ref().unwrap().id, 2);
    assert_eq!(listed[1].coarri_message.as_ref().unwrap().movements[0].coarri_message_id, 2);
}

#[test]
fn listing_is_by_container() {
    let mut store = MemoryStore::new();
    assert!(get_edi_messages(&store, "C1").is_empty());
    create_edi_message(&mut store, "C1", &message("BAPLIE", BAPLIE), "t").unwrap();
    create_edi_message(&mut store, "C2", &message("CODECO", CODECO), "t").unwrap();
    create_edi_message(&mut store, "C1", &message("COARRI", COARRI), "t").unwrap();
    let first = get_edi_messages(&store, "C1");
    assert_eq!(first.len(), 2);
    assert!(first[0].baplie_message.is_some() && first[0].coarri_message.is_none());
    assert!(first[1].coarri_message.is_some() && first[1].baplie_message.is_none());
    let second = get_edi_messages(&store, "C2");
    assert_eq!(second.len(), 1);
    assert!(second[0].codeco_message.is_some());
    assert!(get_edi_messages(&store, "c1").is_empty());
}

#[test]
fn a_missing_header_reads_as_no_part() {
    let mut store = MemoryStore::new();
    create_edi_message(&mut store, "C1", &message("BAPLIE", BAPLIE), "t").unwrap();
    assert!(fetch_baplie_with_containers(&store, 1).is_some());
    assert!(fetch_baplie_with_containers(&store, 2).is_none());
    assert!(fetch_coarri_with_movements(&store, 1).is_none());
    assert!(fetch_codeco_with_movements(&store, 1).is_none());
}

#[test]
fn message_kinds() {
    assert_eq!(message_kind("BAPLIE"), Some(MessageKind::Baplie));
    assert_eq!(message_kind("COARRI"), Some(MessageKind::Coarri));
    assert_eq!(message_kind("CODECO"), Some(MessageKind::Codeco));
    assert_eq!(message_kind("Codeco"), None);
    assert_eq!(message_kind(""), None);
}

#[test]
fn plan_parses_by_type() {
    let plan = plan_ingest("C1", &message("CODECO", CODECO)).unwrap();
    assert_eq!(plan.container_id, "C1");
    assert_eq!(plan.content, CODECO);
    assert_eq!(plan.message_type, "CODECO");
    match plan.parsed {
        ParsedMessage::Codeco(d) => assert_eq!(d.movements.len(), 1),
        _ => panic!("a CODECO content was expected"),
    }
    assert!(matches!(plan_ingest("C1", &message("X", "y")), Err(EdiError::Validation(_))));
}

#[test]
fn ingestion_asks_for_rows_in_order() {
    let plan = plan_ingest("C1", &message("BAPLIE", THREE)).unwrap();
    let mut ingestion = Ingestion::new(plan);
    assert_eq!(ingestion.action(), StoreAction::Begin);
    assert!(!ingestion.finished());
    assert_eq!(ingestion.advance(StoreEvent::Opened), StoreAction::InsertEnvelope);
    assert_eq!(
        ingestion.advance(StoreEvent::Inserted(40)),
        StoreAction::InsertParent { envelope_id: 40 }
    );
    assert_eq!(
        ingestion.advance(StoreEvent::Inserted(7)),
        StoreAction::InsertChild { parent_id: 7, index: 0 }
    );
    assert_eq!(
        ingestion.advance(StoreEvent::Inserted(100)),
        StoreAction::InsertChild { parent_id: 7, index: 1 }
    );
    assert_eq!(
        ingestion.advance(StoreEvent::Inserted(101)),
        StoreAction::InsertChild { parent_id: 7, index: 2 }
    );
    assert_eq!(ingestion.advance(StoreEvent::Inserted(102)), StoreAction::Commit);
    assert!(!ingestion.finished());
    assert_eq!(ingestion.advance(StoreEvent::Committed), StoreAction::Respond { envelope_id: 40 });
    assert!(ingestion.finished());
    assert_eq!(ingestion.stage, Stage::Done { envelope_id: 40 });
    assert_eq!(ingestion.advance(StoreEvent::Failed), StoreAction::Respond { envelope_id: 40 });
}

#[test]
fn ingestion_without_children_commits_after_header() {
    let plan = plan_ingest("C1", &message("COARRI", "UNH+1\n")).unwrap();
    let mut ingestion = Ingestion::new(plan);
    ingestion.advance(StoreEvent::Opened);
    ingestion.advance(StoreEvent::Inserted(1));
    assert_eq!(ingestion.advance(StoreEvent::Inserted(1)), StoreAction::Commit);
}

#[test]
fn ingestion_aborts_on_failure_and_stays_aborted() {
    let plan = plan_ingest("C1", &message("BAPLIE", THREE)).unwrap();
    let mut ingestion = Ingestion::new(plan.clone());
    assert_eq!(ingestion.advance(StoreEvent::Failed), StoreAction::Abort);
    assert!(ingestion.finished());
    let mut ingestion = Ingestion::new(plan.clone());
    ingestion.advance(StoreEvent::Opened);
    ingestion.advance(StoreEvent::Inserted(1));
    ingestion.advance(StoreEvent::Inserted(1));
    assert_eq!(ingestion.advance(StoreEvent::Failed), StoreAction::Abort);
    assert_eq!(ingestion.advance(StoreEvent::Inserted(5)), StoreAction::Abort);
    assert_eq!(ingestion.advance(StoreEvent::Committed), StoreAction::Abort);
    assert_eq!(ingestion.stage, Stage::Failed);
    // a report that does not answer the action asked for
    let mut ingestion = Ingestion::new(plan);
    assert_eq!(ingestion.advance(StoreEvent::Committed), StoreAction::Abort);
}

#[test]
fn transaction_rows_reach_the_store_only_on_commit() {
    let mut store = MemoryStore::new();
    let mut tx = store.begin().unwrap();
    assert_eq!(tx.insert_envelope("BAPLIE", "EQD", "C1", "t"), Ok(1));
    let data = ParsedBaplieData {
        vessel_name: Some("V".to_string()),
        voyage_number: None,
        port_of_loading: None,
        port_of_discharge: None,
        containers: Vec::new(),
    };
    assert_eq!(tx.insert_baplie_parent(1, &data), Ok(1));
    assert_eq!(tx.insert_baplie_parent(2, &data), Err(StorageError::ForeignKey));
    assert_eq!(tx.insert_baplie_parent(0, &data), Err(StorageError::ForeignKey));
    assert_eq!(rows(&store), vec![0, 0, 0, 0, 0, 0, 0]);
    assert_eq!(store.commit(tx), Ok(()));
    assert_eq!(rows(&store), vec![1, 1, 0, 0, 0, 0, 0]);
    assert_eq!(store.tables.baplie_messages[0].vessel_name, Some("V".to_string()));
}

#[test]
fn a_dropped_transaction_leaves_nothing() {
    let mut store = MemoryStore::new();
    {
        let mut tx = store.begin().unwrap();
        tx.insert_envelope("COARRI", "x", "C1", "t").unwrap();
    }
    assert_eq!(rows(&store), vec![0, 0, 0, 0, 0, 0, 0]);
    let mut tx = store.begin().unwrap();
    assert_eq!(tx.insert_envelope("COARRI", "x", "C1", "t"), Ok(1));
    store.commit(tx).unwrap();
    assert_eq!(store.tables.edi_messages[0].id, 1);
}

#[test]
fn a_transaction_on_a_changed_store_is_refused() {
    let mut store = MemoryStore::new();
    let mut first = store.begin().unwrap();
    let mut second = store.begin().unwrap();
    first.insert_envelope("COARRI", "a", "C1", "t").unwrap();
    second.insert_envelope("COARRI", "b", "C1", "t").unwrap();
    assert_eq!(store.commit(first), Ok(()));
    assert_eq!(store.commit(second), Err(StorageError::Conflict));
    assert_eq!(rows(&store), vec![1, 0, 0, 0, 0, 0, 0]);
    assert_eq!(store.tables.edi_messages[0].content, "a");
}

#[test]
fn a_store_told_to_fail_at_once_opens_no_transaction() {
    let mut store = MemoryStore::new();
    store.fail_after(0);
    assert!(matches!(store.begin(), Err(StorageError::Fault)));
    store.fail_after(1);
    let mut tx = store.begin().unwrap();
    assert_eq!(tx.insert_envelope("COARRI", "a", "C1", "t"), Err(StorageError::Fault));
    assert_eq!(store.commit(tx), Err(StorageError::Fault));
}

#[test]
fn a_full_table_gives_no_more_ids() {
    let store = MemoryStore::new();
    let mut tx = store.begin().unwrap();
    tx.base.edi_messages = i64::MAX as usize - 1;
    assert_eq!(tx.insert_envelope("COARRI", "a", "C1", "t"), Ok(i64::MAX));
    assert_eq!(tx.insert_envelope("COARRI", "b", "C1", "t"), Err(StorageError::Exhausted));
    assert_eq!(tx.staged.edi_messages.len(), 1);
}
