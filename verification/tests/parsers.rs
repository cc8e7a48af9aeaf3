use tos_backend::services::edi::baplie_parser::BaplieParser;
use tos_backend::services::edi::tokenizer::Segment;
use tos_backend::services::edi::{parse_baplie, parse_coarri, parse_codeco};

fn text(value: &str) -> Option<String> {
    Some(value.to_string())
}

#[test]
fn test_parse_baplie() {
    let sample = r#"UNH+1+BAPLIE:D:95B:UN
TDT+20+V123+1++CARRIER+++VESSEL_NAME:::5
LOC+5+USNYC:139:6
LOC+61+GBSOU:139:6
EQD+CN+CONTAINER123+45G1:102
LOC+147+010203:5
MEA+AAE+VGM+KGM:15000
UNT+7+1"#;

    let result = parse_baplie(sample);
    assert!(result.is_ok());
    let data = result.unwrap();
    assert_eq!(data.vessel_name, Some("VESSEL_NAME".to_string()));
    assert_eq!(data.voyage_number, Some("V123".to_string()));
    assert_eq!(data.containers.len(), 1);
}

#[test]
fn test_parse_coarri() {
    let sample = r#"UNH+1+COARRI:D:95B:UN
TDT+20+V123+1++CARRIER+++VESSEL_NAME:::5
EQD+CN+CONTAINER123+45G1:102
RFF+BM:LOAD123
LOC+147+010203
UNT+5+1"#;

    let result = parse_coarri(sample);
    assert!(result.is_ok());
    let data = result.unwrap();
    assert_eq!(data.vessel_name, Some("VESSEL_NAME".to_string()));
    assert_eq!(data.movements.len(), 1);
}

#[test]
fn test_parse_codeco() {
    let sample = r#"UNH+1+CODECO:D:95B:UN
LOC+9+GATE1:139:6
EQD+CN+CONTAINER123+45G1:102
TDT+3++1+++++ABC123:::5
HAN+2
UNT+5+1"#;

    let result = parse_codeco(sample);
    assert!(result.is_ok());
    let data = result.unwrap();
    assert_eq!(data.gate, Some("GATE1".to_string()));
    assert_eq!(data.movements.len(), 1);
}

#[test]
fn baplie_single_container_fields() {
    let sample = "UNH+1+BAPLIE:D:95B:UN\nTDT+20+V123+1++CARRIER+++VESSEL_NAME:::5\nLOC+5+USNYC:139:6\nLOC+61+GBSOU:139:6\nEQD+CN+CONTAINER123+45G1:102\nLOC+147+010203:5\nMEA+AAE+VGM+KGM:15000\nUNT+7+1\n";
    let data = parse_baplie(sample).unwrap();
    assert_eq!(data.vessel_name, text("VESSEL_NAME"));
    assert_eq!(data.voyage_number, text("V123"));
    assert_eq!(data.port_of_loading, text("USNYC"));
    assert_eq!(data.port_of_discharge, text("GBSOU"));
    assert_eq!(data.containers.len(), 1);
    let c = &data.containers[0];
    assert_eq!(c.container_id, "CONTAINER123");
    assert_eq!(c.size, text("45"));
    assert_eq!(c.container_type, text("45G1"));
    assert_eq!(c.weight, text("15000"));
    let weight: f64 = c.weight.as_ref().unwrap().parse().unwrap();
    assert_eq!(weight, 15000.0);
    assert_eq!(c.bay, None);
    assert_eq!(c.row, None);
    assert_eq!(c.tier, None);
}

#[test]
fn coarri_load_movement_fields() {
    let sample = "UNH+1+COARRI:D:95B:UN\nTDT+20+V123+1++CARRIER+++VESSEL_NAME:::5\nEQD+CN+CONTAINER123+45G1:102\nRFF+BM:LOAD123\nLOC+147+010203\nUNT+5+1";
    let data = parse_coarri(sample).unwrap();
    assert_eq!(data.voyage_number, text("V123"));
    assert_eq!(data.movements.len(), 1);
    let m = &data.movements[0];
    assert_eq!(m.container_id, "CONTAINER123");
    assert_eq!(m.movement_type, text("LOAD"));
    assert_eq!(m.stowage_location, text("010203"));
    assert_eq!(m.iso_container_type, text("45G1"));
}

#[test]
fn codeco_gate_in_fields() {
    let sample = "UNH+1+CODECO:D:95B:UN\nLOC+9+GATE1:139:6\nEQD+CN+CONTAINER123+45G1:102\nTDT+3++1+++++ABC123:::5\nHAN+2\nUNT+5+1";
    let data = parse_codeco(sample).unwrap();
    assert_eq!(data.gate, text("GATE1"));
    assert_eq!(data.movements.len(), 1);
    let m = &data.movements[0];
    assert_eq!(m.container_id, "CONTAINER123");
    assert_eq!(m.movement_type, text("IN"));
    assert_eq!(m.truck_license_plate, text("ABC123"));
    assert_eq!(m.iso_container_type, text("45G1"));
}

#[test]
fn baplie_two_containers_weight_on_first() {
    let sample = "EQD+CN+AAAU1111111+22G1\nMEA+AAE+G+KGM:1200.5\nEQD+CN+BBBU2222222+45R1\n";
    let data = parse_baplie(sample).unwrap();
    assert_eq!(data.containers.len(), 2);
    assert_eq!(data.containers[0].container_id, "AAAU1111111");
    assert_eq!(data.containers[0].weight, text("1200.5"));
    assert_eq!(data.containers[0].size, text("22"));
    assert_eq!(data.containers[1].container_id, "BBBU2222222");
    assert_eq!(data.containers[1].weight, None);
    assert_eq!(data.containers[1].container_type, text("45R1"));
}

#[test]
fn baplie_second_stowage_cell_overrides_first() {
    let sample = "EQD+CN+C1+22G1\nLOC+147+01:02:03\nLOC+147+11:12:13:x\nEQD+CN+C2+22G1\n";
    let data = parse_baplie(sample).unwrap();
    assert_eq!(data.containers.len(), 2);
    assert_eq!(data.containers[0].bay, text("11"));
    assert_eq!(data.containers[0].row, text("12"));
    assert_eq!(data.containers[0].tier, text("13"));
    assert_eq!(data.containers[1].bay, None);
}

#[test]
fn baplie_ports_keep_value_on_empty_field() {
    let data = parse_baplie("LOC+5+NLRTM\nLOC+5+\nLOC+7+DEHAM:139\nLOC+61+\n").unwrap();
    assert_eq!(data.port_of_loading, text("NLRTM"));
    assert_eq!(data.port_of_discharge, text("DEHAM"));
    assert_eq!(data.containers.len(), 0);
}

#[test]
fn baplie_unreadable_weight_is_ignored() {
    let data = parse_baplie("EQD+CN+C1\nMEA+VGM++KGM:12.5\nMEA+AAE++KGM:heavy\nMEA+XX++KGM:5\nMEA+AAE++\n").unwrap();
    assert_eq!(data.containers.len(), 1);
    assert_eq!(data.containers[0].weight, text("12.5"));
    assert_eq!(data.containers[0].size, None);
}

#[test]
fn baplie_weight_is_never_negative_or_special() {
    let data = parse_baplie("EQD+CN+C1\nMEA+AAE++-5\nEQD+CN+C2\nMEA+AAE++KGM:nan\nEQD+CN+C3\nMEA+VGM++inf\nEQD+CN+C4\nMEA+VGM++KGM:1e3\nEQD+CN+C5\nMEA+VGM++KGM:7\nMEA+VGM++KGM:-7\nEQD+CN+C6\nMEA+AAE++KGM:8.25\n").unwrap();
    assert_eq!(data.containers.len(), 6);
    assert_eq!(data.containers[0].weight, None);
    assert_eq!(data.containers[1].weight, None);
    assert_eq!(data.containers[2].weight, None);
    assert_eq!(data.containers[3].weight, None);
    assert_eq!(data.containers[4].weight, text("7"));
    assert_eq!(data.containers[5].weight, text("8.25"));
    for c in &data.containers {
        if let Some(w) = &c.weight {
            let number: f64 = w.parse().unwrap();
            assert!(number.is_finite() && number >= 0.0);
        }
    }
}

#[test]
fn children_equal_eqd_segments_with_container_id() {
    let content = "EQD+CN+A\nEQD+CN+\nEQD\nEQD+CN+B+22G1\nZZZ+1\nEQD+CN+C\n\nEQD+CN\n";
    assert_eq!(parse_baplie(content).unwrap().containers.len(), 3);
    assert_eq!(parse_coarri(content).unwrap().movements.len(), 3);
    assert_eq!(parse_codeco(content).unwrap().movements.len(), 3);
    let ids: Vec<String> =
        parse_coarri(content).unwrap().movements.into_iter().map(|m| m.container_id).collect();
    assert_eq!(ids, vec!["A".to_string(), "B".to_string(), "C".to_string()]);
}

#[test]
fn codeco_first_gate_wins() {
    let data = parse_codeco("LOC+11+NORTH:1\nLOC+9+SOUTH\nLOC+9+EAST\n").unwrap();
    assert_eq!(data.gate, text("NORTH"));
    let data = parse_codeco("LOC+5+PORT\nLOC+9+SOUTH\nLOC+11+EAST\n").unwrap();
    assert_eq!(data.gate, text("SOUTH"));
}

#[test]
fn coarri_movement_detection_ignores_case() {
    let data = parse_coarri("EQD+CN+A\nRFF+BM:load7\nEQD+CN+B\nRFF+ABO:Discharged\nEQD+CN+C\nFTX+AAI++please shift\nEQD+CN+D\nRFF+ZZ:LOAD\n").unwrap();
    assert_eq!(data.movements.len(), 4);
    assert_eq!(data.movements[0].movement_type, text("LOAD"));
    assert_eq!(data.movements[1].movement_type, text("DISCHARGE"));
    assert_eq!(data.movements[2].movement_type, text("SHIFT"));
    assert_eq!(data.movements[3].movement_type, None);
}

#[test]
fn coarri_free_text_does_not_override_reference() {
    let data = parse_coarri("EQD+CN+A\nRFF+BM:SHIFT1\nFTX+AAI++LOAD\nRFF+BM:DISCH\nLOC+7+0102:x\n").unwrap();
    assert_eq!(data.movements[0].movement_type, text("DISCHARGE"));
    assert_eq!(data.movements[0].stowage_location, text("0102"));
}

#[test]
fn codeco_movement_detection_ignores_case() {
    let data = parse_codeco("EQD+CN+A\nFTX+AAI++Gate-In at 5\nEQD+CN+B\nFTX+AAI++gate out\nEQD+CN+C\nFTX+AAI++GATEIN\nEQD+CN+D\nHAN+6:x\nFTX+AAI++GATE IN\n").unwrap();
    assert_eq!(data.movements[0].movement_type, text("IN"));
    assert_eq!(data.movements[1].movement_type, text("OUT"));
    assert_eq!(data.movements[2].movement_type, None);
    assert_eq!(data.movements[3].movement_type, text("OUT"));
}

#[test]
fn codeco_plate_from_reference_only_when_unset() {
    let data = parse_codeco("EQD+CN+A\nRFF+CN:PLATE1\nRFF+TN:PLATE2\nEQD+CN+B\nTDT+1++1+++++TRUCK9\nRFF+CN:OTHER\nEQD+CN+C\nTDT+2++1+++++SHIP\n").unwrap();
    assert_eq!(data.movements[0].truck_license_plate, text("PLATE1"));
    assert_eq!(data.movements[1].truck_license_plate, text("TRUCK9"));
    assert_eq!(data.movements[2].truck_license_plate, None);
}

#[test]
fn carriage_returns_end_lines() {
    let data = parse_coarri("TDT+20+V9+1++C+++SHIP\r\nEQD+CN+A+22G1\r\nLOC+147+0101\r\n").unwrap();
    assert_eq!(data.vessel_name, text("SHIP"));
    assert_eq!(data.movements[0].iso_container_type, text("22G1"));
    assert_eq!(data.movements[0].stowage_location, text("0101"));
}

#[test]
fn empty_text_parses_to_nothing() {
    let b = parse_baplie("").unwrap();
    assert!(b.vessel_name.is_none() && b.containers.is_empty());
    let c = parse_coarri("").unwrap();
    assert!(c.voyage_number.is_none() && c.movements.is_empty());
    let d = parse_codeco("\n\n").unwrap();
    assert!(d.gate.is_none() && d.movements.is_empty());
}

#[test]
fn an_eqd_opens_a_fresh_slot() {
    let data = parse_baplie("LOC+147+1:2:3\nMEA+VGM++KGM:9\nEQD+CN+A\nEQD+CN+B\n").unwrap();
    assert_eq!(data.containers.len(), 2);
    assert_eq!(data.containers[0].bay, None);
    assert_eq!(data.containers[0].row, None);
    assert_eq!(data.containers[0].tier, None);
    assert_eq!(data.containers[0].weight, None);
    assert_eq!(data.containers[1].bay, None);
    assert_eq!(data.containers[1].weight, None);
    let data = parse_baplie("EQD+CN++45G1\nLOC+147+1:2:3\nEQD+CN+A\n").unwrap();
    assert_eq!(data.containers.len(), 1);
    assert_eq!(data.containers[0].size, None);
    assert_eq!(data.containers[0].container_type, None);
    assert_eq!(data.containers[0].bay, None);
    let data = parse_coarri("RFF+BM:LOAD\nLOC+147+0101\nEQD+CN+A\nEQD+CN++22G1\nRFF+BM:SHIFT\nEQD+CN+B\n").unwrap();
    assert_eq!(data.movements.len(), 2);
    assert_eq!(data.movements[0].movement_type, None);
    assert_eq!(data.movements[0].stowage_location, None);
    assert_eq!(data.movements[1].movement_type, None);
    assert_eq!(data.movements[1].iso_container_type, None);
    let data = parse_codeco("HAN+2\nTDT+1++1+++++PLATE\nEQD+CN+A\nEQD+CN++22G1\nHAN+3\nEQD+CN+B+45G1\n").unwrap();
    assert_eq!(data.movements.len(), 2);
    assert_eq!(data.movements[0].movement_type, None);
    assert_eq!(data.movements[0].truck_license_plate, None);
    assert_eq!(data.movements[1].movement_type, None);
    assert_eq!(data.movements[1].iso_container_type, text("45G1"));
}

#[test]
fn size_is_the_first_two_characters_of_the_code() {
    let data = parse_baplie("EQD+CN+A+\u{e9}5G1:102\nEQD+CN+B+4\nEQD+CN+C+22\nEQD+CN+D+:45G1\n").unwrap();
    assert_eq!(data.containers[0].size, text("\u{e9}5"));
    assert_eq!(data.containers[0].container_type, text("\u{e9}5G1"));
    assert_eq!(data.containers[1].size, None);
    assert_eq!(data.containers[1].container_type, None);
    assert_eq!(data.containers[2].size, text("22"));
    assert_eq!(data.containers[2].container_type, text("22"));
    assert_eq!(data.containers[3].size, None);
}

#[test]
fn header_fields_keep_the_last_value_that_is_not_empty() {
    let data = parse_coarri("TDT+20+V1+1++C+++FIRST\nTDT+20++1++C+++\nTDT+20+V2+1++C+++:x\nTDT+20+V3\n").unwrap();
    assert_eq!(data.voyage_number, text("V2"));
    assert_eq!(data.vessel_name, text(""));
    let data = parse_baplie("TDT+20+V1+1++C+++FIRST:::5\nTDT+20++1++C+++\n").unwrap();
    assert_eq!(data.voyage_number, text("V1"));
    assert_eq!(data.vessel_name, text("FIRST"));
}

#[test]
fn codeco_handling_codes() {
    let data = parse_codeco("EQD+CN+A\nHAN+5\nEQD+CN+B\nHAN+3:x\nEQD+CN+C\nHAN+6\nHAN+9\nEQD+CN+D\nHAN+22\nEQD+CN+E\nHAN+2\nHAN+3\n").unwrap();
    assert_eq!(data.movements[0].movement_type, text("IN"));
    assert_eq!(data.movements[1].movement_type, text("OUT"));
    assert_eq!(data.movements[2].movement_type, text("OUT"));
    assert_eq!(data.movements[3].movement_type, None);
    assert_eq!(data.movements[4].movement_type, text("OUT"));
}

#[test]
fn coarri_load_is_found_before_discharge_and_shift() {
    let data = parse_coarri("EQD+CN+A\nRFF+BM:SHIFT-DISCH-LOAD\nEQD+CN+B\nRFF+BM:SHIFT-DISCH\nEQD+CN+C\nRFF+BM\nRFF+BM:\n").unwrap();
    assert_eq!(data.movements[0].movement_type, text("LOAD"));
    assert_eq!(data.movements[1].movement_type, text("DISCHARGE"));
    assert_eq!(data.movements[2].movement_type, None);
}

fn segment(fields: &[&str]) -> Segment {
    Segment { fields: fields.iter().map(|f| f.chars().collect()).collect() }
}

#[test]
fn a_fed_weight_may_carry_a_plus_sign_but_no_minus_sign() {
    let mut parser = BaplieParser::new();
    parser.feed(&segment(&["EQD", "CN", "A"]));
    parser.feed(&segment(&["MEA", "AAE", "", "KGM:+8.25"]));
    parser.feed(&segment(&["MEA", "AAE", "", "KGM:-9"]));
    parser.feed(&segment(&["EQD", "CN", "B"]));
    parser.feed(&segment(&["MEA", "VGM", "", "-0"]));
    let data = parser.finish();
    assert_eq!(data.containers.len(), 2);
    assert_eq!(data.containers[0].weight, text("+8.25"));
    assert_eq!(data.containers[1].weight, None);
}
