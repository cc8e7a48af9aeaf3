//! Records of the EDIFACT message store and of the parsers' output.

use crate::validation::{
    custom_errors, invalid, length_errors, same_text, Checks, FieldErrorText, ValidationErrors,
};
use crate::text::clone_text;
use vstd::prelude::*;

verus! {

/// A stored message: the raw text as it came, under the container it was
/// sent for.
#[derive(Debug, Clone)]
pub struct EdiMessage {
    pub id: i64,
    pub message_type: String,
    pub content: String,
    pub container_id: Option<String>,
    pub created_at: String,
}

/// The text of an `EdiMessage`.
pub struct EdiMessageText {
    pub id: i64,
    pub message_type: Seq<char>,
    pub content: Seq<char>,
    pub container_id: Option<Seq<char>>,
    pub created_at: Seq<char>,
}

impl View for EdiMessage {
    type V = EdiMessageText;

    open spec fn view(&self) -> EdiMessageText {
        EdiMessageText {
            id: self.id,
            message_type: self.message_type@,
            content: self.content@,
            container_id: self.container_id.deep_view(),
            created_at: self.created_at@,
        }
    }
}

/// A message to be stored.
#[derive(Debug, Clone)]
pub struct CreateEdiMessage {
    pub message_type: String,
    pub content: String,
}

/// The three message types that are accepted.
pub open spec fn is_message_type(message_type: Seq<char>) -> bool {
    message_type == "BAPLIE"@ || message_type == "COARRI"@ || message_type == "CODECO"@
}

/// Accepts exactly the three message types.
pub fn validate_message_type(message_type: &str) -> (result: Result<
    (),
    validator::ValidationError,
>)
    ensures
        result is Ok <==> is_message_type(message_type@),
{
    if same_text(message_type, "BAPLIE") || same_text(message_type, "COARRI") || same_text(
        message_type,
        "CODECO",
    ) {
        Ok(())
    } else {
        Err(invalid("invalid_message_type"))
    }
}

impl CreateEdiMessage {
    /// The failed checks of this record: the type must be one of the three
    /// accepted, the content needs a character.
    pub open spec fn errors(&self) -> Seq<FieldErrorText> {
        custom_errors(
            "message_type"@,
            is_message_type(self.message_type@),
            "invalid_message_type"@,
        ) + length_errors("content"@, self.content@)
    }

    /// Whether the record passes every check.
    pub open spec fn valid(&self) -> bool {
        is_message_type(self.message_type@) && self.content@.len() >= 1
    }

    /// Checks the record; an error lists every field that failed.
    pub fn validate(&self) -> (result: Result<(), ValidationErrors>)
        ensures
            result is Ok <==> self.valid(),
            result is Err ==> result->Err_0@ == self.errors(),
    {
        let mut checks = Checks::new();
        checks.custom(
            "message_type",
            validate_message_type(self.message_type.as_str()),
            "invalid_message_type",
        );
        checks.length("content", self.content.as_str());
        checks.finish()
    }
}

/// The stored header of a BAPLIE message.
#[derive(Debug, Clone)]
pub struct BaplieMessage {
    pub id: i64,
    pub edi_message_id: i64,
    pub vessel_name: Option<String>,
    pub voyage_number: Option<String>,
    pub port_of_loading: Option<String>,
    pub port_of_discharge: Option<String>,
}

/// The text of a `BaplieMessage`.
pub struct BaplieMessageText {
    pub id: i64,
    pub edi_message_id: i64,
    pub vessel_name: Option<Seq<char>>,
    pub voyage_number: Option<Seq<char>>,
    pub port_of_loading: Option<Seq<char>>,
    pub port_of_discharge: Option<Seq<char>>,
}

impl View for BaplieMessage {
    type V = BaplieMessageText;

    open spec fn view(&self) -> BaplieMessageText {
        BaplieMessageText {
            id: self.id,
            edi_message_id: self.edi_message_id,
            vessel_name: self.vessel_name.deep_view(),
            voyage_number: self.voyage_number.deep_view(),
            port_of_loading: self.port_of_loading.deep_view(),
            port_of_discharge: self.port_of_discharge.deep_view(),
        }
    }
}

/// A stored container of a BAPLIE message. The weight is held as the
/// message writes it: a non-negative decimal number in digits.
#[derive(Debug, Clone)]
pub struct BaplieContainer {
    pub id: i64,
    pub baplie_message_id: i64,
    pub container_id: String,
    pub bay: Option<String>,
    pub row: Option<String>,
    pub tier: Option<String>,
    pub size: Option<String>,
    pub container_type: Option<String>,
    pub weight: Option<String>,
}

/// The text of a `BaplieContainer`.
pub struct BaplieContainerRow {
    pub id: i64,
    pub baplie_message_id: i64,
    pub fields: BaplieContainerText,
}

impl View for BaplieContainer {
    type V = BaplieContainerRow;

    open spec fn view(&self) -> BaplieContainerRow {
        BaplieContainerRow {
            id: self.id,
            baplie_message_id: self.baplie_message_id,
            fields: BaplieContainerText {
                container_id: self.container_id@,
                bay: self.bay.deep_view(),
                row: self.row.deep_view(),
                tier: self.tier.deep_view(),
                size: self.size.deep_view(),
                container_type: self.container_type.deep_view(),
                weight: self.weight.deep_view(),
            },
        }
    }
}

/// A BAPLIE header with its containers, in the order they were stored.
#[derive(Debug, Clone)]
pub struct BaplieMessageWithContainers {
    pub id: i64,
    pub edi_message_id: i64,
    pub vessel_name: Option<String>,
    pub voyage_number: Option<String>,
    pub port_of_loading: Option<String>,
    pub port_of_discharge: Option<String>,
    pub containers: Vec<BaplieContainer>,
}

/// The text of a `BaplieMessageWithContainers`.
pub struct BaplieProjection {
    pub header: BaplieMessageText,
    pub containers: Seq<BaplieContainerRow>,
}

impl View for BaplieMessageWithContainers {
    type V = BaplieProjection;

    open spec fn view(&self) -> BaplieProjection {
        BaplieProjection {
            header: BaplieMessageText {
                id: self.id,
                edi_message_id: self.edi_message_id,
                vessel_name: self.vessel_name.deep_view(),
                voyage_number: self.voyage_number.deep_view(),
                port_of_loading: self.port_of_loading.deep_view(),
                port_of_discharge: self.port_of_discharge.deep_view(),
            },
            containers: self.containers@.map_values(|c: BaplieContainer| c@),
        }
    }
}

/// The stored header of a COARRI message.
#[derive(Debug, Clone)]
pub struct CoarriMessage {
    pub id: i64,
    pub edi_message_id: i64,
    pub vessel_name: Option<String>,
    pub voyage_number: Option<String>,
}

/// The text of a `CoarriMessage`.
pub struct CoarriMessageText {
    pub id: i64,
    pub edi_message_id: i64,
    pub vessel_name: Option<Seq<char>>,
    pub voyage_number: Option<Seq<char>>,
}

impl View for CoarriMessage {
    type V = CoarriMessageText;

    open spec fn view(&self) -> CoarriMessageText {
        CoarriMessageText {
            id: self.id,
            edi_message_id: self.edi_message_id,
            vessel_name: self.vessel_name.deep_view(),
            voyage_number: self.voyage_number.deep_view(),
        }
    }
}

/// A stored movement of a COARRI message.
#[derive(Debug, Clone)]
pub struct CoarriMovement {
    pub id: i64,
    pub coarri_message_id: i64,
    pub container_id: String,
    pub movement_type: Option<String>,
    pub stowage_location: Option<String>,
    pub iso_container_type: Option<String>,
}

/// The text of a `CoarriMovement`.
pub struct CoarriMovementRow {
    pub id: i64,
    pub coarri_message_id: i64,
    pub fields: CoarriMovementText,
}

impl View for CoarriMovement {
    type V = CoarriMovementRow;

    open spec fn view(&self) -> CoarriMovementRow {
        CoarriMovementRow {
            id: self.id,
            coarri_message_id: self.coarri_message_id,
            fields: CoarriMovementText {
                container_id: self.container_id@,
                movement_type: self.movement_type.deep_view(),
                stowage_location: self.stowage_location.deep_view(),
                iso_container_type: self.iso_container_type.deep_view(),
            },
        }
    }
}

/// A COARRI header with its movements, in the order they were stored.
#[derive(Debug, Clone)]
pub struct CoarriMessageWithMovements {
    pub id: i64,
    pub edi_message_id: i64,
    pub vessel_name: Option<String>,
    pub voyage_number: Option<String>,
    pub movements: Vec<CoarriMovement>,
}

/// The text of a `CoarriMessageWithMovements`.
pub struct CoarriProjection {
    pub header: CoarriMessageText,
    pub movements: Seq<CoarriMovementRow>,
}

impl View for CoarriMessageWithMovements {
    type V = CoarriProjection;

    open spec fn view(&self) -> CoarriProjection {
        CoarriProjection {
            header: CoarriMessageText {
                id: self.id,
                edi_message_id: self.edi_message_id,
                vessel_name: self.vessel_name.deep_view(),
                voyage_number: self.voyage_number.deep_view(),
            },
            movements: self.movements@.map_values(|m: CoarriMovement| m@),
        }
    }
}

/// The stored header of a CODECO message.
#[derive(Debug, Clone)]
pub struct CodecoMessage {
    pub id: i64,
    pub edi_message_id: i64,
    pub gate: Option<String>,
}

/// The text of a `CodecoMessage`.
pub struct CodecoMessageText {
    pub id: i64,
    pub edi_message_id: i64,
    pub gate: Option<Seq<char>>,
}

impl View for CodecoMessage {
    type V = CodecoMessageText;

    open spec fn view(&self) -> CodecoMessageText {
        CodecoMessageText {
            id: self.id,
            edi_message_id: self.edi_message_id,
            gate: self.gate.deep_view(),
        }
    }
}

/// A stored movement of a CODECO message.
#[derive(Debug, Clone)]
pub struct CodecoMovement {
    pub id: i64,
    pub codeco_message_id: i64,
    pub container_id: String,
    pub movement_type: Option<String>,
    pub truck_license_plate: Option<String>,
    pub iso_container_type: Option<String>,
}

/// The text of a `CodecoMovement`.
pub struct CodecoMovementRow {
    pub id: i64,
    pub codeco_message_id: i64,
    pub fields: CodecoMovementText,
}

impl View for CodecoMovement {
    type V = CodecoMovementRow;

    open spec fn view(&self) -> CodecoMovementRow {
        CodecoMovementRow {
            id: self.id,
            codeco_message_id: self.codeco_message_id,
            fields: CodecoMovementText {
                container_id: self.container_id@,
                movement_type: self.movement_type.deep_view(),
                truck_license_plate: self.truck_license_plate.deep_view(),
                iso_container_type: self.iso_container_type.deep_view(),
            },
        }
    }
}

/// A CODECO header with its movements, in the order they were stored.
#[derive(Debug, Clone)]
pub struct CodecoMessageWithMovements {
    pub id: i64,
    pub edi_message_id: i64,
    pub gate: Option<String>,
    pub movements: Vec<CodecoMovement>,
}

/// The text of a `CodecoMessageWithMovements`.
pub struct CodecoProjection {
    pub header: CodecoMessageText,
    pub movements: Seq<CodecoMovementRow>,
}

impl View for CodecoMessageWithMovements {
    type V = CodecoProjection;

    open spec fn view(&self) -> CodecoProjection {
        CodecoProjection {
            header: CodecoMessageText {
                id: self.id,
                edi_message_id: self.edi_message_id,
                gate: self.gate.deep_view(),
            },
            movements: self.movements@.map_values(|m: CodecoMovement| m@),
        }
    }
}

/// A stored message together with what was parsed from it. At most one of
/// the three typed parts is present: the one of the message's own type.
#[derive(Debug, Clone)]
pub struct EdiMessageResponse {
    pub id: i64,
    pub message_type: String,
    pub content: String,
    pub container_id: Option<String>,
    pub created_at: String,
    pub baplie_message: Option<BaplieMessageWithContainers>,
    pub coarri_message: Option<CoarriMessageWithMovements>,
    pub codeco_message: Option<CodecoMessageWithMovements>,
}

/// The text of an `EdiMessageResponse`.
pub struct EdiResponseText {
    pub message: EdiMessageText,
    pub baplie_message: Option<BaplieProjection>,
    pub coarri_message: Option<CoarriProjection>,
    pub codeco_message: Option<CodecoProjection>,
}

impl View for EdiMessageResponse {
    type V = EdiResponseText;

    open spec fn view(&self) -> EdiResponseText {
        EdiResponseText {
            message: EdiMessageText {
                id: self.id,
                message_type: self.message_type@,
                content: self.content@,
                container_id: self.container_id.deep_view(),
                created_at: self.created_at@,
            },
            baplie_message: match self.baplie_message {
                Some(b) => Some(b@),
                None => None,
            },
            coarri_message: match self.coarri_message {
                Some(c) => Some(c@),
                None => None,
            },
            codeco_message: match self.codeco_message {
                Some(c) => Some(c@),
                None => None,
            },
        }
    }
}

/// What a COARRI message says of one container.
#[derive(Debug, Clone)]
pub struct ParsedCoarriMovement {
    pub container_id: String,
    pub movement_type: Option<String>,
    pub stowage_location: Option<String>,
    pub iso_container_type: Option<String>,
}

/// The text of a `ParsedCoarriMovement`.
pub struct CoarriMovementText {
    pub container_id: Seq<char>,
    pub movement_type: Option<Seq<char>>,
    pub stowage_location: Option<Seq<char>>,
    pub iso_container_type: Option<Seq<char>>,
}

impl View for ParsedCoarriMovement {
    type V = CoarriMovementText;

    open spec fn view(&self) -> CoarriMovementText {
        CoarriMovementText {
            container_id: self.container_id@,
            movement_type: self.movement_type.deep_view(),
            stowage_location: self.stowage_location.deep_view(),
            iso_container_type: self.iso_container_type.deep_view(),
        }
    }
}

/// The content of a COARRI message: the vessel call and the container
/// movements in the order of the message.
#[derive(Debug, Clone)]
pub struct ParsedCoarriData {
    pub vessel_name: Option<String>,
    pub voyage_number: Option<String>,
    pub movements: Vec<ParsedCoarriMovement>,
}

/// The text of a `ParsedCoarriData`.
pub struct CoarriDataText {
    pub vessel_name: Option<Seq<char>>,
    pub voyage_number: Option<Seq<char>>,
    pub movements: Seq<CoarriMovementText>,
}

impl View for ParsedCoarriData {
    type V = CoarriDataText;

    open spec fn view(&self) -> CoarriDataText {
        CoarriDataText {
            vessel_name: self.vessel_name.deep_view(),
            voyage_number: self.voyage_number.deep_view(),
            movements: self.movements@.map_values(|m: ParsedCoarriMovement| m@),
        }
    }
}

/// What a CODECO message says of one container passing through a gate.
#[derive(Debug, Clone)]
pub struct ParsedCodecoMovement {
    pub container_id: String,
    pub movement_type: Option<String>,
    pub truck_license_plate: Option<String>,
    pub iso_container_type: Option<String>,
}

/// The text of a `ParsedCodecoMovement`.
pub struct CodecoMovementText {
    pub container_id: Seq<char>,
    pub movement_type: Option<Seq<char>>,
    pub truck_license_plate: Option<Seq<char>>,
    pub iso_container_type: Option<Seq<char>>,
}

impl View for ParsedCodecoMovement {
    type V = CodecoMovementText;

    open spec fn view(&self) -> CodecoMovementText {
        CodecoMovementText {
            container_id: self.container_id@,
            movement_type: self.movement_type.deep_view(),
            truck_license_plate: self.truck_license_plate.deep_view(),
            iso_container_type: self.iso_container_type.deep_view(),
        }
    }
}

/// The content of a CODECO message: its gate and the container movements in
/// the order of the message.
#[derive(Debug, Clone)]
pub struct ParsedCodecoData {
    pub gate: Option<String>,
    pub movements: Vec<ParsedCodecoMovement>,
}

/// The text of a `ParsedCodecoData`.
pub struct CodecoDataText {
    pub gate: Option<Seq<char>>,
    pub movements: Seq<CodecoMovementText>,
}

impl View for ParsedCodecoData {
    type V = CodecoDataText;

    open spec fn view(&self) -> CodecoDataText {
        CodecoDataText {
            gate: self.gate.deep_view(),
            movements: self.movements@.map_values(|m: ParsedCodecoMovement| m@),
        }
    }
}

/// What a BAPLIE message says of one container on board. The weight is
/// held as the message writes it: a non-negative decimal number in digits.
#[derive(Debug, Clone)]
pub struct ParsedBaplieContainer {
    pub container_id: String,
    pub bay: Option<String>,
    pub row: Option<String>,
    pub tier: Option<String>,
    pub size: Option<String>,
    pub container_type: Option<String>,
    pub weight: Option<String>,
}

/// The text of a `ParsedBaplieContainer`.
pub struct BaplieContainerText {
    pub container_id: Seq<char>,
    pub bay: Option<Seq<char>>,
    pub row: Option<Seq<char>>,
    pub tier: Option<Seq<char>>,
    pub size: Option<Seq<char>>,
    pub container_type: Option<Seq<char>>,
    pub weight: Option<Seq<char>>,
}

impl View for ParsedBaplieContainer {
    type V = BaplieContainerText;

    open spec fn view(&self) -> BaplieContainerText {
        BaplieContainerText {
            container_id: self.container_id@,
            bay: self.bay.deep_view(),
            row: self.row.deep_view(),
            tier: self.tier.deep_view(),
            size: self.size.deep_view(),
            container_type: self.container_type.deep_view(),
            weight: self.weight.deep_view(),
        }
    }
}

/// The content of a BAPLIE message: the vessel call, the two ports, and the
/// containers in the order of the message.
#[derive(Debug, Clone)]
pub struct ParsedBaplieData {
    pub vessel_name: Option<String>,
    pub voyage_number: Option<String>,
    pub port_of_loading: Option<String>,
    pub port_of_discharge: Option<String>,
    pub containers: Vec<ParsedBaplieContainer>,
}

/// The text of a `ParsedBaplieData`.
pub struct BaplieDataText {
    pub vessel_name: Option<Seq<char>>,
    pub voyage_number: Option<Seq<char>>,
    pub port_of_loading: Option<Seq<char>>,
    pub port_of_discharge: Option<Seq<char>>,
    pub containers: Seq<BaplieContainerText>,
}

impl View for ParsedBaplieData {
    type V = BaplieDataText;

    open spec fn view(&self) -> BaplieDataText {
        BaplieDataText {
            vessel_name: self.vessel_name.deep_view(),
            voyage_number: self.voyage_number.deep_view(),
            port_of_loading: self.port_of_loading.deep_view(),
            port_of_discharge: self.port_of_discharge.deep_view(),
            containers: self.containers@.map_values(|c: ParsedBaplieContainer| c@),
        }
    }
}

impl EdiMessage {
    /// A copy of this row.
    pub fn copy(&self) -> (copy: EdiMessage)
        ensures
            copy@ == self@,
    {
        EdiMessage {
            id: self.id,
            message_type: self.message_type.clone(),
            content: self.content.clone(),
            container_id: clone_text(&self.container_id),
            created_at: self.created_at.clone(),
        }
    }
}

impl BaplieContainer {
    /// A copy of this row.
    pub fn copy(&self) -> (copy: BaplieContainer)
        ensures
            copy@ == self@,
    {
        BaplieContainer {
            id: self.id,
            baplie_message_id: self.baplie_message_id,
            container_id: self.container_id.clone(),
            bay: clone_text(&self.bay),
            row: clone_text(&self.row),
            tier: clone_text(&self.tier),
            size: clone_text(&self.size),
            container_type: clone_text(&self.container_type),
            weight: clone_text(&self.weight),
        }
    }
}

impl CoarriMovement {
    /// A copy of this row.
    pub fn copy(&self) -> (copy: CoarriMovement)
        ensures
            copy@ == self@,
    {
        CoarriMovement {
            id: self.id,
            coarri_message_id: self.coarri_message_id,
            container_id: self.container_id.clone(),
            movement_type: clone_text(&self.movement_type),
            stowage_location: clone_text(&self.stowage_location),
            iso_container_type: clone_text(&self.iso_container_type),
        }
    }
}

impl CodecoMovement {
    /// A copy of this row.
    pub fn copy(&self) -> (copy: CodecoMovement)
        ensures
            copy@ == self@,
    {
        CodecoMovement {
            id: self.id,
            codeco_message_id: self.codeco_message_id,
            container_id: self.container_id.clone(),
            movement_type: clone_text(&self.movement_type),
            truck_license_plate: clone_text(&self.truck_license_plate),
            iso_container_type: clone_text(&self.iso_container_type),
        }
    }
}

} // verus!
