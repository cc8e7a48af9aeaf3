//! The records that the terminal's endpoints accept, store and return.

pub mod appointment;
pub mod container;
pub mod customs;
pub mod damage;
pub mod edi;
pub mod history;
pub mod task;

pub use appointment::{CreateTruckAppointment, TruckAppointment, UpdateTruckAppointment};
pub use container::{Container, CreateContainer};
pub use customs::{CreateCustomsInspection, CustomsInspection};
pub use damage::{CreateDamageReport, DamageReport, DamageReportWithPhotos};
pub use history::{CreateHistory, History};
pub use task::{CreateTask, Task, UpdateTask};
pub use edi::{
    BaplieContainer, BaplieMessage, BaplieMessageWithContainers, CoarriMessage,
    CoarriMessageWithMovements, CoarriMovement, CodecoMessage, CodecoMessageWithMovements,
    CodecoMovement, CreateEdiMessage, EdiMessage, EdiMessageResponse, ParsedBaplieContainer,
    ParsedBaplieData, ParsedCoarriData, ParsedCoarriMovement, ParsedCodecoData,
    ParsedCodecoMovement,
};
