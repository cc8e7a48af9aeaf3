//! Truck appointments.

use crate::validation::{
    custom_errors, invalid, length_errors, same_text, Checks, FieldErrorText, ValidationErrors,
};
use vstd::prelude::*;

verus! {

/// A stored truck appointment.
#[derive(Debug)]
pub struct TruckAppointment {
    pub id: i64,
    pub trucking_company: String,
    pub driver_name: String,
    pub license_plate: String,
    pub appointment_time: String,
    pub status: String,
    pub container_id: Option<String>,
    pub created_at: String,
    pub updated_at: String,
}

/// A truck appointment to be created.
#[derive(Debug)]
pub struct CreateTruckAppointment {
    pub trucking_company: String,
    pub driver_name: String,
    pub license_plate: String,
    pub appointment_time: String,
    pub status: String,
    pub container_id: Option<String>,
}

/// The new content of a truck appointment.
#[derive(Debug)]
pub struct UpdateTruckAppointment {
    pub trucking_company: String,
    pub driver_name: String,
    pub license_plate: String,
    pub appointment_time: String,
    pub status: String,
    pub container_id: Option<String>,
}

/// The states an appointment can be in.
pub open spec fn is_appointment_status(status: Seq<char>) -> bool {
    status == "SCHEDULED"@ || status == "COMPLETED"@ || status == "CANCELLED"@
}

/// Accepts exactly the three appointment states.
pub fn validate_appointment_status(status: &str) -> (result: Result<
    (),
    validator::ValidationError,
>)
    ensures
        result is Ok <==> is_appointment_status(status@),
{
    if same_text(status, "SCHEDULED") || same_text(status, "COMPLETED") || same_text(
        status,
        "CANCELLED",
    ) {
        Ok(())
    } else {
        Err(invalid("invalid_status"))
    }
}

/// The failed checks of an appointment with these fields: company, driver,
/// plate and time each need a character, the status must be an appointment
/// state.
pub open spec fn appointment_errors(
    trucking_company: Seq<char>,
    driver_name: Seq<char>,
    license_plate: Seq<char>,
    appointment_time: Seq<char>,
    status: Seq<char>,
) -> Seq<FieldErrorText> {
    length_errors("trucking_company"@, trucking_company) + length_errors(
        "driver_name"@,
        driver_name,
    ) + length_errors("license_plate"@, license_plate) + length_errors(
        "appointment_time"@,
        appointment_time,
    ) + custom_errors("status"@, is_appointment_status(status), "invalid_status"@)
}

/// Checks the fields of an appointment.
pub fn validate_appointment(
    trucking_company: &str,
    driver_name: &str,
    license_plate: &str,
    appointment_time: &str,
    status: &str,
) -> (result: Result<(), ValidationErrors>)
    ensures
        result is Ok <==> appointment_errors(
            trucking_company@,
            driver_name@,
            license_plate@,
            appointment_time@,
            status@,
        ).len() == 0,
        result is Err ==> result->Err_0@ == appointment_errors(
            trucking_company@,
            driver_name@,
            license_plate@,
            appointment_time@,
            status@,
        ),
{
    let mut checks = Checks::new();
    checks.length("trucking_company", trucking_company);
    checks.length("driver_name", driver_name);
    checks.length("license_plate", license_plate);
    checks.length("appointment_time", appointment_time);
    checks.custom("status", validate_appointment_status(status), "invalid_status");
    checks.finish()
}

impl CreateTruckAppointment {
    /// The failed checks of this record.
    pub open spec fn errors(&self) -> Seq<FieldErrorText> {
        appointment_errors(
            self.trucking_company@,
            self.driver_name@,
            self.license_plate@,
            self.appointment_time@,
            self.status@,
        )
    }

    /// Checks the record; an error lists every field that failed.
    pub fn validate(&self) -> (result: Result<(), ValidationErrors>)
        ensures
            result is Ok <==> self.errors().len() == 0,
            result is Err ==> result->Err_0@ == self.errors(),
    {
        validate_appointment(
            self.trucking_company.as_str(),
            self.driver_name.as_str(),
            self.license_plate.as_str(),
            self.appointment_time.as_str(),
            self.status.as_str(),
        )
    }
}

impl UpdateTruckAppointment {
    /// The failed checks of this record.
    pub open spec fn errors(&self) -> Seq<FieldErrorText> {
        appointment_errors(
            self.trucking_company@,
            self.driver_name@,
            self.license_plate@,
            self.appointment_time@,
            self.status@,
        )
    }

    /// Checks the record; an error lists every field that failed.
    pub fn validate(&self) -> (result: Result<(), ValidationErrors>)
        ensures
            result is Ok <==> self.errors().len() == 0,
            result is Err ==> result->Err_0@ == self.errors(),
    {
        validate_appointment(
            self.trucking_company.as_str(),
            self.driver_name.as_str(),
            self.license_plate.as_str(),
            self.appointment_time.as_str(),
            self.status.as_str(),
        )
    }
}

} // verus!
