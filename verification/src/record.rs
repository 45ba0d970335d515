//! The visa case record, the sparse update payload, and the per-field
//! resolution that merges the two.
//!
//! A record is an opaque attribute bag around an immutable key: every
//! descriptive field is carried as text exactly as it came off the wire
//! (dates and the fixed-point salary included), so a merge can promise that
//! untouched fields stay byte-for-byte equal. Only the status is typed, since
//! its two values drive the transition logic.

use vstd::prelude::*;
use crate::status::CaseStatus;

verus! {

/// One visa case row. `customer_id` is the sole primary key and never
/// changes after creation; `email` and `login_email` are secondary lookup
/// keys; the rest is descriptive data.
#[derive(Debug, PartialEq)]
pub struct VisaCase {
    pub customer_id: String,
    pub email: String,
    pub login_email: String,
    pub first_name: String,
    pub last_name: String,
    pub dob: String,
    pub sex: String,
    pub marital_status: String,
    pub phone: String,
    pub emergency_contact_name: String,
    pub emergency_contact_phone: String,
    pub employment_start_date: String,
    pub street_name: String,
    pub city: String,
    pub state: String,
    pub zip: String,
    pub client_name: String,
    pub client_street_name: String,
    pub client_city: String,
    pub client_state: String,
    pub client_zip: String,
    pub lca_title: String,
    pub lca_salary: String,
    pub lca_code: String,
    pub receipt_number: String,
    pub h1b_start_date: String,
    pub h1b_end_date: String,
    pub status: CaseStatus,
}

impl Clone for VisaCase {
    /// A clone is equal to the original, field for field.
    fn clone(&self) -> (res: Self)
        ensures
            res == *self,
    {
        VisaCase {
            customer_id: self.customer_id.clone(),
            email: self.email.clone(),
            login_email: self.login_email.clone(),
            first_name: self.first_name.clone(),
            last_name: self.last_name.clone(),
            dob: self.dob.clone(),
            sex: self.sex.clone(),
            marital_status: self.marital_status.clone(),
            phone: self.phone.clone(),
            emergency_contact_name: self.emergency_contact_name.clone(),
            emergency_contact_phone: self.emergency_contact_phone.clone(),
            employment_start_date: self.employment_start_date.clone(),
            street_name: self.street_name.clone(),
            city: self.city.clone(),
            state: self.state.clone(),
            zip: self.zip.clone(),
            client_name: self.client_name.clone(),
            client_street_name: self.client_street_name.clone(),
            client_city: self.client_city.clone(),
            client_state: self.client_state.clone(),
            client_zip: self.client_zip.clone(),
            lca_title: self.lca_title.clone(),
            lca_salary: self.lca_salary.clone(),
            lca_code: self.lca_code.clone(),
            receipt_number: self.receipt_number.clone(),
            h1b_start_date: self.h1b_start_date.clone(),
            h1b_end_date: self.h1b_end_date.clone(),
            status: self.status,
        }
    }
}

/// A sparse update request. Every key of the wire object is optional: a field
/// that is absent means "preserve the existing value". (The wire protocol
/// does not distinguish "explicitly clear" from "omitted"; an empty string is
/// an ordinary present value.)
#[derive(Debug)]
pub struct UpdatePayload {
    pub first_name: Option<String>,
    pub last_name: Option<String>,
    pub dob: Option<String>,
    pub sex: Option<String>,
    pub marital_status: Option<String>,
    pub phone: Option<String>,
    pub emergency_contact_name: Option<String>,
    pub emergency_contact_phone: Option<String>,
    pub employment_start_date: Option<String>,
    pub street_name: Option<String>,
    pub city: Option<String>,
    pub state: Option<String>,
    pub zip: Option<String>,
    pub client_name: Option<String>,
    pub client_street_name: Option<String>,
    pub client_city: Option<String>,
    pub client_state: Option<String>,
    pub client_zip: Option<String>,
    pub lca_title: Option<String>,
    pub lca_salary: Option<String>,
    pub lca_code: Option<String>,
    pub receipt_number: Option<String>,
    pub h1b_start_date: Option<String>,
    pub h1b_end_date: Option<String>,
    pub status: Option<CaseStatus>,
}

impl UpdatePayload {
    /// A payload with every field omitted; merging it changes nothing.
    pub fn empty() -> (r: UpdatePayload)
        ensures
            forall|f: Field| !specifies(r, f),
    {
        UpdatePayload {
            first_name: None,
            last_name: None,
            dob: None,
            sex: None,
            marital_status: None,
            phone: None,
            emergency_contact_name: None,
            emergency_contact_phone: None,
            employment_start_date: None,
            street_name: None,
            city: None,
            state: None,
            zip: None,
            client_name: None,
            client_street_name: None,
            client_city: None,
            client_state: None,
            client_zip: None,
            lca_title: None,
            lca_code: None,
            lca_salary: None,
            receipt_number: None,
            h1b_start_date: None,
            h1b_end_date: None,
            status: None,
        }
    }
}

/// The mutable fields of a record: the ones an update payload may carry.
/// The two secondary keys and the primary key are not among them.
#[derive(Clone, Copy, PartialEq, Eq, Structural, Debug)]
pub enum Field {
    FirstName,
    LastName,
    Dob,
    Sex,
    MaritalStatus,
    Phone,
    EmergencyContactName,
    EmergencyContactPhone,
    EmploymentStartDate,
    StreetName,
    City,
    State,
    Zip,
    ClientName,
    ClientStreetName,
    ClientCity,
    ClientState,
    ClientZip,
    LcaTitle,
    LcaSalary,
    LcaCode,
    ReceiptNumber,
    H1bStartDate,
    H1bEndDate,
    Status,
}

/// The value a record holds in one mutable field.
pub enum FieldValue {
    Text(String),
    Status(CaseStatus),
}

/// What a record holds in field `f`.
pub open spec fn field_value(c: VisaCase, f: Field) -> FieldValue {
    match f {
        Field::FirstName => FieldValue::Text(c.first_name),
        Field::LastName => FieldValue::Text(c.last_name),
        Field::Dob => FieldValue::Text(c.dob),
        Field::Sex => FieldValue::Text(c.sex),
        Field::MaritalStatus => FieldValue::Text(c.marital_status),
        Field::Phone => FieldValue::Text(c.phone),
        Field::EmergencyContactName => FieldValue::Text(c.emergency_contact_name),
        Field::EmergencyContactPhone => FieldValue::Text(c.emergency_contact_phone),
        Field::EmploymentStartDate => FieldValue::Text(c.employment_start_date),
        Field::StreetName => FieldValue::Text(c.street_name),
        Field::City => FieldValue::Text(c.city),
        Field::State => FieldValue::Text(c.state),
        Field::Zip => FieldValue::Text(c.zip),
        Field::ClientName => FieldValue::Text(c.client_name),
        Field::ClientStreetName => FieldValue::Text(c.client_street_name),
        Field::ClientCity => FieldValue::Text(c.client_city),
        Field::ClientState => FieldValue::Text(c.client_state),
        Field::ClientZip => FieldValue::Text(c.client_zip),
        Field::LcaTitle => FieldValue::Text(c.lca_title),
        Field::LcaSalary => FieldValue::Text(c.lca_salary),
        Field::LcaCode => FieldValue::Text(c.lca_code),
        Field::ReceiptNumber => FieldValue::Text(c.receipt_number),
        Field::H1bStartDate => FieldValue::Text(c.h1b_start_date),
        Field::H1bEndDate => FieldValue::Text(c.h1b_end_date),
        Field::Status => FieldValue::Status(c.status),
    }
}

/// Lifts an optional text field of a payload into an optional field value.
pub open spec fn text_opt(o: Option<String>) -> Option<FieldValue> {
    match o {
        Some(v) => Some(FieldValue::Text(v)),
        None => None,
    }
}

/// Lifts the optional status field of a payload into an optional field value.
pub open spec fn status_opt(o: Option<CaseStatus>) -> Option<FieldValue> {
    match o {
        Some(v) => Some(FieldValue::Status(v)),
        None => None,
    }
}

/// What an update payload carries for field `f`, if anything.
pub open spec fn payload_field(u: UpdatePayload, f: Field) -> Option<FieldValue> {
    match f {
        Field::FirstName => text_opt(u.first_name),
        Field::LastName => text_opt(u.last_name),
        Field::Dob => text_opt(u.dob),
        Field::Sex => text_opt(u.sex),
        Field::MaritalStatus => text_opt(u.marital_status),
        Field::Phone => text_opt(u.phone),
        Field::EmergencyContactName => text_opt(u.emergency_contact_name),
        Field::EmergencyContactPhone => text_opt(u.emergency_contact_phone),
        Field::EmploymentStartDate => text_opt(u.employment_start_date),
        Field::StreetName => text_opt(u.street_name),
        Field::City => text_opt(u.city),
        Field::State => text_opt(u.state),
        Field::Zip => text_opt(u.zip),
        Field::ClientName => text_opt(u.client_name),
        Field::ClientStreetName => text_opt(u.client_street_name),
        Field::ClientCity => text_opt(u.client_city),
        Field::ClientState => text_opt(u.client_state),
        Field::ClientZip => text_opt(u.client_zip),
        Field::LcaTitle => text_opt(u.lca_title),
        Field::LcaSalary => text_opt(u.lca_salary),
        Field::LcaCode => text_opt(u.lca_code),
        Field::ReceiptNumber => text_opt(u.receipt_number),
        Field::H1bStartDate => text_opt(u.h1b_start_date),
        Field::H1bEndDate => text_opt(u.h1b_end_date),
        Field::Status => status_opt(u.status),
    }
}

/// Whether the payload specifies a value for field `f`.
pub open spec fn specifies(u: UpdatePayload, f: Field) -> bool {
    payload_field(u, f) is Some
}

/// A record with only its status replaced.
pub open spec fn with_status(c: VisaCase, status: CaseStatus) -> VisaCase {
    VisaCase { status, ..c }
}

/// The full-tuple rewrite payload: every descriptive column and both
/// secondary keys, each with a definite value. The primary key and the
/// status are not part of it — a full rewrite changes neither.
#[derive(Debug)]
pub struct FullFields {
    pub email: String,
    pub first_name: String,
    pub last_name: String,
    pub dob: String,
    pub sex: String,
    pub marital_status: String,
    pub phone: String,
    pub emergency_contact_name: String,
    pub emergency_contact_phone: String,
    pub employment_start_date: String,
    pub street_name: String,
    pub city: String,
    pub state: String,
    pub zip: String,
    pub client_name: String,
    pub client_street_name: String,
    pub client_city: String,
    pub client_state: String,
    pub client_zip: String,
    pub lca_title: String,
    pub lca_salary: String,
    pub lca_code: String,
    pub receipt_number: String,
    pub h1b_start_date: String,
    pub h1b_end_date: String,
    pub login_email: String,
}

/// The row that a full rewrite leaves behind: the payload's values in every
/// column it covers, the key and the status untouched.
pub open spec fn apply_full(c: VisaCase, f: FullFields) -> VisaCase {
    VisaCase {
        customer_id: c.customer_id,
        status: c.status,
        email: f.email,
        login_email: f.login_email,
        first_name: f.first_name,
        last_name: f.last_name,
        dob: f.dob,
        sex: f.sex,
        marital_status: f.marital_status,
        phone: f.phone,
        emergency_contact_name: f.emergency_contact_name,
        emergency_contact_phone: f.emergency_contact_phone,
        employment_start_date: f.employment_start_date,
        street_name: f.street_name,
        city: f.city,
        state: f.state,
        zip: f.zip,
        client_name: f.client_name,
        client_street_name: f.client_street_name,
        client_city: f.client_city,
        client_state: f.client_state,
        client_zip: f.client_zip,
        lca_title: f.lca_title,
        lca_salary: f.lca_salary,
        lca_code: f.lca_code,
        receipt_number: f.receipt_number,
        h1b_start_date: f.h1b_start_date,
        h1b_end_date: f.h1b_end_date,
    }
}

/// The residence-address section of a row.
#[derive(Debug)]
pub struct AddressFields {
    pub street_name: String,
    pub city: String,
    pub state: String,
    pub zip: String,
}

/// The row that an address rewrite leaves behind: the four address columns
/// replaced, everything else untouched.
pub open spec fn apply_address(c: VisaCase, f: AddressFields) -> VisaCase {
    VisaCase {
        street_name: f.street_name,
        city: f.city,
        state: f.state,
        zip: f.zip,
        ..c
    }
}

/// The client-engagement section of a row: client identity and address,
/// labor-condition data, receipt number, the visa dates, and the status.
#[derive(Debug)]
pub struct ClientFields {
    pub client_name: String,
    pub client_street_name: String,
    pub client_city: String,
    pub client_state: String,
    pub client_zip: String,
    pub lca_title: String,
    pub lca_salary: String,
    pub lca_code: String,
    pub receipt_number: String,
    pub h1b_start_date: String,
    pub h1b_end_date: String,
    pub status: CaseStatus,
}

/// The row that an engagement rewrite leaves behind: the engagement columns
/// and the status replaced, everything else untouched.
pub open spec fn apply_client(c: VisaCase, f: ClientFields) -> VisaCase {
    VisaCase {
        client_name: f.client_name,
        client_street_name: f.client_street_name,
        client_city: f.client_city,
        client_state: f.client_state,
        client_zip: f.client_zip,
        lca_title: f.lca_title,
        lca_salary: f.lca_salary,
        lca_code: f.lca_code,
        receipt_number: f.receipt_number,
        h1b_start_date: f.h1b_start_date,
        h1b_end_date: f.h1b_end_date,
        status: f.status,
        ..c
    }
}

/// A wire field that may be absent, resolved to a definite value: absent
/// text becomes the empty string.
pub fn text_or_empty(v: Option<String>) -> (r: String)
    ensures
        v is Some ==> r == v->0,
        v is None ==> r@ == Seq::<char>::empty(),
{
    match v {
        Some(s) => s,
        None => String::new(),
    }
}

} // verus!
