//! Per-field resolution of a sparse update against a current row, and the
//! laws of that resolution: omitted fields survive untouched, a full payload
//! overwrites everything mutable, and updates to disjoint field sets compose
//! without losing either side.

use vstd::prelude::*;
use crate::record::{
    Field, FieldValue, UpdatePayload, VisaCase, field_value, payload_field, specifies,
};
use crate::status::CaseStatus;

verus! {

/// The resolved value of one text field: the payload's value where present,
/// the current one otherwise.
pub open spec fn resolve_text(current: String, update: Option<String>) -> String {
    match update {
        Some(v) => v,
        None => current,
    }
}

/// The resolved status: the payload's status where present, the current one
/// otherwise.
pub open spec fn resolve_status(current: CaseStatus, update: Option<CaseStatus>) -> CaseStatus {
    match update {
        Some(v) => v,
        None => current,
    }
}

/// The fully-resolved row that a merge writes back: every mutable field is
/// taken from the payload where specified and preserved otherwise, and the
/// three keys (primary and both secondary) are never touched.
pub open spec fn resolve_case(current: VisaCase, update: UpdatePayload) -> VisaCase {
    VisaCase {
        customer_id: current.customer_id,
        email: current.email,
        login_email: current.login_email,
        first_name: resolve_text(current.first_name, update.first_name),
        last_name: resolve_text(current.last_name, update.last_name),
        dob: resolve_text(current.dob, update.dob),
        sex: resolve_text(current.sex, update.sex),
        marital_status: resolve_text(current.marital_status, update.marital_status),
        phone: resolve_text(current.phone, update.phone),
        emergency_contact_name: resolve_text(
            current.emergency_contact_name,
            update.emergency_contact_name,
        ),
        emergency_contact_phone: resolve_text(
            current.emergency_contact_phone,
            update.emergency_contact_phone,
        ),
        employment_start_date: resolve_text(
            current.employment_start_date,
            update.employment_start_date,
        ),
        street_name: resolve_text(current.street_name, update.street_name),
        city: resolve_text(current.city, update.city),
        state: resolve_text(current.state, update.state),
        zip: resolve_text(current.zip, update.zip),
        client_name: resolve_text(current.client_name, update.client_name),
        client_street_name: resolve_text(current.client_street_name, update.client_street_name),
        client_city: resolve_text(current.client_city, update.client_city),
        client_state: resolve_text(current.client_state, update.client_state),
        client_zip: resolve_text(current.client_zip, update.client_zip),
        lca_title: resolve_text(current.lca_title, update.lca_title),
        lca_salary: resolve_text(current.lca_salary, update.lca_salary),
        lca_code: resolve_text(current.lca_code, update.lca_code),
        receipt_number: resolve_text(current.receipt_number, update.receipt_number),
        h1b_start_date: resolve_text(current.h1b_start_date, update.h1b_start_date),
        h1b_end_date: resolve_text(current.h1b_end_date, update.h1b_end_date),
        status: resolve_status(current.status, update.status),
    }
}

fn pick_text(current: String, update: Option<String>) -> (r: String)
    ensures
        r == resolve_text(current, update),
{
    match update {
        Some(v) => v,
        None => current,
    }
}

fn pick_status(current: CaseStatus, update: Option<CaseStatus>) -> (r: CaseStatus)
    ensures
        r == resolve_status(current, update),
{
    match update {
        Some(v) => v,
        None => current,
    }
}

/// Resolves a sparse update against the current row, field by field. The
/// result is the full tuple a merge writes back in one statement.
pub fn resolve_update(current: VisaCase, update: UpdatePayload) -> (r: VisaCase)
    ensures
        r == resolve_case(current, update),
{
    VisaCase {
        customer_id: current.customer_id,
        email: current.email,
        login_email: current.login_email,
        first_name: pick_text(current.first_name, update.first_name),
        last_name: pick_text(current.last_name, update.last_name),
        dob: pick_text(current.dob, update.dob),
        sex: pick_text(current.sex, update.sex),
        marital_status: pick_text(current.marital_status, update.marital_status),
        phone: pick_text(current.phone, update.phone),
        emergency_contact_name: pick_text(
            current.emergency_contact_name,
            update.emergency_contact_name,
        ),
        emergency_contact_phone: pick_text(
            current.emergency_contact_phone,
            update.emergency_contact_phone,
        ),
        employment_start_date: pick_text(
            current.employment_start_date,
            update.employment_start_date,
        ),
        street_name: pick_text(current.street_name, update.street_name),
        city: pick_text(current.city, update.city),
        state: pick_text(current.state, update.state),
        zip: pick_text(current.zip, update.zip),
        client_name: pick_text(current.client_name, update.client_name),
        client_street_name: pick_text(current.client_street_name, update.client_street_name),
        client_city: pick_text(current.client_city, update.client_city),
        client_state: pick_text(current.client_state, update.client_state),
        client_zip: pick_text(current.client_zip, update.client_zip),
        lca_title: pick_text(current.lca_title, update.lca_title),
        lca_salary: pick_text(current.lca_salary, update.lca_salary),
        lca_code: pick_text(current.lca_code, update.lca_code),
        receipt_number: pick_text(current.receipt_number, update.receipt_number),
        h1b_start_date: pick_text(current.h1b_start_date, update.h1b_start_date),
        h1b_end_date: pick_text(current.h1b_end_date, update.h1b_end_date),
        status: pick_status(current.status, update.status),
    }
}

/// Merging preserves omitted fields: for any row and any payload, every field
/// the payload does not specify keeps its pre-update value, every field it
/// does specify takes the payload's value, and the three keys are unchanged.
pub proof fn lemma_merge_preserves_omitted(current: VisaCase, update: UpdatePayload)
    ensures
        forall|f: Field| !specifies(update, f)
            ==> field_value(resolve_case(current, update), f) == field_value(current, f),
        forall|f: Field| specifies(update, f)
            ==> Some(field_value(resolve_case(current, update), f)) == payload_field(update, f),
        resolve_case(current, update).customer_id == current.customer_id,
        resolve_case(current, update).email == current.email,
        resolve_case(current, update).login_email == current.login_email,
{
}

/// Merging a payload that specifies every field overwrites every mutable
/// field with the payload's value: the result depends only on the payload,
/// except for the keys, which come from the current row.
pub proof fn lemma_merge_full_overwrite(current: VisaCase, update: UpdatePayload)
    requires
        forall|f: Field| specifies(update, f),
    ensures
        forall|f: Field|
            Some(#[trigger] field_value(resolve_case(current, update), f))
                == payload_field(update, f),
        resolve_case(current, update).customer_id == current.customer_id,
{
    lemma_merge_preserves_omitted(current, update);
}

proof fn lemma_resolve_text_comm(cur: String, a: Option<String>, b: Option<String>)
    requires
        !(a is Some && b is Some),
    ensures
        resolve_text(resolve_text(cur, a), b) == resolve_text(resolve_text(cur, b), a),
{
}

/// Two payloads are disjoint when no mutable field is specified by both.
pub open spec fn disjoint_payloads(a: UpdatePayload, b: UpdatePayload) -> bool {
    forall|f: Field| !(specifies(a, f) && specifies(b, f))
}

/// Updates to disjoint field sets both survive: merging one payload and then
/// a disjoint other leaves every field specified by either payload at that
/// payload's value and every other field untouched — neither update is lost —
/// and the two merges commute.
pub proof fn lemma_disjoint_updates_compose(
    current: VisaCase,
    first: UpdatePayload,
    second: UpdatePayload,
)
    requires
        disjoint_payloads(first, second),
    ensures
        forall|f: Field| specifies(first, f)
            ==> Some(
                field_value(resolve_case(resolve_case(current, first), second), f),
            ) == payload_field(first, f),
        forall|f: Field| specifies(second, f)
            ==> Some(
                field_value(resolve_case(resolve_case(current, first), second), f),
            ) == payload_field(second, f),
        forall|f: Field| !specifies(first, f) && !specifies(second, f)
            ==> field_value(resolve_case(resolve_case(current, first), second), f)
                == field_value(current, f),
        resolve_case(resolve_case(current, first), second)
            == resolve_case(resolve_case(current, second), first),
{
    assert forall|f: Field| specifies(first, f) implies Some(
        field_value(resolve_case(resolve_case(current, first), second), f),
    ) == payload_field(first, f) by {
        assert(!specifies(second, f));
    }
    let once = resolve_case(resolve_case(current, first), second);
    let other = resolve_case(resolve_case(current, second), first);
    assert(once.first_name == other.first_name) by {
        assert(!(specifies(first, Field::FirstName) && specifies(second, Field::FirstName)));
        lemma_resolve_text_comm(current.first_name, first.first_name, second.first_name);
    }
    assert(once.last_name == other.last_name) by {
        assert(!(specifies(first, Field::LastName) && specifies(second, Field::LastName)));
        lemma_resolve_text_comm(current.last_name, first.last_name, second.last_name);
    }
    assert(once.dob == other.dob) by {
        assert(!(specifies(first, Field::Dob) && specifies(second, Field::Dob)));
        lemma_resolve_text_comm(current.dob, first.dob, second.dob);
    }
    assert(once.sex == other.sex) by {
        assert(!(specifies(first, Field::Sex) && specifies(second, Field::Sex)));
        lemma_resolve_text_comm(current.sex, first.sex, second.sex);
    }
    assert(once.marital_status == other.marital_status) by {
        assert(!(specifies(first, Field::MaritalStatus) && specifies(
            second,
            Field::MaritalStatus,
        )));
        lemma_resolve_text_comm(current.marital_status, first.marital_status,
            second.marital_status);
    }
    assert(once.phone == other.phone) by {
        assert(!(specifies(first, Field::Phone) && specifies(second, Field::Phone)));
        lemma_resolve_text_comm(current.phone, first.phone, second.phone);
    }
    assert(once.emergency_contact_name == other.emergency_contact_name) by {
        assert(!(specifies(first, Field::EmergencyContactName) && specifies(
            second,
            Field::EmergencyContactName,
        )));
        lemma_resolve_text_comm(current.emergency_contact_name, first.emergency_contact_name,
            second.emergency_contact_name);
    }
    assert(once.emergency_contact_phone == other.emergency_contact_phone) by {
        assert(!(specifies(first, Field::EmergencyContactPhone) && specifies(
            second,
            Field::EmergencyContactPhone,
        )));
        lemma_resolve_text_comm(current.emergency_contact_phone, first.emergency_contact_phone,
            second.emergency_contact_phone);
    }
    assert(once.employment_start_date == other.employment_start_date) by {
        assert(!(specifies(first, Field::EmploymentStartDate) && specifies(
            second,
            Field::EmploymentStartDate,
        )));
        lemma_resolve_text_comm(current.employment_start_date, first.employment_start_date,
            second.employment_start_date);
    }
    assert(once.street_name == other.street_name) by {
        assert(!(specifies(first, Field::StreetName) && specifies(second, Field::StreetName)));
        lemma_resolve_text_comm(current.street_name, first.street_name, second.street_name);
    }
    assert(once.city == other.city) by {
        assert(!(specifies(first, Field::City) && specifies(second, Field::City)));
        lemma_resolve_text_comm(current.city, first.city, second.city);
    }
    assert(once.state == other.state) by {
        assert(!(specifies(first, Field::State) && specifies(second, Field::State)));
        lemma_resolve_text_comm(current.state, first.state, second.state);
    }
    assert(once.zip == other.zip) by {
        assert(!(specifies(first, Field::Zip) && specifies(second, Field::Zip)));
        lemma_resolve_text_comm(current.zip, first.zip, second.zip);
    }
    assert(once.client_name == other.client_name) by {
        assert(!(specifies(first, Field::ClientName) && specifies(second, Field::ClientName)));
        lemma_resolve_text_comm(current.client_name, first.client_name, second.client_name);
    }
    assert(once.client_street_name == other.client_street_name) by {
        assert(!(specifies(first, Field::ClientStreetName) && specifies(
            second,
            Field::ClientStreetName,
        )));
        lemma_resolve_text_comm(current.client_street_name, first.client_street_name,
            second.client_street_name);
    }
    assert(once.client_city == other.client_city) by {
        assert(!(specifies(first, Field::ClientCity) && specifies(second, Field::ClientCity)));
        lemma_resolve_text_comm(current.client_city, first.client_city, second.client_city);
    }
    assert(once.client_state == other.client_state) by {
        assert(!(specifies(first, Field::ClientState) && specifies(second, Field::ClientState)));
        lemma_resolve_text_comm(current.client_state, first.client_state, second.client_state);
    }
    assert(once.client_zip == other.client_zip) by {
        assert(!(specifies(first, Field::ClientZip) && specifies(second, Field::ClientZip)));
        lemma_resolve_text_comm(current.client_zip, first.client_zip, second.client_zip);
    }
    assert(once.lca_title == other.lca_title) by {
        assert(!(specifies(first, Field::LcaTitle) && specifies(second, Field::LcaTitle)));
        lemma_resolve_text_comm(current.lca_title, first.lca_title, second.lca_title);
    }
    assert(once.lca_salary == other.lca_salary) by {
        assert(!(specifies(first, Field::LcaSalary) && specifies(second, Field::LcaSalary)));
        lemma_resolve_text_comm(current.lca_salary, first.lca_salary, second.lca_salary);
    }
    assert(once.lca_code == other.lca_code) by {
        assert(!(specifies(first, Field::LcaCode) && specifies(second, Field::LcaCode)));
        lemma_resolve_text_comm(current.lca_code, first.lca_code, second.lca_code);
    }
    assert(once.receipt_number == other.receipt_number) by {
        assert(!(specifies(first, Field::ReceiptNumber) && specifies(
            second,
            Field::ReceiptNumber,
        )));
        lemma_resolve_text_comm(current.receipt_number, first.receipt_number,
            second.receipt_number);
    }
    assert(once.h1b_start_date == other.h1b_start_date) by {
        assert(!(specifies(first, Field::H1bStartDate) && specifies(
            second,
            Field::H1bStartDate,
        )));
        lemma_resolve_text_comm(current.h1b_start_date, first.h1b_start_date,
            second.h1b_start_date);
    }
    assert(once.h1b_end_date == other.h1b_end_date) by {
        assert(!(specifies(first, Field::H1bEndDate) && specifies(second, Field::H1bEndDate)));
        lemma_resolve_text_comm(current.h1b_end_date, first.h1b_end_date, second.h1b_end_date);
    }
    assert(once.status == other.status) by {
        assert(!(specifies(first, Field::Status) && specifies(second, Field::Status)));
    }
}

} // verus!
