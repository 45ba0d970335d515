//! Merge-resolution behavior on concrete rows and payloads.

use visa_case_core::merge::resolve_update;
use visa_case_core::record::{UpdatePayload, VisaCase};
use visa_case_core::status::CaseStatus;
use visa_case_core::store::{Store, WriteOutcome};

fn sample_case(id: &str) -> VisaCase {
    VisaCase {
        customer_id: id.to_string(),
        email: "ada@example.com".to_string(),
        login_email: "ada.login@example.com".to_string(),
        first_name: "Ada".to_string(),
        last_name: "Lovelace".to_string(),
        dob: "1815-12-10".to_string(),
        sex: "Female".to_string(),
        marital_status: "Married".to_string(),
        phone: "555-0100".to_string(),
        emergency_contact_name: "Charles".to_string(),
        emergency_contact_phone: "555-0101".to_string(),
        employment_start_date: "2021-01-04".to_string(),
        street_name: "1 Analytical Way".to_string(),
        city: "Austin".to_string(),
        state: "TX".to_string(),
        zip: "73301".to_string(),
        client_name: "Engine Works".to_string(),
        client_street_name: "2 Difference St".to_string(),
        client_city: "Houston".to_string(),
        client_state: "TX".to_string(),
        client_zip: "77001".to_string(),
        lca_title: "Engineer".to_string(),
        lca_salary: "120000.00".to_string(),
        lca_code: "17-2061".to_string(),
        receipt_number: "WAC1234567890".to_string(),
        h1b_start_date: "2023-10-01".to_string(),
        h1b_end_date: "2026-09-30".to_string(),
        status: CaseStatus::Active,
    }
}

fn empty_payload() -> UpdatePayload {
    UpdatePayload::empty()
}

fn full_payload() -> UpdatePayload {
    UpdatePayload {
        first_name: Some("Grace".to_string()),
        last_name: Some("Hopper".to_string()),
        dob: Some("1906-12-09".to_string()),
        sex: Some("Female".to_string()),
        marital_status: Some("Single".to_string()),
        phone: Some("555-0200".to_string()),
        emergency_contact_name: Some("Howard".to_string()),
        emergency_contact_phone: Some("555-0201".to_string()),
        employment_start_date: Some("2020-06-01".to_string()),
        street_name: Some("3 Compiler Ct".to_string()),
        city: Some("Arlington".to_string()),
        state: Some("VA".to_string()),
        zip: Some("22201".to_string()),
        client_name: Some("Navy Labs".to_string()),
        client_street_name: Some("4 Harbor Rd".to_string()),
        client_city: Some("Norfolk".to_string()),
        client_state: Some("VA".to_string()),
        client_zip: Some("23501".to_string()),
        lca_title: Some("Rear Admiral".to_string()),
        lca_salary: Some("180000.00".to_string()),
        lca_code: Some("11-9199".to_string()),
        receipt_number: Some("EAC0987654321".to_string()),
        h1b_start_date: Some("2024-01-01".to_string()),
        h1b_end_date: Some("2027-01-01".to_string()),
        status: Some(CaseStatus::Inactive),
    }
}

#[test]
fn merge_preserves_omitted_fields() {
    let row = sample_case("c-1");
    let mut update = empty_payload();
    update.city = Some("Dallas".to_string());
    update.phone = Some("555-0300".to_string());
    let merged = resolve_update(row, update);
    // The two specified fields take the payload's values.
    assert_eq!(merged.city, "Dallas");
    assert_eq!(merged.phone, "555-0300");
    // Every omitted field is byte-for-byte what it was.
    let original = sample_case("c-1");
    assert_eq!(merged.customer_id, original.customer_id);
    assert_eq!(merged.email, original.email);
    assert_eq!(merged.login_email, original.login_email);
    assert_eq!(merged.first_name, original.first_name);
    assert_eq!(merged.last_name, original.last_name);
    assert_eq!(merged.dob, original.dob);
    assert_eq!(merged.sex, original.sex);
    assert_eq!(merged.marital_status, original.marital_status);
    assert_eq!(merged.emergency_contact_name, original.emergency_contact_name);
    assert_eq!(merged.emergency_contact_phone, original.emergency_contact_phone);
    assert_eq!(merged.employment_start_date, original.employment_start_date);
    assert_eq!(merged.street_name, original.street_name);
    assert_eq!(merged.state, original.state);
    assert_eq!(merged.zip, original.zip);
    assert_eq!(merged.client_name, original.client_name);
    assert_eq!(merged.client_street_name, original.client_street_name);
    assert_eq!(merged.client_city, original.client_city);
    assert_eq!(merged.client_state, original.client_state);
    assert_eq!(merged.client_zip, original.client_zip);
    assert_eq!(merged.lca_title, original.lca_title);
    assert_eq!(merged.lca_salary, original.lca_salary);
    assert_eq!(merged.lca_code, original.lca_code);
    assert_eq!(merged.receipt_number, original.receipt_number);
    assert_eq!(merged.h1b_start_date, original.h1b_start_date);
    assert_eq!(merged.h1b_end_date, original.h1b_end_date);
    assert_eq!(merged.status, original.status);
}

#[test]
fn merge_empty_payload_changes_nothing() {
    let row = sample_case("c-2");
    let merged = resolve_update(row, empty_payload());
    assert_eq!(merged, sample_case("c-2"));
}

#[test]
fn merge_full_payload_overwrites_everything_mutable() {
    let row = sample_case("c-3");
    let merged = resolve_update(row, full_payload());
    assert_eq!(merged.customer_id, "c-3");
    // The two secondary keys are not part of the payload and stay.
    assert_eq!(merged.email, "ada@example.com");
    assert_eq!(merged.login_email, "ada.login@example.com");
    assert_eq!(merged.first_name, "Grace");
    assert_eq!(merged.last_name, "Hopper");
    assert_eq!(merged.dob, "1906-12-09");
    assert_eq!(merged.marital_status, "Single");
    assert_eq!(merged.phone, "555-0200");
    assert_eq!(merged.emergency_contact_name, "Howard");
    assert_eq!(merged.emergency_contact_phone, "555-0201");
    assert_eq!(merged.employment_start_date, "2020-06-01");
    assert_eq!(merged.street_name, "3 Compiler Ct");
    assert_eq!(merged.city, "Arlington");
    assert_eq!(merged.state, "VA");
    assert_eq!(merged.zip, "22201");
    assert_eq!(merged.client_name, "Navy Labs");
    assert_eq!(merged.client_street_name, "4 Harbor Rd");
    assert_eq!(merged.client_city, "Norfolk");
    assert_eq!(merged.client_state, "VA");
    assert_eq!(merged.client_zip, "23501");
    assert_eq!(merged.lca_title, "Rear Admiral");
    assert_eq!(merged.lca_salary, "180000.00");
    assert_eq!(merged.lca_code, "11-9199");
    assert_eq!(merged.receipt_number, "EAC0987654321");
    assert_eq!(merged.h1b_start_date, "2024-01-01");
    assert_eq!(merged.h1b_end_date, "2027-01-01");
    assert_eq!(merged.status, CaseStatus::Inactive);
}

#[test]
fn concurrent_disjoint_updates_both_survive() {
    // Row {status: Active, city: "Austin"}; update A sends city "Dallas",
    // update B sends state "TX"; under the locked protocol the two merges
    // serialize, and both must be visible afterwards.
    let mut store = Store::new();
    let mut row = sample_case("c-7");
    row.state = "OK".to_string();
    store.insert(row);
    let key = "c-7".to_string();

    let mut update_a = empty_payload();
    update_a.city = Some("Dallas".to_string());
    let mut update_b = empty_payload();
    update_b.state = Some("TX".to_string());

    assert_eq!(store.merge_update(&key, update_a), WriteOutcome::Updated);
    assert_eq!(store.merge_update(&key, update_b), WriteOutcome::Updated);

    let row = store.fetch_one(&key).expect("row must exist");
    assert_eq!(row.status, CaseStatus::Active);
    assert_eq!(row.city, "Dallas");
    assert_eq!(row.state, "TX");
    // Fields neither update touched are unchanged.
    assert_eq!(row.first_name, "Ada");
}

#[test]
fn disjoint_updates_commute() {
    let key = "c-8".to_string();
    let mut update_a = empty_payload();
    update_a.city = Some("Dallas".to_string());
    let mut update_b = empty_payload();
    update_b.state = Some("TX".to_string());

    let mut store_ab = Store::new();
    store_ab.insert(sample_case("c-8"));
    store_ab.merge_update(&key, update_a);
    store_ab.merge_update(&key, update_b);

    let mut update_a = empty_payload();
    update_a.city = Some("Dallas".to_string());
    let mut update_b = empty_payload();
    update_b.state = Some("TX".to_string());

    let mut store_ba = Store::new();
    store_ba.insert(sample_case("c-8"));
    store_ba.merge_update(&key, update_b);
    store_ba.merge_update(&key, update_a);

    assert_eq!(store_ab.fetch_one(&key), store_ba.fetch_one(&key));
}
