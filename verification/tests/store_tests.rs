//! Store operations on concrete tables: point and filtered reads, keyed
//! writes, the merge protocol's not-found short-circuit, and the idempotent
//! status transitions.

use visa_case_core::record::{AddressFields, ClientFields, FullFields, UpdatePayload, VisaCase};
use visa_case_core::status::CaseStatus;
use visa_case_core::store::{
    interpret_conditional_flip, FlipOutcome, InsertOutcome, Store, WriteOutcome,
};

fn case(id: &str, email: &str, login: &str, status: CaseStatus) -> VisaCase {
    VisaCase {
        customer_id: id.to_string(),
        email: email.to_string(),
        login_email: login.to_string(),
        first_name: "First".to_string(),
        last_name: "Last".to_string(),
        dob: "1990-01-01".to_string(),
        sex: "Other".to_string(),
        marital_status: "Single".to_string(),
        phone: "555-0000".to_string(),
        emergency_contact_name: "EC".to_string(),
        emergency_contact_phone: "555-0001".to_string(),
        employment_start_date: "2020-01-01".to_string(),
        street_name: "Street".to_string(),
        city: "City".to_string(),
        state: "ST".to_string(),
        zip: "00000".to_string(),
        client_name: "Client".to_string(),
        client_street_name: "CStreet".to_string(),
        client_city: "CCity".to_string(),
        client_state: "CS".to_string(),
        client_zip: "11111".to_string(),
        lca_title: "Title".to_string(),
        lca_salary: "100000.00".to_string(),
        lca_code: "00-0000".to_string(),
        receipt_number: "R0".to_string(),
        h1b_start_date: "2023-01-01".to_string(),
        h1b_end_date: "2026-01-01".to_string(),
        status,
    }
}

fn no_update() -> UpdatePayload {
    UpdatePayload::empty()
}

#[test]
fn insert_then_fetch_finds_the_row() {
    let mut store = Store::new();
    assert_eq!(store.len(), 0);
    let outcome = store.insert(case("a", "a@x.com", "a@login", CaseStatus::Active));
    assert_eq!(outcome, InsertOutcome::Inserted);
    assert_eq!(store.len(), 1);
    let row = store.fetch_one(&"a".to_string()).expect("row must exist");
    assert_eq!(row.email, "a@x.com");
}

#[test]
fn insert_duplicate_key_is_rejected() {
    let mut store = Store::new();
    store.insert(case("a", "a@x.com", "a@login", CaseStatus::Active));
    let outcome = store.insert(case("a", "b@x.com", "b@login", CaseStatus::Active));
    assert_eq!(outcome, InsertOutcome::DuplicateKey);
    assert_eq!(store.len(), 1);
    // The original row is untouched.
    let row = store.fetch_one(&"a".to_string()).expect("row must exist");
    assert_eq!(row.email, "a@x.com");
}

#[test]
fn fetch_absent_key_is_none() {
    let store = Store::new();
    assert!(store.fetch_one(&"missing".to_string()).is_none());
}

#[test]
fn merge_against_missing_key_writes_nothing() {
    let mut store = Store::new();
    store.insert(case("a", "a@x.com", "a@login", CaseStatus::Active));
    let mut update = no_update();
    update.city = Some("Dallas".to_string());
    let outcome = store.merge_update(&"missing".to_string(), update);
    assert_eq!(outcome, WriteOutcome::NotFound);
    // No write happened anywhere.
    assert_eq!(store.len(), 1);
    let row = store.fetch_one(&"a".to_string()).expect("row must exist");
    assert_eq!(row.city, "City");
}

#[test]
fn activate_twice_is_idempotent() {
    let mut store = Store::new();
    store.insert(case("a", "a@x.com", "a@login", CaseStatus::Inactive));
    let key = "a".to_string();

    let first = store.activate(&key);
    assert_eq!(first, FlipOutcome::Changed);
    assert_eq!(store.fetch_one(&key).unwrap().status, CaseStatus::Active);

    let second = store.activate(&key);
    assert_eq!(second, FlipOutcome::AlreadyInState);
    assert_eq!(store.fetch_one(&key).unwrap().status, CaseStatus::Active);
}

#[test]
fn activate_missing_key_reports_not_found() {
    let mut store = Store::new();
    assert_eq!(store.activate(&"nope".to_string()), FlipOutcome::NotFound);
}

#[test]
fn deactivate_is_soft_deletion() {
    let mut store = Store::new();
    store.insert(case("a", "a@x.com", "a@login", CaseStatus::Active));
    let key = "a".to_string();
    assert_eq!(store.deactivate(&key), FlipOutcome::Changed);
    // The row still exists, only its status changed.
    let row = store.fetch_one(&key).expect("row must exist");
    assert_eq!(row.status, CaseStatus::Inactive);
    assert_eq!(store.deactivate(&key), FlipOutcome::AlreadyInState);
}

#[test]
fn deactivate_by_email_counts_matched_rows() {
    let mut store = Store::new();
    store.insert(case("a", "shared@x.com", "a@login", CaseStatus::Active));
    store.insert(case("b", "other@x.com", "b@login", CaseStatus::Active));
    store.insert(case("c", "shared@x.com", "c@login", CaseStatus::Inactive));
    let count = store.deactivate_by_email(&"shared@x.com".to_string());
    // Both matching rows count, whatever status they already had.
    assert_eq!(count, 2);
    assert_eq!(store.fetch_one(&"a".to_string()).unwrap().status, CaseStatus::Inactive);
    assert_eq!(store.fetch_one(&"b".to_string()).unwrap().status, CaseStatus::Active);
    assert_eq!(store.fetch_one(&"c".to_string()).unwrap().status, CaseStatus::Inactive);
}

#[test]
fn deactivate_by_email_without_match_counts_zero() {
    let mut store = Store::new();
    store.insert(case("a", "a@x.com", "a@login", CaseStatus::Active));
    assert_eq!(store.deactivate_by_email(&"none@x.com".to_string()), 0);
    assert_eq!(store.fetch_one(&"a".to_string()).unwrap().status, CaseStatus::Active);
}

#[test]
fn write_full_rewrites_all_but_key_and_status() {
    let mut store = Store::new();
    store.insert(case("a", "a@x.com", "a@login", CaseStatus::Inactive));
    let fields = FullFields {
        email: "new@x.com".to_string(),
        first_name: "N1".to_string(),
        last_name: "N2".to_string(),
        dob: "1991-02-02".to_string(),
        sex: "X".to_string(),
        marital_status: "Married".to_string(),
        phone: "555-9999".to_string(),
        emergency_contact_name: "N3".to_string(),
        emergency_contact_phone: "555-9998".to_string(),
        employment_start_date: "2022-02-02".to_string(),
        street_name: "NS".to_string(),
        city: "NC".to_string(),
        state: "NS".to_string(),
        zip: "99999".to_string(),
        client_name: "NCl".to_string(),
        client_street_name: "NCS".to_string(),
        client_city: "NCC".to_string(),
        client_state: "NC".to_string(),
        client_zip: "88888".to_string(),
        lca_title: "NT".to_string(),
        lca_salary: "150000.00".to_string(),
        lca_code: "99-9999".to_string(),
        receipt_number: "R9".to_string(),
        h1b_start_date: "2024-02-02".to_string(),
        h1b_end_date: "2027-02-02".to_string(),
        login_email: "new@login".to_string(),
    };
    let outcome = store.write_full(&"a".to_string(), fields);
    assert_eq!(outcome, WriteOutcome::Updated);
    let row = store.fetch_one(&"a".to_string()).expect("row must exist");
    assert_eq!(row.customer_id, "a");
    assert_eq!(row.status, CaseStatus::Inactive);
    assert_eq!(row.email, "new@x.com");
    assert_eq!(row.login_email, "new@login");
    assert_eq!(row.lca_salary, "150000.00");
}

#[test]
fn write_full_missing_key_affects_zero_rows() {
    let mut store = Store::new();
    let fields = FullFields {
        email: String::new(),
        first_name: String::new(),
        last_name: String::new(),
        dob: String::new(),
        sex: String::new(),
        marital_status: String::new(),
        phone: String::new(),
        emergency_contact_name: String::new(),
        emergency_contact_phone: String::new(),
        employment_start_date: String::new(),
        street_name: String::new(),
        city: String::new(),
        state: String::new(),
        zip: String::new(),
        client_name: String::new(),
        client_street_name: String::new(),
        client_city: String::new(),
        client_state: String::new(),
        client_zip: String::new(),
        lca_title: String::new(),
        lca_salary: String::new(),
        lca_code: String::new(),
        receipt_number: String::new(),
        h1b_start_date: String::new(),
        h1b_end_date: String::new(),
        login_email: String::new(),
    };
    assert_eq!(store.write_full(&"nope".to_string(), fields), WriteOutcome::NotFound);
}

#[test]
fn write_address_touches_only_the_address() {
    let mut store = Store::new();
    store.insert(case("a", "a@x.com", "a@login", CaseStatus::Active));
    let fields = AddressFields {
        street_name: "New Street".to_string(),
        city: "New City".to_string(),
        state: "NW".to_string(),
        zip: "54321".to_string(),
    };
    assert_eq!(store.write_address(&"a".to_string(), fields), WriteOutcome::Updated);
    let row = store.fetch_one(&"a".to_string()).expect("row must exist");
    assert_eq!(row.street_name, "New Street");
    assert_eq!(row.city, "New City");
    assert_eq!(row.state, "NW");
    assert_eq!(row.zip, "54321");
    assert_eq!(row.email, "a@x.com");
    assert_eq!(row.client_city, "CCity");
}

#[test]
fn write_client_touches_engagement_and_status() {
    let mut store = Store::new();
    store.insert(case("a", "a@x.com", "a@login", CaseStatus::Active));
    let fields = ClientFields {
        client_name: "New Client".to_string(),
        client_street_name: "NCS".to_string(),
        client_city: "NCC".to_string(),
        client_state: "NC".to_string(),
        client_zip: "22222".to_string(),
        lca_title: "New Title".to_string(),
        lca_salary: "175000.00".to_string(),
        lca_code: "11-1111".to_string(),
        receipt_number: "R1".to_string(),
        h1b_start_date: "2025-01-01".to_string(),
        h1b_end_date: "2028-01-01".to_string(),
        status: CaseStatus::Inactive,
    };
    assert_eq!(store.write_client(&"a".to_string(), fields), WriteOutcome::Updated);
    let row = store.fetch_one(&"a".to_string()).expect("row must exist");
    assert_eq!(row.client_name, "New Client");
    assert_eq!(row.status, CaseStatus::Inactive);
    assert_eq!(row.first_name, "First");
    assert_eq!(row.street_name, "Street");
}

#[test]
fn fetch_all_returns_every_row_in_order() {
    let mut store = Store::new();
    store.insert(case("a", "a@x.com", "a@login", CaseStatus::Active));
    store.insert(case("b", "b@x.com", "b@login", CaseStatus::Inactive));
    let all = store.fetch_all();
    assert_eq!(all.len(), 2);
    assert_eq!(all[0].customer_id, "a");
    assert_eq!(all[1].customer_id, "b");
}

#[test]
fn fetch_active_filters_by_status() {
    let mut store = Store::new();
    store.insert(case("a", "a@x.com", "a@login", CaseStatus::Active));
    store.insert(case("b", "b@x.com", "b@login", CaseStatus::Inactive));
    store.insert(case("c", "c@x.com", "c@login", CaseStatus::Active));
    let active = store.fetch_active();
    assert_eq!(active.len(), 2);
    assert_eq!(active[0].customer_id, "a");
    assert_eq!(active[1].customer_id, "c");
}

#[test]
fn fetch_by_contact_matches_either_email() {
    let mut store = Store::new();
    store.insert(case("a", "hit@x.com", "a@login", CaseStatus::Active));
    store.insert(case("b", "b@x.com", "hit@x.com", CaseStatus::Inactive));
    store.insert(case("c", "c@x.com", "c@login", CaseStatus::Active));
    let found = store.fetch_by_contact(&"hit@x.com".to_string());
    assert_eq!(found.len(), 2);
    assert_eq!(found[0].customer_id, "a");
    assert_eq!(found[1].customer_id, "b");
    let none = store.fetch_by_contact(&"miss@x.com".to_string());
    assert!(none.is_empty());
}

#[test]
fn fetch_by_login_requires_active() {
    let mut store = Store::new();
    store.insert(case("a", "a@x.com", "hit@login", CaseStatus::Active));
    store.insert(case("b", "b@x.com", "hit@login2", CaseStatus::Inactive));
    store.insert(case("c", "c@x.com", "hit@login", CaseStatus::Inactive));
    let found = store.fetch_by_login_active(&"hit@login".to_string());
    assert_eq!(found.len(), 1);
    assert_eq!(found[0].customer_id, "a");
}

#[test]
fn conditional_flip_row_count_is_the_signal() {
    assert_eq!(interpret_conditional_flip(1, true), FlipOutcome::Changed);
    assert_eq!(interpret_conditional_flip(0, true), FlipOutcome::AlreadyInState);
    assert_eq!(interpret_conditional_flip(0, false), FlipOutcome::NotFound);
}

#[test]
fn fetch_one_active_hides_inactive_rows() {
    let mut store = Store::new();
    store.insert(case("a", "a@x.com", "a@login", CaseStatus::Inactive));
    assert!(store.fetch_one_active(&"a".to_string()).is_none());
    store.activate(&"a".to_string());
    assert!(store.fetch_one_active(&"a".to_string()).is_some());
}
