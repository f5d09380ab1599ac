use cards::checks::check_cvv;
use cards::checks::check_expiration_date;
use cards::checks::check_password;
use cards::checks::check_printed_name;
use cards::checks::parse_id;
use cards::domain::validate;
use cards::domain::Kind;
use cards::protocol::Card;

fn empty_card() -> Card {
    Card {
        id: "".to_string(),
        customer_id: "".to_string(),
        org_id: "".to_string(),
        program_id: "".to_string(),
        account_id: "".to_string(),
        printed_name: "".to_string(),
        password: "".to_string(),
        expiration_date: "".to_string(),
        issuing_date: "".to_string(),
        pan: "".to_string(),
        kind: "".to_string(),
        status: "".to_string(),
        cvv: "".to_string(),
    }
}

fn valid_card() -> Card {
    Card {
        customer_id: "a3643446-76fc-4516-8e43-bb6600ca118e".to_string(),
        org_id: "3ee15c70-b7b4-4b87-ba43-38eba70f98c4".to_string(),
        program_id: "c0a4cc71-5c11-43cb-b74f-2b577012449f".to_string(),
        account_id: "ba3df3ae-1da8-4b0a-be8c-e9f903d1f7de".to_string(),
        printed_name: "RICARDO MEDEIROS".to_string(),
        password: "321421".to_string(),
        expiration_date: "0724".to_string(),
        kind: "recurring".to_string(),
        cvv: "123".to_string(),
        ..empty_card()
    }
}

#[test]
fn validate_accepts_a_fully_valid_request() {
    let fields = validate(&valid_card()).unwrap();

    assert_eq!(fields.customer_id, "a3643446-76fc-4516-8e43-bb6600ca118e");
    assert_eq!(fields.org_id, "3ee15c70-b7b4-4b87-ba43-38eba70f98c4");
    assert_eq!(fields.program_id, "c0a4cc71-5c11-43cb-b74f-2b577012449f");
    assert_eq!(fields.account_id, "ba3df3ae-1da8-4b0a-be8c-e9f903d1f7de");
    assert_eq!(fields.printed_name, "RICARDO MEDEIROS");
    assert_eq!(fields.password, "321421");
    assert_eq!(fields.expiration_date, "0724");
    assert_eq!(fields.cvv, "123");
    assert_eq!(fields.kind, Kind::Recurring);
}

#[test]
fn validate_reports_the_first_field_of_an_empty_request() {
    let err = validate(&empty_card()).unwrap_err();

    assert_eq!(err.field_name(), "customer_id");
    assert_eq!(err.inputted_value(), "");
}

#[test]
fn parse_id_accepts_canonical_identifiers() {
    assert_eq!(
        parse_id("a3643446-76fc-4516-8e43-bb6600ca118e"),
        Some("a3643446-76fc-4516-8e43-bb6600ca118e".to_string())
    );
}

#[test]
fn parse_id_lowercases_hexadecimal_digits() {
    assert_eq!(
        parse_id("BA3DF3AE-1DA8-4B0A-BE8C-E9F903D1F7DE"),
        Some("ba3df3ae-1da8-4b0a-be8c-e9f903d1f7de".to_string())
    );
}

#[test]
fn parse_id_rejects_malformed_identifiers() {
    assert_eq!(parse_id(""), None);
    assert_eq!(parse_id("a3643446-76fc-4516-8e43-bb6600ca118"), None);
    assert_eq!(parse_id("a3643446x76fc-4516-8e43-bb6600ca118e"), None);
    assert_eq!(parse_id("g3643446-76fc-4516-8e43-bb6600ca118e"), None);
}

#[test]
fn printed_name_rule() {
    assert!(check_printed_name("RICARDO"));
    assert!(check_printed_name("RICARDO MEDEIROS"));
    assert!(!check_printed_name(""));
    assert!(!check_printed_name("R1CARDO"));
    assert!(!check_printed_name("RIÇARDO"));
    assert!(!check_printed_name("#RIC*RDO"));
}

#[test]
fn password_rule() {
    assert!(check_password("321421"));
    assert!(check_password("517412"));
    assert!(!check_password("0912C8"));
    assert!(!check_password("091261128"));
    assert!(!check_password(""));
}

#[test]
fn cvv_rule() {
    assert!(check_cvv("123"));
    assert!(check_cvv("1234"));
    assert!(!check_cvv("0B12"));
    assert!(!check_cvv("61112"));
    assert!(!check_cvv(""));
}

#[test]
fn expiration_date_rule() {
    assert!(check_expiration_date("0724"));
    assert!(check_expiration_date("1224"));
    assert!(!check_expiration_date(""));
    assert!(!check_expiration_date("ABCEFG"));
    assert!(!check_expiration_date("1300"));
}

#[test]
fn kind_parses_case_insensitively() {
    assert_eq!(Kind::from("PLASTIC"), Ok(Kind::Plastic));
    assert_eq!(Kind::from("plastic"), Ok(Kind::Plastic));
    assert_eq!(Kind::from("Recurring"), Ok(Kind::Recurring));
    assert_eq!(Kind::from("temporary"), Ok(Kind::Temporary));
}

#[test]
fn kind_rejects_unknown_descriptions() {
    assert_eq!(Kind::from("unknown"), Err("Unknown kind unknown".to_string()));
    assert_eq!(Kind::from(""), Err("Unknown kind ".to_string()));
}
