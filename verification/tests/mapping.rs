use pcidss_oracle::error::{map_domain_error, DomainError, ErrorCode};
use pcidss_oracle::gateway::OracleApiImpl;
use pcidss_oracle::model::{BankAccount, Direction, Timestamp, Transaction};
use pcidss_oracle::signature::PublicKey;

fn gateway() -> OracleApiImpl {
    OracleApiImpl::new(PublicKey([7u8; 32]))
}

fn account(id: u128, card_number: &str, balance: u32) -> BankAccount {
    BankAccount {
        id,
        card_number: card_number.to_string(),
        card_holder_first_name: "Grace".to_string(),
        card_holder_last_name: "Hopper".to_string(),
        card_cvv: "123".to_string(),
        card_expiration_date: Timestamp { secs: 1_900_000_000, nanos: 0 },
        balance,
        account_id: None,
        nonce: 3,
    }
}

fn transaction(id: u128, bank_account_id: u128, amount: u32) -> Transaction {
    Transaction {
        id,
        bank_account_id,
        amount,
        direction: Direction::Debit,
        timestamp: Timestamp { secs: 1_700_000_000, nanos: 5 },
    }
}

#[test]
fn api_error_maps_to_internal_error() {
    let err = DomainError::ApiError("upstream said no".to_string());
    assert_eq!(map_domain_error(&err), ErrorCode::InternalError);
}

#[test]
fn internal_server_error_maps_to_internal_error() {
    let err = DomainError::InternalServerError("disk full".to_string());
    assert_eq!(map_domain_error(&err), ErrorCode::InternalError);
}

#[test]
fn bad_request_maps_to_invalid_params() {
    let err = DomainError::BadRequest("field 4 missing".to_string());
    assert_eq!(map_domain_error(&err), ErrorCode::InvalidParams);
}

#[test]
fn not_found_maps_to_invalid_params() {
    let err = DomainError::NotFound("no such card".to_string());
    assert_eq!(map_domain_error(&err), ErrorCode::InvalidParams);
}

#[test]
fn code_does_not_depend_on_the_text() {
    let short = DomainError::ApiError(String::new());
    let long = DomainError::ApiError("x".repeat(1000));
    assert_eq!(map_domain_error(&short), map_domain_error(&long));
}

#[test]
fn submission_reaches_the_processor_unchanged() {
    let raw: Vec<u8> = vec![0x30, 0x31, 0x30, 0x30, 0x00, 0xff, 0x22, 0x5b];
    let submission = gateway().submit_iso8583(raw.clone());
    assert_eq!(submission.iso_msg, raw);
}

#[test]
fn malformed_submission_is_not_repaired() {
    let submission = gateway().submit_iso8583(Vec::new());
    assert_eq!(submission.iso_msg, Vec::<u8>::new());
}

#[test]
fn response_reaches_the_caller_unchanged() {
    let request: Vec<u8> = vec![1, 2, 3];
    let response: Vec<u8> = vec![0x30, 0x31, 0x31, 0x30, 0x00, 0x80, 0xfe];
    let submission = gateway().submit_iso8583(request);
    assert_eq!(submission.complete(Ok(response.clone())), Ok(response));
}

#[test]
fn a_response_fed_back_passes_through_again() {
    let first: Vec<u8> = vec![0x30, 0x31, 0x31, 0x30, 0x39, 0x39];
    let reply = gateway().submit_iso8583(vec![9, 9]).complete(Ok(first.clone())).unwrap();
    let again = gateway().submit_iso8583(reply);
    assert_eq!(again.iso_msg, first);
    assert_eq!(again.complete(Ok(first.clone())), Ok(first));
}

#[test]
fn processor_failures_are_mapped() {
    let cases = vec![
        (DomainError::ApiError("a".to_string()), ErrorCode::InternalError),
        (DomainError::InternalServerError("b".to_string()), ErrorCode::InternalError),
        (DomainError::BadRequest("c".to_string()), ErrorCode::InvalidParams),
        (DomainError::NotFound("d".to_string()), ErrorCode::InvalidParams),
    ];
    for (err, code) in cases {
        let submission = gateway().submit_iso8583(vec![1]);
        assert_eq!(submission.complete(Err(err)), Err(code));
    }
}

#[test]
fn bank_account_query_keeps_the_card_number() {
    let query = gateway().get_bank_account("4242424242424242".to_string());
    assert_eq!(query.card_number, "4242424242424242");
}

#[test]
fn bank_account_found_is_returned_whole() {
    let found = account(11, "4242424242424242", 900);
    let query = gateway().get_bank_account("4242424242424242".to_string());
    assert_eq!(query.complete(Ok(Some(found.clone()))), Ok(found));
}

#[test]
fn unknown_card_and_failed_lookup_look_the_same() {
    let unknown = gateway().get_bank_account("0000".to_string()).complete(Ok(None));
    let failed = gateway()
        .get_bank_account("0000".to_string())
        .complete(Err(DomainError::InternalServerError("connection lost".to_string())));
    assert_eq!(unknown, Err(ErrorCode::InvalidParams));
    assert_eq!(failed, Err(ErrorCode::InvalidParams));
    assert_eq!(unknown, failed);
}

#[test]
fn bank_account_lookup_failure_of_any_kind_is_invalid_params() {
    let kinds = vec![
        DomainError::ApiError("a".to_string()),
        DomainError::InternalServerError("b".to_string()),
        DomainError::BadRequest("c".to_string()),
        DomainError::NotFound("d".to_string()),
    ];
    for err in kinds {
        let reply = gateway().get_bank_account("1".to_string()).complete(Err(err));
        assert_eq!(reply, Err(ErrorCode::InvalidParams));
    }
}

#[test]
fn transactions_query_keeps_the_card_number() {
    let query = gateway().get_transactions("5555".to_string());
    assert_eq!(query.card_number, "5555");
}

#[test]
fn transactions_are_listed_for_the_account_of_the_card() {
    let query = gateway().get_transactions("5555".to_string());
    let listing = query.owner_found(Ok(Some(account(77, "5555", 10)))).unwrap();
    assert_eq!(listing.bank_account_id, 77);
}

#[test]
fn transactions_of_an_unknown_card_are_invalid_params() {
    let query = gateway().get_transactions("5555".to_string());
    assert_eq!(query.owner_found(Ok(None)).unwrap_err(), ErrorCode::InvalidParams);
}

#[test]
fn transactions_with_a_failed_account_lookup_are_invalid_params() {
    let query = gateway().get_transactions("5555".to_string());
    let next = query.owner_found(Err(DomainError::ApiError("down".to_string())));
    assert_eq!(next.unwrap_err(), ErrorCode::InvalidParams);
}

#[test]
fn transactions_come_back_in_the_order_of_the_store() {
    let listed = vec![transaction(3, 77, 30), transaction(1, 77, 10), transaction(2, 77, 20)];
    let listing = gateway()
        .get_transactions("5555".to_string())
        .owner_found(Ok(Some(account(77, "5555", 10))))
        .unwrap();
    assert_eq!(listing.complete(Ok(listed.clone())), Ok(listed));
}

#[test]
fn an_account_without_transactions_gives_an_empty_list() {
    let listing = gateway()
        .get_transactions("5555".to_string())
        .owner_found(Ok(Some(account(77, "5555", 10))))
        .unwrap();
    assert_eq!(listing.complete(Ok(Vec::new())), Ok(Vec::new()));
}

#[test]
fn listing_failures_are_mapped() {
    let cases = vec![
        (DomainError::ApiError("a".to_string()), ErrorCode::InternalError),
        (DomainError::InternalServerError("b".to_string()), ErrorCode::InternalError),
        (DomainError::BadRequest("c".to_string()), ErrorCode::InvalidParams),
        (DomainError::NotFound("d".to_string()), ErrorCode::InvalidParams),
    ];
    for (err, code) in cases {
        let listing = gateway()
            .get_transactions("5555".to_string())
            .owner_found(Ok(Some(account(77, "5555", 10))))
            .unwrap();
        assert_eq!(listing.complete(Err(err)), Err(code));
    }
}
