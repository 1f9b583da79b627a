use pcidss_oracle::model::{BankAccount, Timestamp};
use pcidss_oracle::seed::{
    dev_account_create, dev_account_expiration, seeded_as_requested, strip_hex_prefix, DevAccount,
};

fn alice() -> DevAccount {
    DevAccount {
        name: "Alice".to_string(),
        card_number: "4169812345678901".to_string(),
        card_cvv: "123".to_string(),
        balance: 1000,
        account_id: "0xd43593c715fdd31c61141abd04a99fd6822c8558854ccde39a5684e7a56da27d"
            .to_string(),
    }
}

fn created_for(account: &DevAccount, nonce: u32) -> BankAccount {
    BankAccount {
        id: 5,
        card_number: account.card_number.clone(),
        card_holder_first_name: account.name.clone(),
        card_holder_last_name: account.name.clone(),
        card_cvv: account.card_cvv.clone(),
        card_expiration_date: Timestamp { secs: 1_832_889_600, nanos: 0 },
        balance: account.balance,
        account_id: Some("d435".to_string()),
        nonce,
    }
}

#[test]
fn cards_are_valid_for_four_years() {
    let now = Timestamp { secs: 1_706_659_200, nanos: 0 };
    let expiration = dev_account_expiration(&"Alice".to_string(), now);
    assert_eq!(expiration, Some(Timestamp { secs: 1_832_889_600, nanos: 0 }));
}

#[test]
fn the_card_of_eve_expired_two_months_ago() {
    let now = Timestamp { secs: 1_706_659_200, nanos: 0 };
    let expiration = dev_account_expiration(&"Eve".to_string(), now);
    assert_eq!(expiration, Some(Timestamp { secs: 1_701_302_400, nanos: 0 }));
}

#[test]
fn expiration_keeps_the_time_of_day() {
    let now = Timestamp { secs: 1_735_689_599, nanos: 999_999_999 };
    let expiration = dev_account_expiration(&"Bob".to_string(), now);
    assert_eq!(expiration, Some(Timestamp { secs: 1_861_919_999, nanos: 999_999_999 }));
    let expiration = dev_account_expiration(&"Eve".to_string(), now);
    assert_eq!(expiration, Some(Timestamp { secs: 1_730_419_199, nanos: 999_999_999 }));
}

#[test]
fn expiration_falls_on_the_last_day_of_a_shorter_month() {
    let now = Timestamp { secs: 1_682_856_000, nanos: 0 };
    let expiration = dev_account_expiration(&"Eve".to_string(), now);
    assert_eq!(expiration, Some(Timestamp { secs: 1_677_585_600, nanos: 0 }));
    let expiration = dev_account_expiration(&"Dave".to_string(), now);
    assert_eq!(expiration, Some(Timestamp { secs: 1_809_086_400, nanos: 0 }));
}

#[test]
fn only_the_exact_name_has_the_expired_card() {
    let now = Timestamp { secs: 1_706_659_200, nanos: 0 };
    let valid = Some(Timestamp { secs: 1_832_889_600, nanos: 0 });
    assert_eq!(dev_account_expiration(&"eve".to_string(), now), valid);
    assert_eq!(dev_account_expiration(&"Eve ".to_string(), now), valid);
    assert_eq!(dev_account_expiration(&String::new(), now), valid);
}

#[test]
fn expiration_out_of_range_is_none() {
    let now = Timestamp { secs: i64::MAX, nanos: 0 };
    assert_eq!(dev_account_expiration(&"Alice".to_string(), now), None);
    let now = Timestamp { secs: 0, nanos: 2_000_000_000 };
    assert_eq!(dev_account_expiration(&"Eve".to_string(), now), None);
}

#[test]
fn hex_prefix_is_removed() {
    assert_eq!(strip_hex_prefix("0xd435"), "d435");
}

#[test]
fn repeated_hex_prefix_is_removed() {
    assert_eq!(strip_hex_prefix("0x0x0xab"), "ab");
}

#[test]
fn text_without_hex_prefix_is_kept() {
    assert_eq!(strip_hex_prefix("d435"), "d435");
    assert_eq!(strip_hex_prefix(""), "");
    assert_eq!(strip_hex_prefix("0"), "0");
    assert_eq!(strip_hex_prefix("x0x1"), "x0x1");
    assert_eq!(strip_hex_prefix("0Xab"), "0Xab");
    assert_eq!(strip_hex_prefix("a0x"), "a0x");
}

#[test]
fn hex_prefix_alone_leaves_nothing() {
    assert_eq!(strip_hex_prefix("0x"), "");
    assert_eq!(strip_hex_prefix("0x0"), "0");
}

#[test]
fn hex_prefix_before_other_characters() {
    assert_eq!(strip_hex_prefix("0x\u{e9}0x"), "\u{e9}0x");
}

#[test]
fn development_account_is_requested_as_configured() {
    let account = alice();
    let expiration = Timestamp { secs: 1_832_889_600, nanos: 7 };
    let create = dev_account_create(&account, 0x1234_5678_9abc_def0_u128, expiration);
    assert_eq!(create.id, 0x1234_5678_9abc_def0_u128);
    assert_eq!(create.card_number, "4169812345678901");
    assert_eq!(create.card_holder_first_name, "Alice");
    assert_eq!(create.card_holder_last_name, "Alice");
    assert_eq!(create.card_cvv, "123");
    assert_eq!(create.card_expiration_date, expiration);
    assert_eq!(create.balance, 1000);
    assert_eq!(
        create.account_id,
        Some("d43593c715fdd31c61141abd04a99fd6822c8558854ccde39a5684e7a56da27d".to_string())
    );
}

#[test]
fn created_account_is_checked_against_the_configuration() {
    let account = alice();
    assert!(seeded_as_requested(&created_for(&account, 0), &account));
}

#[test]
fn created_account_with_a_used_nonce_is_not_as_requested() {
    let account = alice();
    assert!(!seeded_as_requested(&created_for(&account, 1), &account));
}

#[test]
fn created_account_with_another_balance_or_card_is_not_as_requested() {
    let account = alice();
    let mut created = created_for(&account, 0);
    created.balance = 999;
    assert!(!seeded_as_requested(&created, &account));
    let mut created = created_for(&account, 0);
    created.card_number = "4169812345678902".to_string();
    assert!(!seeded_as_requested(&created, &account));
}
