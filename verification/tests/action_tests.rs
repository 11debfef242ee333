use you_should_not_pass::process::action::{
    pack_action, parse_request, read_request, unpadded_len, Action, DecodeError, Field,
};

#[test]
fn test_pack_action() {
    let parts = vec!["0", "my_password"];
    let action = pack_action(parts).unwrap();
    assert_eq!(
        action,
        Action::CheckIdentity {
            password: "my_password".to_string()
        }
    );

    let parts = vec!["1"];
    let action = pack_action(parts).unwrap();
    assert_eq!(action, Action::GetInfo);

    let parts = vec![
        "2",
        "my_account",
        "my_password",
        "my_site_url",
        "my_site_name",
        "my_note",
    ];
    let action = pack_action(parts).unwrap();
    assert_eq!(
        action,
        Action::AddWebsiteAccount {
            account: "my_account".to_string(),
            password: "my_password".to_string(),
            site_url: "my_site_url".to_string(),
            site_name: Some("my_site_name".to_string()),
            note: Some("my_note".to_string()),
        }
    );

    let parts = vec![
        "3",
        "1",
        "my_account",
        "my_password",
        "my_site_name",
        "my_site_url",
        "my_note",
    ];
    let action = pack_action(parts).unwrap();
    assert_eq!(
        action,
        Action::ChangeWebsiteAccount {
            id: 1,
            new_account: "my_account".to_string(),
            new_password: "my_password".to_string(),
            new_site_name: Some("my_site_name".to_string()),
            new_site_url: "my_site_url".to_string(),
            new_note: Some("my_note".to_string()),
        }
    );

    let parts = vec!["4", "1"];
    let action = pack_action(parts).unwrap();
    assert_eq!(action, Action::DeleteWebsiteAccount { website_id: 1 });

    let parts = vec!["5"];
    let action = pack_action(parts).unwrap();
    assert_eq!(action, Action::CheckDeadLink);
}

#[test]
fn add_request_with_all_fields_decodes() {
    let action = read_request(b"2\tacct1\tpw1\thttp://example.com\tName\tNote").unwrap();
    assert_eq!(
        action,
        Action::AddWebsiteAccount {
            account: "acct1".to_string(),
            password: "pw1".to_string(),
            site_url: "http://example.com".to_string(),
            site_name: Some("Name".to_string()),
            note: Some("Note".to_string()),
        }
    );
}

#[test]
fn add_request_with_three_fields_has_no_name_and_note() {
    let action = read_request(b"2\tacct\tpw\thttp://x.example").unwrap();
    assert_eq!(
        action,
        Action::AddWebsiteAccount {
            account: "acct".to_string(),
            password: "pw".to_string(),
            site_url: "http://x.example".to_string(),
            site_name: None,
            note: None,
        }
    );
}

#[test]
fn add_request_with_name_only_has_no_note() {
    let action = read_request(b"2\tacct\tpw\thttp://x.example\tName").unwrap();
    assert_eq!(
        action,
        Action::AddWebsiteAccount {
            account: "acct".to_string(),
            password: "pw".to_string(),
            site_url: "http://x.example".to_string(),
            site_name: Some("Name".to_string()),
            note: None,
        }
    );
}

#[test]
fn add_request_without_site_url_is_rejected() {
    assert_eq!(
        read_request(b"2\tacct\tpw"),
        Err(DecodeError::MissingField { field: Field::SiteUrl })
    );
}

#[test]
fn add_request_that_stops_early_wants_the_site_url() {
    assert_eq!(
        read_request(b"2\tacct"),
        Err(DecodeError::MissingField { field: Field::SiteUrl })
    );
    assert_eq!(
        read_request(b"2"),
        Err(DecodeError::MissingField { field: Field::SiteUrl })
    );
    assert_eq!(
        pack_action(vec!["2", "acct", "pw"]),
        Err(DecodeError::MissingField { field: Field::SiteUrl })
    );
}

#[test]
fn an_empty_trailing_field_is_present() {
    let action = read_request(b"2\tacct\tpw\turl\t\t").unwrap();
    assert_eq!(
        action,
        Action::AddWebsiteAccount {
            account: "acct".to_string(),
            password: "pw".to_string(),
            site_url: "url".to_string(),
            site_name: Some(String::new()),
            note: Some(String::new()),
        }
    );
}

#[test]
fn unknown_action_code_is_rejected() {
    assert_eq!(
        read_request(b"99"),
        Err(DecodeError::UnknownAction { code: 99 })
    );
    assert_eq!(
        read_request(b"6\tx"),
        Err(DecodeError::UnknownAction { code: 6 })
    );
    assert_eq!(
        read_request(b"-1"),
        Err(DecodeError::UnknownAction { code: -1 })
    );
}

#[test]
fn non_numeric_action_code_is_rejected() {
    assert_eq!(
        read_request(b"abc\tx"),
        Err(DecodeError::MalformedInteger { field: Field::ActionCode })
    );
    assert_eq!(
        read_request(b""),
        Err(DecodeError::MalformedInteger { field: Field::ActionCode })
    );
    assert_eq!(
        read_request(b" 1"),
        Err(DecodeError::MalformedInteger { field: Field::ActionCode })
    );
    assert_eq!(
        read_request(b"99999999999"),
        Err(DecodeError::MalformedInteger { field: Field::ActionCode })
    );
}

#[test]
fn delete_request_decodes() {
    assert_eq!(
        read_request(b"4\t7"),
        Ok(Action::DeleteWebsiteAccount { website_id: 7 })
    );
}

#[test]
fn delete_request_needs_a_numeric_id() {
    assert_eq!(
        read_request(b"4"),
        Err(DecodeError::MissingField { field: Field::WebsiteId })
    );
    assert_eq!(
        read_request(b"4\tseven"),
        Err(DecodeError::MalformedInteger { field: Field::WebsiteId })
    );
    assert_eq!(
        read_request(b"4\t"),
        Err(DecodeError::MalformedInteger { field: Field::WebsiteId })
    );
}

#[test]
fn check_identity_needs_a_password() {
    assert_eq!(
        read_request(b"0"),
        Err(DecodeError::MissingField { field: Field::Password })
    );
    assert_eq!(
        read_request(b"0\tsecret"),
        Ok(Action::CheckIdentity { password: "secret".to_string() })
    );
}

#[test]
fn change_request_puts_site_name_before_site_url() {
    let action = read_request(b"3\t12\tacct\tpw\tName\thttp://x.example").unwrap();
    assert_eq!(
        action,
        Action::ChangeWebsiteAccount {
            id: 12,
            new_account: "acct".to_string(),
            new_password: "pw".to_string(),
            new_site_name: Some("Name".to_string()),
            new_site_url: "http://x.example".to_string(),
            new_note: None,
        }
    );
}

#[test]
fn change_request_reports_what_is_missing_in_order() {
    assert_eq!(
        read_request(b"3"),
        Err(DecodeError::MissingField { field: Field::WebsiteId })
    );
    assert_eq!(
        read_request(b"3\tx"),
        Err(DecodeError::MalformedInteger { field: Field::WebsiteId })
    );
    assert_eq!(
        read_request(b"3\t1"),
        Err(DecodeError::MissingField { field: Field::Account })
    );
    assert_eq!(
        read_request(b"3\t1\ta"),
        Err(DecodeError::MissingField { field: Field::Password })
    );
    assert_eq!(
        read_request(b"3\t1\ta\tp"),
        Err(DecodeError::MissingField { field: Field::SiteUrl })
    );
    assert_eq!(
        read_request(b"3\t1\ta\tp\tname"),
        Err(DecodeError::MissingField { field: Field::SiteUrl })
    );
}

#[test]
fn list_and_check_requests_ignore_further_fields() {
    assert_eq!(read_request(b"1"), Ok(Action::GetInfo));
    assert_eq!(read_request(b"1\tjunk"), Ok(Action::GetInfo));
    assert_eq!(read_request(b"5"), Ok(Action::CheckDeadLink));
}

#[test]
fn zero_padding_is_dropped() {
    let mut buffer = vec![0u8; 4096];
    let request = b"4\t7";
    buffer[..request.len()].copy_from_slice(request);
    assert_eq!(unpadded_len(&buffer), 3);
    assert_eq!(
        read_request(&buffer),
        Ok(Action::DeleteWebsiteAccount { website_id: 7 })
    );
    assert_eq!(unpadded_len(&[0u8; 16]), 0);
    assert_eq!(unpadded_len(&[]), 0);
    assert_eq!(unpadded_len(&[1, 0, 2, 0, 0]), 3);
}

#[test]
fn only_trailing_zero_bytes_are_padding() {
    let action = read_request(b"0\tpa\0ss\0\0").unwrap();
    assert_eq!(
        action,
        Action::CheckIdentity { password: "pa\0ss".to_string() }
    );
}

#[test]
fn invalid_utf8_is_replaced() {
    let action = read_request(b"0\tp\xffw").unwrap();
    assert_eq!(
        action,
        Action::CheckIdentity { password: "p\u{fffd}w".to_string() }
    );
}

#[test]
fn multibyte_text_survives() {
    let action = read_request("0\tpässwörd".as_bytes()).unwrap();
    assert_eq!(
        action,
        Action::CheckIdentity { password: "pässwörd".to_string() }
    );
}

#[test]
fn request_text_is_decoded_as_the_buffer_is() {
    assert_eq!(
        parse_request("4\t-12"),
        Ok(Action::DeleteWebsiteAccount { website_id: -12 })
    );
    assert_eq!(
        parse_request("4\t+12"),
        Ok(Action::DeleteWebsiteAccount { website_id: 12 })
    );
}
