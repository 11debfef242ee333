use you_should_not_pass::db::get_all_id_and_url;
use you_should_not_pass::db::models::{WebsiteAccount, WebsiteAccountWithDeadLink};
use you_should_not_pass::process::answer_request;
use you_should_not_pass::process::check_dead_link::{
    check_dead_link, check_dead_link_info, is_dead_link, sites_to_probe, urls_to_probe,
    ProbeOutcome,
};
use you_should_not_pass::process::process_result::ProOk;

#[test]
fn test_check_dead_link() {
    let url_list = vec![
        ("https://www.baidu.com".to_string(), 1),
        ("https://www.not_exist.not_exist".to_string(), 2),
    ];
    let outcomes = vec![
        ProbeOutcome::Answered { status: 200 },
        ProbeOutcome::Unreachable,
    ];
    let result = check_dead_link(url_list, outcomes);
    assert_eq!(result.len(), 2);
    for (id, is_dead_link) in result {
        if id == 1 {
            assert!(!is_dead_link);
        } else if id == 2 {
            assert!(is_dead_link);
        } else {
            panic!("unexpected id: {}", id);
        }
    }
}

#[test]
fn test_check_dead_link_info() {
    let mut list = vec![];
    let account1 = WebsiteAccount {
        id: Some(1),
        account: "test_account".to_string(),
        password: "test_password".to_string(),
        site_url: "https://www.baidu.com".to_string(),
        site_name: Some("baidu".to_string()),
        note: Some("nothing".to_string()),
    };
    let account2 = WebsiteAccount {
        id: Some(2),
        account: "test_account".to_string(),
        password: "test_password".to_string(),
        site_url: "https://www.baidu.com".to_string(),
        site_name: Some("baidu".to_string()),
        note: Some("nothing".to_string()),
    };
    let account3 = WebsiteAccount {
        id: Some(3),
        account: "test_account".to_string(),
        password: "test_password".to_string(),
        site_url: "https://www.not_exist.not_exist".to_string(),
        site_name: Some("baidu".to_string()),
        note: Some("nothing".to_string()),
    };
    list.push(account1);
    list.push(account2);
    list.push(account3);

    let outcomes = vec![
        ProbeOutcome::Answered { status: 200 },
        ProbeOutcome::Answered { status: 200 },
        ProbeOutcome::Unreachable,
    ];
    let result = check_dead_link_info(list, outcomes);

    assert_eq!(result.len(), 3);
    for item in result {
        match item.id {
            Some(1) | Some(2) => {
                assert!(!item.dead_link);
            }
            Some(3) => {
                assert!(item.dead_link);
            }
            _ => {
                panic!("unexpected id: {:?}", item.id);
            }
        }
    }
}

#[test]
fn success_status_is_alive_and_everything_else_dead() {
    assert!(!is_dead_link(ProbeOutcome::Answered { status: 200 }));
    assert!(!is_dead_link(ProbeOutcome::Answered { status: 204 }));
    assert!(!is_dead_link(ProbeOutcome::Answered { status: 299 }));
    assert!(is_dead_link(ProbeOutcome::Answered { status: 199 }));
    assert!(is_dead_link(ProbeOutcome::Answered { status: 300 }));
    assert!(is_dead_link(ProbeOutcome::Answered { status: 301 }));
    assert!(is_dead_link(ProbeOutcome::Answered { status: 400 }));
    assert!(is_dead_link(ProbeOutcome::Answered { status: 404 }));
    assert!(is_dead_link(ProbeOutcome::Answered { status: 499 }));
    assert!(is_dead_link(ProbeOutcome::Answered { status: 500 }));
    assert!(is_dead_link(ProbeOutcome::Answered { status: 503 }));
    assert!(is_dead_link(ProbeOutcome::Answered { status: 599 }));
    assert!(is_dead_link(ProbeOutcome::Unreachable));
}

#[test]
fn report_keeps_every_entry_with_its_identifier() {
    let url_list = vec![
        ("https://c.example".to_string(), 30),
        ("https://a.example".to_string(), 10),
        ("https://a.example".to_string(), 20),
        ("https://b.example".to_string(), -4),
    ];
    let outcomes = vec![
        ProbeOutcome::Answered { status: 500 },
        ProbeOutcome::Answered { status: 200 },
        ProbeOutcome::Unreachable,
        ProbeOutcome::Answered { status: 201 },
    ];
    assert_eq!(
        check_dead_link(url_list, outcomes),
        vec![(30, true), (10, false), (20, true), (-4, false)]
    );
    assert_eq!(check_dead_link(vec![], vec![]), vec![]);
}

#[test]
fn two_entry_report_is_written_in_input_order() {
    let url_list = vec![
        ("https://ok.example".to_string(), 1),
        ("https://nonexistent.invalid".to_string(), 2),
    ];
    let outcomes = vec![
        ProbeOutcome::Answered { status: 200 },
        ProbeOutcome::Unreachable,
    ];
    let report = check_dead_link(url_list, outcomes);
    assert_eq!(report, vec![(1, false), (2, true)]);
    assert_eq!(answer_request(&Ok(ProOk::DeadLink(report))), "2\n1\t1\n2\t0");
}

#[test]
fn listing_keeps_the_records_unchanged() {
    let first = WebsiteAccount {
        id: None,
        account: "a".to_string(),
        password: "p".to_string(),
        site_url: "u".to_string(),
        site_name: None,
        note: Some("n".to_string()),
    };
    let listing = check_dead_link_info(
        vec![first],
        vec![ProbeOutcome::Answered { status: 404 }],
    );
    assert_eq!(
        listing,
        vec![WebsiteAccountWithDeadLink {
            id: None,
            account: "a".to_string(),
            password: "p".to_string(),
            site_url: "u".to_string(),
            site_name: None,
            note: Some("n".to_string()),
            dead_link: true,
        }]
    );
}

#[test]
fn every_entry_is_probed_once_in_order() {
    let pairs = vec![
        ("https://a.example".to_string(), 1),
        ("https://a.example".to_string(), 2),
        ("https://b.example".to_string(), 3),
    ];
    assert_eq!(
        urls_to_probe(&pairs),
        vec!["https://a.example", "https://a.example", "https://b.example"]
    );
    let accounts = vec![WebsiteAccount {
        id: Some(1),
        account: "a".to_string(),
        password: "p".to_string(),
        site_url: "https://s.example".to_string(),
        site_name: None,
        note: None,
    }];
    assert_eq!(sites_to_probe(&accounts), vec!["https://s.example"]);
}

#[test]
fn rows_without_identifier_are_left_out() {
    let rows = vec![
        ("u1".to_string(), Some(1)),
        ("u2".to_string(), None),
        ("u3".to_string(), Some(3)),
        ("u4".to_string(), None),
    ];
    assert_eq!(
        get_all_id_and_url(rows),
        vec![("u1".to_string(), 1), ("u3".to_string(), 3)]
    );
    assert_eq!(get_all_id_and_url(vec![]), vec![]);
}
