use healthchecks::ping::{
    create_config, default_user_agent, ConfigError, PingKind, PingReply, PingRequest,
    HEALTHCHECK_PING_URL, LIBRARY_NAME, LIBRARY_VERSION, REDIRECTS_FOLLOWED,
};
use std::cell::RefCell;

const SAMPLE: &str = "550e8400-e29b-41d4-a716-446655440000";

fn rejected(text: &str) -> bool {
    match create_config(text.to_owned(), None) {
        Ok(_) => false,
        Err(ConfigError::InvalidUuid(given)) => given == text,
    }
}

fn accepted(text: &str) -> bool {
    match create_config(text.to_owned(), None) {
        Ok(config) => config.uuid() == text,
        Err(_) => false,
    }
}

#[test]
fn valid_uuid_is_kept_as_given() {
    let config = create_config(SAMPLE.to_owned(), None).unwrap();
    assert_eq!(config.uuid(), SAMPLE);
}

#[test]
fn upper_case_digits_are_kept_as_given() {
    let text = "F9168C5E-CEB2-4FAA-B6BF-329BF39FA1E4";
    let config = create_config(text.to_owned(), None).unwrap();
    assert_eq!(config.uuid(), text);
    assert!(accepted("F9168C5E-CEB2-4faa-B6BF-329BF39FA1E4"));
}

#[test]
fn simple_form_is_accepted() {
    assert!(accepted("550e8400e29b41d4a716446655440000"));
    assert!(accepted("00000000000000000000000000000000"));
}

#[test]
fn urn_form_is_accepted() {
    assert!(accepted("urn:uuid:550e8400-e29b-41d4-a716-446655440000"));
}

#[test]
fn nil_uuid_is_accepted() {
    assert!(accepted("00000000-0000-0000-0000-000000000000"));
}

#[test]
fn not_a_uuid_is_rejected() {
    let made = create_config("not-a-uuid".to_owned(), None);
    assert_eq!(made.unwrap_err(), ConfigError::InvalidUuid("not-a-uuid".to_owned()));
}

#[test]
fn empty_string_is_rejected() {
    let made = create_config(String::new(), None);
    assert_eq!(made.unwrap_err(), ConfigError::InvalidUuid(String::new()));
}

#[test]
fn rejection_does_not_depend_on_the_user_agent() {
    let made = create_config("not-a-uuid".to_owned(), Some("agent/1".to_owned()));
    assert_eq!(made.unwrap_err(), ConfigError::InvalidUuid("not-a-uuid".to_owned()));
}

#[test]
fn wrong_lengths_are_rejected() {
    assert!(rejected("550e8400-e29b-41d4-a716-44665544000"));
    assert!(rejected("550e8400-e29b-41d4-a716-4466554400000"));
    assert!(rejected("550e8400e29b41d4a71644665544000"));
    assert!(rejected("550e8400e29b41d4a7164466554400000"));
    assert!(rejected("5"));
}

#[test]
fn foreign_characters_are_rejected() {
    assert!(rejected("550e8400-e29b-41d4-a716-44665544000g"));
    assert!(rejected("550e8400-e29b-41d4-a716-44665544000 "));
    assert!(rejected("g50e8400e29b41d4a716446655440000"));
    assert!(rejected("550e8400-e29b-41d4-a716-4466554400\u{e9}"));
    assert!(rejected("\u{e9}50e8400e29b41d4a71644665544000"));
}

#[test]
fn misplaced_hyphens_are_rejected() {
    assert!(rejected("550e840-0e29b-41d4-a716-446655440000"));
    assert!(rejected("550e8400-e29b-41d4-a7164-46655440000"));
    assert!(rejected("550e8400e29b41d4a716446655440000----"));
    assert!(rejected("----550e8400e29b41d4a716446655440000"));
    assert!(rejected("550e8400-e29b-41d4-a716446655440000-"));
    assert!(rejected("550e8400e29b-41d4-a716-446655440000"));
    assert!(rejected("550e8400-e29b41d4a71644665544000"));
}

#[test]
fn other_spellings_are_rejected() {
    assert!(rejected("{550e8400-e29b-41d4-a716-446655440000}"));
    assert!(rejected("URN:UUID:550e8400-e29b-41d4-a716-446655440000"));
    assert!(rejected("urn:uuid:550e8400e29b41d4a716446655440000"));
    assert!(rejected("urn:uuid:550e8400e29b41d4a716446655440000----"));
    assert!(rejected("urn-uuid:550e8400-e29b-41d4-a716-446655440000"));
    assert!(rejected(" 550e8400-e29b-41d4-a716-446655440000"));
}

#[test]
fn error_message_names_the_text() {
    let error = create_config("not-a-uuid".to_owned(), None).unwrap_err();
    assert_eq!(error.message(), "Invalid UUID: not-a-uuid");
    let error = create_config(String::new(), None).unwrap_err();
    assert_eq!(error.message(), "Invalid UUID: ");
}

#[test]
fn default_user_agent_is_name_and_version() {
    assert_eq!(default_user_agent(), "healthchecks/1.0.0");
    assert_eq!(default_user_agent(), format!("{}/{}", LIBRARY_NAME, LIBRARY_VERSION));
    assert!(default_user_agent().contains(LIBRARY_NAME));
    assert!(default_user_agent().contains(LIBRARY_VERSION));
    assert_eq!(default_user_agent(), default_user_agent());
}

#[test]
fn missing_user_agent_gives_the_default() {
    let config = create_config(SAMPLE.to_owned(), None).unwrap();
    assert_eq!(config.user_agent(), "healthchecks/1.0.0");
}

#[test]
fn supplied_user_agent_is_kept() {
    let config = create_config(SAMPLE.to_owned(), Some("cron-job/2.3".to_owned())).unwrap();
    assert_eq!(config.user_agent(), "cron-job/2.3");
    assert_eq!(config.uuid(), SAMPLE);
    let config = create_config(SAMPLE.to_owned(), Some(String::new())).unwrap();
    assert_eq!(config.user_agent(), "");
}

#[test]
fn ping_host_is_fixed() {
    assert_eq!(HEALTHCHECK_PING_URL, "https://hc-ping.com");
}

#[test]
fn suffixes_are_the_three() {
    assert_eq!(PingKind::Success.url_suffix(), "");
    assert_eq!(PingKind::Failure.url_suffix(), "/fail");
    assert_eq!(PingKind::Start.url_suffix(), "/start");
}

#[test]
fn success_goes_to_the_bare_identifier() {
    let config = create_config(SAMPLE.to_owned(), None).unwrap();
    let request = config.request(PingKind::Success);
    assert_eq!(request.url, "https://hc-ping.com/550e8400-e29b-41d4-a716-446655440000");
}

#[test]
fn failure_goes_to_fail() {
    let config = create_config(SAMPLE.to_owned(), None).unwrap();
    let request = config.request(PingKind::Failure);
    assert_eq!(request.url, "https://hc-ping.com/550e8400-e29b-41d4-a716-446655440000/fail");
}

#[test]
fn start_goes_to_start() {
    let config = create_config(SAMPLE.to_owned(), None).unwrap();
    let request = config.request(PingKind::Start);
    assert_eq!(request.url, "https://hc-ping.com/550e8400-e29b-41d4-a716-446655440000/start");
}

#[test]
fn url_holds_the_identifier_as_given() {
    let config = create_config("550E8400E29B41D4A716446655440000".to_owned(), None).unwrap();
    let request = config.request(PingKind::Start);
    assert_eq!(request.url, "https://hc-ping.com/550E8400E29B41D4A716446655440000/start");
}

#[test]
fn request_carries_the_user_agent() {
    let config = create_config(SAMPLE.to_owned(), Some("cron-job/2.3".to_owned())).unwrap();
    for kind in [PingKind::Success, PingKind::Failure, PingKind::Start] {
        assert_eq!(config.request(kind).user_agent, "cron-job/2.3");
    }
}

#[test]
fn status_200_is_acknowledged() {
    assert!(PingReply::Status(200).acknowledged());
}

#[test]
fn other_statuses_are_not_acknowledged() {
    for code in [0u16, 100, 199, 201, 204, 301, 302, 400, 404, 500, 503, u16::MAX] {
        assert!(!PingReply::Status(code).acknowledged());
    }
}

#[test]
fn failed_exchange_is_not_acknowledged() {
    assert!(!PingReply::Unreachable.acknowledged());
}

#[test]
fn request_follows_no_redirection() {
    assert_eq!(REDIRECTS_FOLLOWED, 0);
    let config = create_config(SAMPLE.to_owned(), None).unwrap();
    for kind in [PingKind::Success, PingKind::Failure, PingKind::Start] {
        assert_eq!(config.request(kind).redirects, 0);
    }
}

const SAMPLE_URLS: [&str; 3] = [
    "https://hc-ping.com/550e8400-e29b-41d4-a716-446655440000",
    "https://hc-ping.com/550e8400-e29b-41d4-a716-446655440000/fail",
    "https://hc-ping.com/550e8400-e29b-41d4-a716-446655440000/start",
];

fn answering_200_at(urls: &[&str], asked: &str) -> PingReply {
    if urls.contains(&asked) {
        PingReply::Status(200)
    } else {
        PingReply::Status(404)
    }
}

#[test]
fn transport_answering_200_acknowledges() {
    let config = create_config(SAMPLE.to_owned(), None).unwrap();
    for kind in [PingKind::Success, PingKind::Failure, PingKind::Start] {
        assert!(config.report_through(kind, |_: &PingRequest| PingReply::Status(200)));
        assert_eq!(
            config.ping_through(kind, |_: &PingRequest| PingReply::Status(200)),
            PingReply::Status(200)
        );
    }
}

#[test]
fn transport_answering_500_does_not_acknowledge() {
    let config = create_config(SAMPLE.to_owned(), None).unwrap();
    for kind in [PingKind::Success, PingKind::Failure, PingKind::Start] {
        assert!(!config.report_through(kind, |_: &PingRequest| PingReply::Status(500)));
        assert_eq!(
            config.ping_through(kind, |_: &PingRequest| PingReply::Status(500)),
            PingReply::Status(500)
        );
    }
}

#[test]
fn transport_answering_other_statuses_does_not_acknowledge() {
    let config = create_config(SAMPLE.to_owned(), None).unwrap();
    for code in [199u16, 201, 204, 301, 302, 404, 503] {
        assert!(!config.report_through(PingKind::Success, |_: &PingRequest| PingReply::Status(code)));
    }
}

#[test]
fn transport_that_fails_does_not_acknowledge() {
    let config = create_config(SAMPLE.to_owned(), None).unwrap();
    for kind in [PingKind::Success, PingKind::Failure, PingKind::Start] {
        assert!(!config.report_through(kind, |_: &PingRequest| PingReply::Unreachable));
        assert_eq!(
            config.ping_through(kind, |_: &PingRequest| PingReply::Unreachable),
            PingReply::Unreachable
        );
    }
}

#[test]
fn each_report_hands_over_one_request_to_its_url() {
    let config = create_config(SAMPLE.to_owned(), None).unwrap();
    let kinds = [PingKind::Success, PingKind::Failure, PingKind::Start];
    for (kind, url) in kinds.into_iter().zip(SAMPLE_URLS) {
        let seen: RefCell<Vec<PingRequest>> = RefCell::new(Vec::new());
        let ok = config.report_through(kind, |request: &PingRequest| {
            seen.borrow_mut().push(request.clone());
            PingReply::Status(200)
        });
        assert!(ok);
        let seen = seen.into_inner();
        assert_eq!(seen.len(), 1);
        assert_eq!(seen[0].url, url);
        assert_eq!(seen[0], config.request(kind));
    }
}

#[test]
fn report_is_acknowledged_only_at_its_own_url() {
    let config = create_config(SAMPLE.to_owned(), None).unwrap();
    let kinds = [PingKind::Success, PingKind::Failure, PingKind::Start];
    for (at, url) in SAMPLE_URLS.into_iter().enumerate() {
        for (asked, kind) in kinds.into_iter().enumerate() {
            let ok = config
                .report_through(kind, |request: &PingRequest| answering_200_at(&[url], &request.url));
            assert_eq!(ok, at == asked);
        }
    }
}

#[test]
fn supplied_user_agent_is_the_one_sent() {
    let config = create_config(SAMPLE.to_owned(), Some("my-agent/1.0".to_owned())).unwrap();
    for kind in [PingKind::Success, PingKind::Failure, PingKind::Start] {
        let seen: RefCell<Vec<String>> = RefCell::new(Vec::new());
        let ok = config.report_through(kind, |request: &PingRequest| {
            seen.borrow_mut().push(request.user_agent.clone());
            PingReply::Status(200)
        });
        assert!(ok);
        assert_eq!(seen.into_inner(), vec!["my-agent/1.0".to_owned()]);
    }
}

#[test]
fn reports_acknowledged_end_to_end() {
    let config = create_config(SAMPLE.to_owned(), None).unwrap();
    let seen: RefCell<Vec<PingRequest>> = RefCell::new(Vec::new());
    for kind in [PingKind::Success, PingKind::Failure, PingKind::Start] {
        let ok = config.report_through(kind, |request: &PingRequest| {
            seen.borrow_mut().push(request.clone());
            answering_200_at(&SAMPLE_URLS, &request.url)
        });
        assert!(ok);
    }
    let seen = seen.into_inner();
    assert_eq!(seen.len(), 3);
    for (request, url) in seen.iter().zip(SAMPLE_URLS) {
        assert_eq!(request.url, url);
        assert_eq!(request.user_agent, "healthchecks/1.0.0");
        assert_eq!(request.user_agent, default_user_agent());
    }
}

#[test]
fn report_to_a_failing_service_is_not_acknowledged() {
    let config = create_config(SAMPLE.to_owned(), None).unwrap();
    for kind in [PingKind::Success, PingKind::Failure, PingKind::Start] {
        let ok = config
            .report_through(kind, |request: &PingRequest| answering_200_at(&[], &request.url));
        assert!(!ok);
    }
}
