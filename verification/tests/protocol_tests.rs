use ytmdctrl::command::BaseArgs;
use ytmdctrl::command::Command;
use ytmdctrl::command::TargetArgs;
use ytmdctrl::interpret::interpret;
use ytmdctrl::protocol::CommandOutcome;
use ytmdctrl::protocol::DelayResolution;
use ytmdctrl::protocol::api_url;
use ytmdctrl::protocol::build_plan;
use ytmdctrl::protocol::classify;
use ytmdctrl::protocol::resolve_delay;
use ytmdctrl::token_store::TokenStore;

fn base(server: &str) -> BaseArgs {
    BaseArgs { delay: None, server_addr: String::from(server), script_mode: false }
}

#[test]
fn api_url_is_assembled_exactly() {
    assert_eq!(api_url("localhost", "state").as_str(), "http://localhost:9863/api/v1/state");
}

#[test]
fn read_command_plans_a_get_to_its_path() {
    let plan = build_plan(&Command::State(base("localhost")));
    assert!(plan.is_get);
    assert_eq!(plan.url.as_str(), "http://localhost:9863/api/v1/state");
    assert_eq!(plan.body.as_str(), "");
}

#[test]
fn write_command_plans_a_post_to_the_command_endpoint() {
    let cmd = Command::Volume(TargetArgs {
        target: String::from("40"),
        delay: None,
        server_addr: String::from("10.0.0.9"),
    });
    let plan = build_plan(&cmd);
    assert!(!plan.is_get);
    assert_eq!(plan.url.as_str(), "http://10.0.0.9:9863/api/v1/command");
    assert_eq!(plan.body.as_str(), "{\"command\":\"setVolume\", \"data\": 40}");
}

#[test]
fn no_delay_resolves_to_none() {
    assert!(matches!(resolve_delay(&Command::Play(base("localhost"))), DelayResolution::NoDelay));
}

#[test]
fn delay_text_resolves_to_a_span() {
    let mut args = base("localhost");
    args.delay = Some(String::from("3s"));
    match resolve_delay(&Command::Play(args)) {
        DelayResolution::Wait(s, n) => {
            assert_eq!(s, 3);
            assert_eq!(n, 0);
        }
        _ => panic!("a plain span must resolve"),
    }
    let mut args2 = base("localhost");
    args2.delay = Some(String::from("500ms"));
    match resolve_delay(&Command::Play(args2)) {
        DelayResolution::Wait(s, n) => {
            assert_eq!(s, 0);
            assert_eq!(n, 500_000_000);
        }
        _ => panic!("a subsecond span must resolve"),
    }
}

#[test]
fn malformed_delay_is_reported() {
    let mut args = base("localhost");
    args.delay = Some(String::from("soon-ish"));
    match resolve_delay(&Command::Play(args)) {
        DelayResolution::Malformed(m) => assert_eq!(m.as_str(), "soon-ish"),
        _ => panic!("an unparseable delay must be surfaced"),
    }
}

#[test]
fn status_200_is_success_with_the_body() {
    match classify(200, None, String::from("payload")) {
        CommandOutcome::Success { body } => assert_eq!(body.as_str(), "payload"),
        _ => panic!("200 is success"),
    }
    assert!(matches!(classify(204, None, String::new()), CommandOutcome::Success { .. }));
}

#[test]
fn status_429_is_rate_limited_with_the_header() {
    match classify(429, Some(String::from("12")), String::new()) {
        CommandOutcome::RateLimited { reset } => assert_eq!(reset.as_str(), "12"),
        _ => panic!("429 is rate limited"),
    }
}

#[test]
fn missing_reset_header_defaults_to_five() {
    match classify(429, None, String::new()) {
        CommandOutcome::RateLimited { reset } => assert_eq!(reset.as_str(), "5"),
        _ => panic!("429 is rate limited"),
    }
}

#[test]
fn unauthorized_error_body_is_recognized() {
    let o = classify(403, None, String::from("{\"error\":\"UNAUTHORIZED\"}"));
    assert!(matches!(o, CommandOutcome::Unauthorized));
}

#[test]
fn other_errors_keep_status_and_body() {
    match classify(500, None, String::from("{\"error\":\"BROKEN\"}")) {
        CommandOutcome::OtherFailure { status, body } => {
            assert_eq!(status, 500);
            assert_eq!(body.as_str(), "{\"error\":\"BROKEN\"}");
        }
        _ => panic!("500 is a plain failure"),
    }
}

#[test]
fn rate_limit_report_names_the_reset_and_keeps_the_token() {
    let mut store = TokenStore::new();
    store.insert("localhost", String::from("tok"));
    let o = classify(429, Some(String::from("12")), String::new());
    let r = interpret(&o, "localhost", &mut store);
    assert!(r.token_valid);
    assert!(!r.persist);
    assert!(!r.exit_failure);
    assert_eq!(r.notes[0].as_str(), "Rate limit exceeded");
    assert!(r.notes[1].contains("12"));
    assert_eq!(r.notes[1].as_str(), "Wait 12 seconds before submitting another request");
    assert_eq!(store.get("localhost").map(|t| t.as_str()), Some("tok"));
}

#[test]
fn unauthorized_report_evicts_exactly_one_entry() {
    let mut store = TokenStore::new();
    store.insert("localhost", String::from("t1"));
    store.insert("10.0.0.2", String::from("t2"));
    let o = classify(401, None, String::from("{\"error\":\"UNAUTHORIZED\"}"));
    let r = interpret(&o, "localhost", &mut store);
    assert!(!r.token_valid);
    assert!(r.persist);
    assert!(!r.exit_failure);
    assert!(store.get("localhost").is_none());
    assert_eq!(store.get("10.0.0.2").map(|t| t.as_str()), Some("t2"));
    assert_eq!(r.notes[0].as_str(), "Server says token is unauthorized, deleting token.");
}

#[test]
fn other_failure_report_pretty_prints_a_json_body() {
    let mut store = TokenStore::new();
    let o = classify(500, None, String::from("{\"a\":1}"));
    let r = interpret(&o, "localhost", &mut store);
    assert!(r.exit_failure);
    assert_eq!(r.notes[0].as_str(), "-- Response Body --");
    assert_eq!(r.notes[1].as_str(), "{\n  \"a\": 1\n}");
}

#[test]
fn other_failure_report_passes_a_raw_body_through() {
    let mut store = TokenStore::new();
    let o = classify(502, None, String::from("bad gateway"));
    let r = interpret(&o, "localhost", &mut store);
    assert!(r.exit_failure);
    assert_eq!(
        r.notes[0].as_str(),
        "-- Response Body (failed to parse json, unformatted) --"
    );
    assert_eq!(r.notes[1].as_str(), "bad gateway");
}

#[test]
fn success_report_is_silent() {
    let mut store = TokenStore::new();
    let o = classify(200, None, String::from("{}"));
    let r = interpret(&o, "localhost", &mut store);
    assert!(r.token_valid);
    assert!(!r.persist);
    assert!(!r.exit_failure);
    assert!(r.notes.is_empty());
}
