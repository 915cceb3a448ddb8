use rust_functions::handler::conclude_send;
use rust_functions::handler::plan_send;
use rust_functions::handler::skip_log_line;
use rust_functions::handler::store_failure_log_line;
use rust_functions::handler::SendPlan;
use rust_functions::handler::SkipReason;
use rust_functions::model::Arguments;
use rust_functions::model::MessageInput;
use rust_functions::model::ResolverInput;

fn full_input() -> MessageInput {
    MessageInput {
        message_type: "TEXT".to_string(),
        sender_id: "u1".to_string(),
        receiver_id: "u2".to_string(),
        text: Some("hi".to_string()),
        image: Some("https://x/y.png".to_string()),
        read: false,
    }
}

const FIXED_ID: &str = "24CtFf3hyVZHdSkQy0nMBa1OjOA";

#[test]
fn stores_full_input_with_projected_record() {
    let input = full_input();
    match plan_send(&input, FIXED_ID.to_string(), 1_700_000_000) {
        SendPlan::Store(rec, resp) => {
            assert_eq!(rec.pk, "MESSAGE#");
            assert_eq!(rec.sk, format!("MESSAGE#{}", FIXED_ID));
            assert_eq!(rec.id, FIXED_ID);
            assert_eq!(rec.message_type, "TEXT");
            assert_eq!(rec.sender_id, "u1");
            assert_eq!(rec.receiver_id, "u2");
            assert_eq!(rec.text, "hi");
            assert_eq!(rec.image, "https://x/y.png");
            assert!(!rec.read);
            assert_eq!(rec.created_on, "1700000000");
            assert_eq!(resp.id, FIXED_ID);
            assert_eq!(resp.message_type, "TEXT");
            assert_eq!(resp.sender_id, "u1");
            assert_eq!(resp.receiver_id, "u2");
            assert_eq!(resp.text.as_deref(), Some("hi"));
            assert_eq!(resp.image.as_deref(), Some("https://x/y.png"));
            assert!(!resp.read);
            assert_eq!(resp.created_on, 1_700_000_000);
        }
        SendPlan::Skip(_) => panic!("a full input must be stored"),
    }
}

#[test]
fn missing_text_skips_with_text_diagnostic() {
    let mut input = full_input();
    input.text = None;
    match plan_send(&input, FIXED_ID.to_string(), 1_700_000_000) {
        SendPlan::Skip(reason) => {
            assert!(matches!(reason, SkipReason::MissingText));
            assert_eq!(skip_log_line(&reason), "No message text provided");
        }
        SendPlan::Store(_, _) => panic!("an input without text must be skipped"),
    }
}

#[test]
fn missing_image_skips_with_image_diagnostic() {
    let mut input = full_input();
    input.image = None;
    match plan_send(&input, FIXED_ID.to_string(), 1_700_000_000) {
        SendPlan::Skip(reason) => {
            assert!(matches!(reason, SkipReason::MissingImage));
            assert_eq!(skip_log_line(&reason), "No image url provided");
        }
        SendPlan::Store(_, _) => panic!("an input without an image must be skipped"),
    }
}

#[test]
fn missing_both_reports_only_the_text_diagnostic() {
    let mut input = full_input();
    input.text = None;
    input.image = None;
    match plan_send(&input, FIXED_ID.to_string(), 1_700_000_000) {
        SendPlan::Skip(reason) => assert!(matches!(reason, SkipReason::MissingText)),
        SendPlan::Store(_, _) => panic!("an input without text must be skipped"),
    }
}

#[test]
fn store_failure_yields_empty_result_and_diagnostic() {
    let input = full_input();
    match plan_send(&input, FIXED_ID.to_string(), 1_700_000_000) {
        SendPlan::Store(_, resp) => {
            let out = conclude_send(resp, false);
            assert!(out.is_none());
        }
        SendPlan::Skip(_) => panic!("a full input must be stored"),
    }
    let line = store_failure_log_line("connection reset");
    assert!(line.contains("connection reset"));
    assert_eq!(line, "An error occured while sending message connection reset");
}

#[test]
fn store_success_returns_the_response() {
    let input = full_input();
    match plan_send(&input, FIXED_ID.to_string(), 1_700_000_000) {
        SendPlan::Store(_, resp) => {
            let id = resp.id.clone();
            let out = conclude_send(resp, true).expect("a successful put answers the response");
            assert_eq!(out.id, id);
        }
        SendPlan::Skip(_) => panic!("a full input must be stored"),
    }
}

#[test]
fn read_flag_is_stored_false_but_echoed_back() {
    let mut input = full_input();
    input.read = true;
    match plan_send(&input, FIXED_ID.to_string(), 1_700_000_000) {
        SendPlan::Store(rec, resp) => {
            assert!(!rec.read);
            assert!(resp.read);
        }
        SendPlan::Skip(_) => panic!("a full input must be stored"),
    }
}

#[test]
fn envelope_only_feeds_arguments_input_through() {
    let event = ResolverInput {
        arguments: Arguments { input: full_input() },
        field: "sendMessage".to_string(),
        source: None,
    };
    match rust_functions::handler::handle_event(&event) {
        SendPlan::Store(rec, resp) => {
            assert_eq!(rec.sender_id, "u1");
            assert_eq!(resp.receiver_id, "u2");
            assert_eq!(rec.sk, format!("MESSAGE#{}", resp.id));
        }
        SendPlan::Skip(_) => panic!("a full input must be stored"),
    }
}
