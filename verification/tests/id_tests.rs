use std::str::FromStr;

use rust_functions::codec::decimal_string;
use rust_functions::handler::begin_send;
use rust_functions::handler::SendPlan;
use rust_functions::ksuid::mint_message_id;
use rust_functions::model::MessageInput;
use svix_ksuid::Ksuid;
use svix_ksuid::KsuidLike;

fn full_input() -> MessageInput {
    MessageInput {
        message_type: "TEXT".to_string(),
        sender_id: "u1".to_string(),
        receiver_id: "u2".to_string(),
        text: Some("hi".to_string()),
        image: Some("https://x/y.png".to_string()),
        read: false,
    }
}

#[test]
fn minted_id_is_27_base62_characters() {
    let (id, _) = mint_message_id();
    assert_eq!(id.len(), 27);
    assert!(id.chars().all(|c| c.is_ascii_alphanumeric()));
}

#[test]
fn minted_created_on_equals_the_second_decoded_from_the_id() {
    let (id, created_on) = mint_message_id();
    let decoded = Ksuid::from_str(&id).expect("a minted id decodes");
    assert_eq!(decoded.timestamp_seconds(), created_on);
}

#[test]
fn stored_response_created_on_matches_its_id() {
    let input = full_input();
    match begin_send(&input) {
        SendPlan::Store(rec, resp) => {
            let decoded = Ksuid::from_str(&resp.id).expect("a minted id decodes");
            assert_eq!(decoded.timestamp_seconds(), resp.created_on);
            assert_eq!(rec.created_on, resp.created_on.to_string());
        }
        SendPlan::Skip(_) => panic!("a full input must be stored"),
    }
}

#[test]
fn ids_a_second_apart_sort_lexicographically() {
    let earlier = Ksuid::from_seconds(Some(1_700_000_000), None).to_string();
    let later = Ksuid::from_seconds(Some(1_700_000_001), None).to_string();
    assert!(earlier < later);
    let much_later = Ksuid::from_seconds(Some(1_900_000_000), None).to_string();
    assert!(later < much_later);
}

#[test]
fn decimal_string_renders_exact_values() {
    assert_eq!(decimal_string(0), "0");
    assert_eq!(decimal_string(7), "7");
    assert_eq!(decimal_string(10), "10");
    assert_eq!(decimal_string(1_400_000_000), "1400000000");
    assert_eq!(decimal_string(u64::MAX), "18446744073709551615");
}
