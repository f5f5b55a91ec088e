use chat_widget::dispatch::{
    build_request, classify, decode_apology_text, extract_text, find_text_block,
    generic_apology_text, reply_message, reply_text, status_is_success, ApiResponse, ContentBlock,
    Outcome,
};
use chat_widget::facts::{
    classify_fact, fact_message, fact_text, DogFactAttributes, DogFactData, DogFactResponse,
    FactOutcome,
};

const GENERIC: &str = "I apologize, but I encountered an error.";
const UNREADABLE: &str = "I apologize, but I encountered an error processing your request.";
use chat_widget::message::{copy_messages, Message};
use chat_widget::store::ConversationStore;

fn block(kind: &str, text: Option<&str>) -> ContentBlock {
    ContentBlock { content_type: kind.to_string(), text: text.map(|t| t.to_string()) }
}

fn response(blocks: Vec<ContentBlock>) -> ApiResponse {
    ApiResponse { content: blocks }
}

fn fact(body: &str) -> DogFactData {
    DogFactData { attributes: DogFactAttributes { body: body.to_string() } }
}

#[test]
fn first_text_block_is_found_by_its_tag() {
    assert_eq!(find_text_block(&response(vec![])), None);
    assert_eq!(find_text_block(&response(vec![block("image", None)])), None);
    assert_eq!(find_text_block(&response(vec![block("Text", Some("x"))])), None);
    assert_eq!(find_text_block(&response(vec![block("text", Some("x"))])), Some(0));
    assert_eq!(
        find_text_block(&response(vec![
            block("image", Some("caption")),
            block("tool_use", None),
            block("text", Some("x")),
            block("text", Some("y")),
        ])),
        Some(2)
    );
}

#[test]
fn extraction_stops_at_the_first_text_block() {
    let r = response(vec![block("image", None), block("text", Some("a")), block("text", Some("b"))]);
    assert_eq!(extract_text(&r), Some("a".to_string()));
    let r = response(vec![block("text", None), block("text", Some("later"))]);
    assert_eq!(extract_text(&r), None);
    let r = response(vec![block("image", Some("not this"))]);
    assert_eq!(extract_text(&r), None);
    let r = response(vec![block("text", Some(""))]);
    assert_eq!(extract_text(&r), Some(String::new()));
}

#[test]
fn reply_text_for_each_outcome() {
    assert_eq!(reply_text(&Outcome::TransportFailure), GENERIC);
    assert_eq!(reply_text(&Outcome::DecodeFailure), UNREADABLE);
    assert_eq!(
        reply_text(&Outcome::Reply(response(vec![block("text", None), block("text", Some("b"))]))),
        GENERIC
    );
    assert_eq!(
        reply_text(&Outcome::Reply(response(vec![block("image", None), block("text", Some("b"))]))),
        "b"
    );
}

#[test]
fn reply_message_speaks_as_the_assistant() {
    let m = reply_message(&Outcome::Reply(response(vec![block("text", Some("Hi there"))])));
    assert_eq!(m.role, "assistant");
    assert_eq!(m.content, "Hi there");
    let m = reply_message(&Outcome::TransportFailure);
    assert_eq!(m.role, "assistant");
}

#[test]
fn request_has_the_fixed_parameters_and_every_message() {
    let history = vec![Message::new("Asistent", "Kako?"), Message::new("user", "x")];
    let request = build_request("chat-model-1", &history);
    assert_eq!(request.model, "chat-model-1");
    assert_eq!(request.max_tokens, 1000);
    assert_eq!(request.messages.len(), 2);
    assert_eq!(request.messages[0].role, "Asistent");
    assert_eq!(request.messages[0].content, "Kako?");
    assert_eq!(request.messages[1].role, "user");
    assert_eq!(request.messages[1].content, "x");
    let empty = build_request("", &Vec::new());
    assert_eq!(empty.model, "");
    assert_eq!(empty.max_tokens, 1000);
    assert!(empty.messages.is_empty());
}

#[test]
fn copies_keep_order_and_texts() {
    let source = vec![Message::new("a", "1"), Message::new("b", "2"), Message::new("a", "3")];
    let copy = copy_messages(&source);
    assert_eq!(copy.len(), 3);
    for (x, y) in source.iter().zip(copy.iter()) {
        assert_eq!(x.role, y.role);
        assert_eq!(x.content, y.content);
    }
    let one = source[1].clone();
    assert_eq!(one.role, "b");
    assert_eq!(one.content, "2");
}

#[test]
fn fact_is_the_first_of_the_reply() {
    let outcome = FactOutcome::Reply(DogFactResponse { data: vec![fact("Dogs dream."), fact("Two")] });
    assert_eq!(fact_text(&outcome), "Dogs dream.");
    let m = fact_message(&outcome);
    assert_eq!(m.role, "API");
    assert_eq!(m.content, "Dogs dream.");
}

#[test]
fn failed_fetch_gives_the_apology_of_its_kind() {
    assert_eq!(fact_text(&FactOutcome::TransportFailure), GENERIC);
    assert_eq!(fact_text(&FactOutcome::DecodeFailure), UNREADABLE);
    assert_ne!(fact_text(&FactOutcome::TransportFailure), fact_text(&FactOutcome::DecodeFailure));
    assert_eq!(fact_text(&FactOutcome::Reply(DogFactResponse { data: vec![] })), GENERIC);
    let m = fact_message(&FactOutcome::DecodeFailure);
    assert_eq!(m.role, "API");
    assert_eq!(m.content, UNREADABLE);
    let m = fact_message(&FactOutcome::TransportFailure);
    assert_eq!(m.role, "API");
    assert_eq!(m.content, GENERIC);
}

#[test]
fn apologies_are_the_two_fixed_texts() {
    assert_eq!(generic_apology_text(), GENERIC);
    assert_eq!(decode_apology_text(), UNREADABLE);
}

#[test]
fn successful_statuses_are_200_to_299() {
    for code in 0u16..=u16::MAX {
        assert_eq!(status_is_success(code), (200..300).contains(&code), "{}", code);
    }
}

#[test]
fn round_trip_is_classified_by_status_then_body() {
    let body = || Some(response(vec![block("text", Some("Hi there"))]));
    assert!(matches!(classify(None, None), Outcome::TransportFailure));
    assert!(matches!(classify(None, body()), Outcome::TransportFailure));
    for code in [0u16, 100, 199, 300, 301, 404, 500, 503, u16::MAX] {
        assert!(matches!(classify(Some(code), body()), Outcome::TransportFailure), "{}", code);
        assert!(matches!(classify(Some(code), None), Outcome::TransportFailure), "{}", code);
        assert_eq!(reply_text(&classify(Some(code), body())), GENERIC);
    }
    for code in [200u16, 201, 204, 299] {
        assert!(matches!(classify(Some(code), None), Outcome::DecodeFailure), "{}", code);
        assert_eq!(reply_text(&classify(Some(code), None)), UNREADABLE);
        match classify(Some(code), body()) {
            Outcome::Reply(r) => {
                assert_eq!(r.content.len(), 1);
                assert_eq!(r.content[0].content_type, "text");
                assert_eq!(r.content[0].text, Some("Hi there".to_string()));
            }
            _ => panic!("a served request with a readable body is a reply"),
        }
        assert_eq!(reply_text(&classify(Some(code), body())), "Hi there");
    }
}

#[test]
fn fetch_is_classified_by_status_then_body() {
    let body = || Some(DogFactResponse { data: vec![fact("Dogs dream."), fact("Two")] });
    assert!(matches!(classify_fact(None, None), FactOutcome::TransportFailure));
    assert!(matches!(classify_fact(None, body()), FactOutcome::TransportFailure));
    for code in [0u16, 199, 300, 404, 500] {
        assert!(matches!(classify_fact(Some(code), body()), FactOutcome::TransportFailure));
        assert_eq!(fact_text(&classify_fact(Some(code), body())), GENERIC);
    }
    for code in [200u16, 299] {
        assert!(matches!(classify_fact(Some(code), None), FactOutcome::DecodeFailure));
        assert_eq!(fact_text(&classify_fact(Some(code), None)), UNREADABLE);
        match classify_fact(Some(code), body()) {
            FactOutcome::Reply(r) => {
                assert_eq!(r.data.len(), 2);
                assert_eq!(r.data[0].attributes.body, "Dogs dream.");
                assert_eq!(r.data[1].attributes.body, "Two");
            }
            _ => panic!("a served request with a readable body is a reply"),
        }
        assert_eq!(fact_text(&classify_fact(Some(code), body())), "Dogs dream.");
        let empty = Some(DogFactResponse { data: vec![] });
        assert_eq!(fact_text(&classify_fact(Some(code), empty)), GENERIC);
    }
}

#[test]
fn failed_fetch_adds_one_apology_to_the_store() {
    let mut store = ConversationStore::new();
    let before = store.len();
    store.append(fact_message(&classify_fact(None, None)));
    assert_eq!(store.len(), before + 1);
    let seen = store.snapshot();
    assert_eq!(seen[0].role, "Asistent");
    assert_eq!(seen[before].role, "API");
    assert_eq!(seen[before].content, GENERIC);
    store.append(fact_message(&classify_fact(Some(200), None)));
    assert_eq!(store.len(), before + 2);
    assert_eq!(store.snapshot()[before + 1].content, UNREADABLE);
}

#[test]
fn store_appends_at_the_end() {
    let mut store = ConversationStore::new();
    assert_eq!(store.len(), 1);
    store.append(fact_message(&FactOutcome::Reply(DogFactResponse { data: vec![fact("One")] })));
    store.append(fact_message(&FactOutcome::TransportFailure));
    assert_eq!(store.len(), 3);
    let seen = store.snapshot();
    assert_eq!(seen[0].role, "Asistent");
    assert_eq!(seen[0].content, "Kako mogu da ti pomognem?");
    assert_eq!(seen[1].content, "One");
    assert_eq!(seen[2].content, GENERIC);
    assert_eq!(store.messages().len(), 3);
    assert_eq!(store.messages()[1].role, "API");
}
