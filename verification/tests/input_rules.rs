use chat_widget::input::{is_submit_key, InputController};
use chat_widget::widget::Chat;

fn white_space(c: char) -> bool {
    matches!(
        c as u32,
        0x09..=0x0D
            | 0x20
            | 0x85
            | 0xA0
            | 0x1680
            | 0x2000..=0x200A
            | 0x2028
            | 0x2029
            | 0x202F
            | 0x205F
            | 0x3000
    )
}

fn captured(draft: &str) -> Option<String> {
    let mut input = InputController::new();
    input.set_draft(draft);
    input.begin()
}

#[test]
fn enter_without_shift_submits() {
    assert!(is_submit_key("Enter", false));
    assert!(!is_submit_key("Enter", true));
    assert!(!is_submit_key("enter", false));
    assert!(!is_submit_key("a", false));
    assert!(!is_submit_key("", false));
    assert!(!is_submit_key("Enter ", false));
}

#[test]
fn enter_key_sends_the_draft() {
    let mut chat = Chat::new("chat-model-1");
    chat.set_draft(" hi ");
    let answer = chat.on_key("Enter", false);
    assert!(answer.suppress_default);
    let request = answer.request.expect("Enter sends a draft with text");
    assert_eq!(request.messages.len(), 2);
    assert_eq!(request.messages[1].content, "hi");
    assert_eq!(chat.draft(), "");
    assert!(chat.is_busy());
}

#[test]
fn other_keys_change_nothing() {
    let mut chat = Chat::new("chat-model-1");
    chat.set_draft("hi");
    let answer = chat.on_key("Enter", true);
    assert!(!answer.suppress_default);
    assert!(answer.request.is_none());
    let answer = chat.on_key("h", false);
    assert!(!answer.suppress_default);
    assert!(answer.request.is_none());
    assert_eq!(chat.draft(), "hi");
    assert!(!chat.is_busy());
    assert_eq!(chat.len(), 1);
}

#[test]
fn enter_on_a_blank_draft_is_suppressed_and_sends_nothing() {
    let mut chat = Chat::new("chat-model-1");
    chat.set_draft("   ");
    let answer = chat.on_key("Enter", false);
    assert!(answer.suppress_default);
    assert!(answer.request.is_none());
    assert_eq!(chat.draft(), "   ");
    assert_eq!(chat.len(), 1);
}

#[test]
fn begin_hands_out_the_trimmed_draft_once() {
    let mut input = InputController::new();
    assert!(!input.can_submit());
    assert_eq!(input.begin(), None);
    input.set_draft("\t two words \n");
    assert!(input.can_submit());
    assert_eq!(input.begin(), Some("two words".to_string()));
    assert_eq!(input.draft(), "");
    assert!(input.is_busy());
    input.set_draft("next");
    assert!(!input.can_submit());
    assert_eq!(input.begin(), None);
    assert_eq!(input.draft(), "next");
    input.finish();
    assert!(!input.is_busy());
    assert_eq!(input.draft(), "next");
    assert_eq!(input.begin(), Some("next".to_string()));
}

#[test]
fn trimming_keeps_inner_white_space() {
    assert_eq!(captured("  a  b  "), Some("a  b".to_string()));
    assert_eq!(captured("a"), Some("a".to_string()));
    assert_eq!(captured(" a"), Some("a".to_string()));
    assert_eq!(captured("a "), Some("a".to_string()));
    assert_eq!(captured("\u{3000}\u{a0}caf\u{e9}\u{2028}\u{85}"), Some("caf\u{e9}".to_string()));
}

#[test]
fn zero_width_space_is_text() {
    assert_eq!(captured("\u{200b}"), Some("\u{200b}".to_string()));
    assert_eq!(captured(" \u{180e} "), Some("\u{180e}".to_string()));
    assert_eq!(captured("\u{1c}"), Some("\u{1c}".to_string()));
    assert_eq!(captured("\u{feff}x"), Some("\u{feff}x".to_string()));
}

#[test]
fn every_character_is_white_space_or_text() {
    let mut input = InputController::new();
    for code in 0u32..=0x10FFFF {
        if let Some(c) = char::from_u32(code) {
            let mut draft = String::new();
            draft.push(c);
            draft.push('x');
            draft.push(c);
            input.set_draft(&draft);
            let kept = input.begin().expect("the x is text");
            input.finish();
            if white_space(c) {
                assert_eq!(kept, "x", "U+{:04X}", code);
            } else {
                assert_eq!(kept, draft, "U+{:04X}", code);
            }
        }
    }
}

#[test]
fn trimming_twice_is_trimming_once() {
    for draft in ["  a  b  ", "x", "\t\u{2003}y z\u{3000}\n", " \u{200b} "] {
        let once = captured(draft).expect("there is text");
        assert_eq!(captured(&once), Some(once.clone()));
    }
}
