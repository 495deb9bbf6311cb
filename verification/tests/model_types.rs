use kara::gui::Message;
use kara::intents::{Intent, IntentMapper, ParsedIntent, Range, Slot, Value};

#[test]
fn an_unclassified_intent_is_the_default() {
    let parsed = ParsedIntent::default();
    assert_eq!(parsed.input, "");
    assert_eq!(parsed.intent, IntentMapper { intent_name: None, confidence_score: 0 });
    assert!(parsed.slots.is_empty());
    assert!(parsed.alternatives.is_empty());
}

#[test]
fn slots_compare_field_by_field() {
    let slot = Slot {
        raw_value: String::from("the lights"),
        value: Value { kind: String::from("Custom"), value: String::from("lights") },
        alternatives: Vec::new(),
        range: Range { start: 8, end: 18 },
        entity: String::from("device"),
        slot_name: String::from("target"),
    };
    assert_eq!(slot, slot.clone());
    assert_ne!(slot.range, Range::default());
}

#[test]
fn intents_are_distinct_values() {
    assert_eq!(Intent::PlayMusic, Intent::PlayMusic);
    assert_ne!(Intent::PlayMusic, Intent::PlayRadio);
    let mapped = IntentMapper { intent_name: Some(Intent::IotHueLightOn), confidence_score: 750_000 };
    assert_eq!(mapped.intent_name, Some(Intent::IotHueLightOn));
}

#[test]
fn control_messages_carry_the_new_text() {
    let Message::TextChanged(text) = Message::TextChanged(String::from("listening"));
    assert_eq!(text, "listening");
}
