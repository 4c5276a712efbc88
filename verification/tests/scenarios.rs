use puniyu_adapter_console::classify::{classify_line, MessageKind};
use puniyu_adapter_console::element::{decode_elements, ContentElement};
use puniyu_adapter_console::ingest::{Action, Console, Phase, Signal};

fn feed(input: &str) -> Action {
    let mut console = Console::new("console", "puniyu");
    console.step(Signal::Line(input.to_string()))
}

fn kind_and_elements(action: Action) -> (MessageKind, Vec<ContentElement>) {
    match action {
        Action::Dispatch(event) => (event.kind(), event.elements),
        other => panic!("no event: {:?}", other),
    }
}

#[test]
fn scenario_hello() {
    assert_eq!(
        kind_and_elements(feed("hello")),
        (MessageKind::Friend, vec![ContentElement::Text("hello".to_string())])
    );
}

#[test]
fn scenario_group_text() {
    assert_eq!(
        kind_and_elements(feed("group:text:meeting at 5")),
        (MessageKind::Group, vec![ContentElement::Text("meeting at 5".to_string())])
    );
}

#[test]
fn scenario_friend_image() {
    assert_eq!(
        kind_and_elements(feed("friend:image:http://x/y.png")),
        (MessageKind::Friend, vec![ContentElement::Image("http://x/y.png".to_string())])
    );
}

#[test]
fn scenario_mention() {
    let (kind, content) = classify_line("at:12345");
    assert_eq!(kind, MessageKind::Friend);
    assert_eq!(content, "at:12345");
    assert_eq!(
        decode_elements(content, "puniyu"),
        vec![ContentElement::MentionTarget("12345".to_string())]
    );
    assert_eq!(
        kind_and_elements(feed("at:12345")),
        (MessageKind::Friend, vec![ContentElement::MentionTarget("12345".to_string())])
    );
}

#[test]
fn scenario_quit() {
    let mut console = Console::new("console", "puniyu");
    let action = console.step(Signal::Line("quit".to_string()));
    assert_eq!(action, Action::Exit);
    assert!(!matches!(action, Action::Dispatch(_)));
    assert_eq!(console.phase(), Phase::Terminating);
}

#[test]
fn scenario_group_unknown_subtype() {
    assert_eq!(
        kind_and_elements(feed("group:unknownsubtype:payload")),
        (MessageKind::Group, vec![ContentElement::Text("unknownsubtype:payload".to_string())])
    );
}
