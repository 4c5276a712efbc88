use puniyu_adapter_console::account::{local_account, BOT_ID};
use puniyu_adapter_console::classify::MessageKind;
use puniyu_adapter_console::element::ContentElement;
use puniyu_adapter_console::event::{
    assemble, make_contact, make_sender, Contact, Role, Sender, Sex, SENDER_AGE,
};
use puniyu_adapter_console::ident::IdGenerator;

fn one_text(s: &str) -> Vec<ContentElement> {
    vec![ContentElement::Text(s.to_string())]
}

#[test]
fn group_contact_and_sender() {
    assert_eq!(
        make_contact(MessageKind::Group, "puniyu"),
        Contact::Group { id: "puniyu".to_string(), name: "puniyu".to_string() }
    );
    assert_eq!(
        make_sender(MessageKind::Group, "puniyu"),
        Sender::GroupSender {
            user_id: "puniyu".to_string(),
            nickname: "puniyu".to_string(),
            sex: Sex::Unknown,
            age: 0,
            role: Role::Member,
        }
    );
}

#[test]
fn friend_contact_and_sender() {
    assert_eq!(
        make_contact(MessageKind::Friend, "puniyu"),
        Contact::Friend { id: "puniyu".to_string(), name: "puniyu".to_string() }
    );
    assert_eq!(
        make_sender(MessageKind::Friend, "puniyu"),
        Sender::FriendSender {
            user_id: "puniyu".to_string(),
            nickname: "puniyu".to_string(),
            sex: Sex::Unknown,
            age: 0,
        }
    );
    assert_eq!(SENDER_AGE, 0);
}

#[test]
fn assembled_group_event_has_every_field() {
    let mut ids = IdGenerator::new();
    let event = assemble(MessageKind::Group, one_text("hi"), "console", "puniyu", &mut ids);
    assert_eq!(event.event_id, 0);
    assert_eq!(event.message_id, 0);
    assert_eq!(event.message_id_str, "0");
    assert_eq!(event.bot_id, "console");
    assert_eq!(event.sender_id, "console");
    assert_eq!(event.sender_name, "puniyu");
    assert_eq!(event.contact, make_contact(MessageKind::Group, "puniyu"));
    assert_eq!(event.sender, make_sender(MessageKind::Group, "puniyu"));
    assert_eq!(event.elements, one_text("hi"));
    assert_eq!(event.kind(), MessageKind::Group);
}

#[test]
fn assembled_friend_event_has_every_field() {
    let mut ids = IdGenerator::new();
    let event = assemble(MessageKind::Friend, one_text("hi"), "console", "puniyu", &mut ids);
    assert_eq!(event.bot_id, "console");
    assert_eq!(event.sender_id, "console");
    assert_eq!(event.sender_name, "puniyu");
    assert_eq!(event.contact, make_contact(MessageKind::Friend, "puniyu"));
    assert_eq!(event.sender, make_sender(MessageKind::Friend, "puniyu"));
    assert_eq!(event.kind(), MessageKind::Friend);
}

#[test]
fn assemble_draws_one_identifier_of_each_counter() {
    let mut ids = IdGenerator::new();
    assert_eq!(ids.next_event_id(), 0);
    assert_eq!(ids.next_event_id(), 1);
    let first = assemble(MessageKind::Friend, one_text("a"), "console", "n", &mut ids);
    assert_eq!((first.event_id, first.message_id), (2, 0));
    let second = assemble(MessageKind::Group, one_text("b"), "console", "n", &mut ids);
    assert_eq!((second.event_id, second.message_id), (3, 1));
    assert_eq!(second.message_id_str, "1");
    assert_eq!(ids.next_event_id(), 4);
    assert_eq!(ids.next_message_id(), 2);
}

#[test]
fn message_identifier_is_written_in_base_ten() {
    let mut ids = IdGenerator::new();
    for _ in 0..123 {
        ids.next_message_id();
    }
    let event = assemble(MessageKind::Friend, one_text("a"), "console", "n", &mut ids);
    assert_eq!(event.message_id, 123);
    assert_eq!(event.message_id_str, "123");
}

#[test]
fn events_do_not_share_elements() {
    let mut ids = IdGenerator::new();
    let elements = one_text("same");
    let first = assemble(MessageKind::Friend, elements.clone(), "console", "n", &mut ids);
    let mut second = assemble(MessageKind::Friend, elements, "console", "n", &mut ids);
    second.elements[0] = ContentElement::Text("changed".to_string());
    assert_eq!(first.elements, one_text("same"));
    assert_eq!(second.elements, one_text("changed"));
}

#[test]
fn local_account_is_console() {
    assert_eq!(BOT_ID, "console");
    let account = local_account("puniyu");
    assert_eq!(account.uin, "console");
    assert_eq!(account.name, "puniyu/console");
    assert_eq!(account.avatar, "");
}

#[test]
fn local_account_of_empty_application_name() {
    let account = local_account("");
    assert_eq!(account.name, "/console");
}
