//! Message events and their assembly.
//!
//! An event is a snapshot: it owns its elements and every piece of text in
//! it, and nothing in it refers to the line it was made from or to another
//! event. The console has one operator, who is account and sender at once.

use crate::classify::MessageKind;
use crate::element::{element_models, ContentElement, ElementModel};
use crate::ident::{successor, IdGenerator};
use crate::text::{decimal, decimal_text};
use vstd::prelude::*;

verus! {

/// The age that every sender of the console carries.
pub const SENDER_AGE: u32 = 0;

/// Sex of a sender.
#[derive(Clone, Copy, Debug, PartialEq, Eq, Structural)]
pub enum Sex {
    Male,
    Female,
    Unknown,
}

/// Role of a sender in a group.
#[derive(Clone, Copy, Debug, PartialEq, Eq, Structural)]
pub enum Role {
    Owner,
    Admin,
    Member,
    Unknown,
}

/// The conversation that a message belongs to.
#[derive(Clone, Debug, PartialEq, Eq)]
pub enum Contact {
    Group { id: String, name: String },
    Friend { id: String, name: String },
}

/// What a contact holds, as character sequences.
pub ghost enum ContactModel {
    Group { id: Seq<char>, name: Seq<char> },
    Friend { id: Seq<char>, name: Seq<char> },
}

impl View for Contact {
    type V = ContactModel;

    open spec fn view(&self) -> ContactModel {
        match self {
            Contact::Group { id, name } => ContactModel::Group { id: id@, name: name@ },
            Contact::Friend { id, name } => ContactModel::Friend { id: id@, name: name@ },
        }
    }
}

/// The author of a message.
#[derive(Clone, Debug, PartialEq, Eq)]
pub enum Sender {
    GroupSender { user_id: String, nickname: String, sex: Sex, age: u32, role: Role },
    FriendSender { user_id: String, nickname: String, sex: Sex, age: u32 },
}

/// What a sender holds, as character sequences and plain values.
pub ghost enum SenderModel {
    GroupSender { user_id: Seq<char>, nickname: Seq<char>, sex: Sex, age: u32, role: Role },
    FriendSender { user_id: Seq<char>, nickname: Seq<char>, sex: Sex, age: u32 },
}

impl View for Sender {
    type V = SenderModel;

    open spec fn view(&self) -> SenderModel {
        match self {
            Sender::GroupSender { user_id, nickname, sex, age, role } => SenderModel::GroupSender {
                user_id: user_id@,
                nickname: nickname@,
                sex: *sex,
                age: *age,
                role: *role,
            },
            Sender::FriendSender { user_id, nickname, sex, age } => SenderModel::FriendSender {
                user_id: user_id@,
                nickname: nickname@,
                sex: *sex,
                age: *age,
            },
        }
    }
}

/// A message, complete and ready to be dispatched.
#[derive(Clone, Debug, PartialEq, Eq)]
pub struct MessageEvent {
    pub event_id: u64,
    pub message_id: u64,
    pub contact: Contact,
    pub bot_id: String,
    pub sender_id: String,
    pub sender_name: String,
    pub message_id_str: String,
    pub elements: Vec<ContentElement>,
    pub sender: Sender,
}

/// What a message event holds, as character sequences and plain values.
pub ghost struct EventModel {
    pub event_id: u64,
    pub message_id: u64,
    pub contact: ContactModel,
    pub bot_id: Seq<char>,
    pub sender_id: Seq<char>,
    pub sender_name: Seq<char>,
    pub message_id_str: Seq<char>,
    pub elements: Seq<ElementModel>,
    pub sender: SenderModel,
}

impl View for MessageEvent {
    type V = EventModel;

    open spec fn view(&self) -> EventModel {
        EventModel {
            event_id: self.event_id,
            message_id: self.message_id,
            contact: self.contact@,
            bot_id: self.bot_id@,
            sender_id: self.sender_id@,
            sender_name: self.sender_name@,
            message_id_str: self.message_id_str@,
            elements: element_models(self.elements@),
            sender: self.sender@,
        }
    }
}

impl EventModel {
    /// The kind of message that the event is, read from its contact.
    pub open spec fn kind(self) -> MessageKind {
        match self.contact {
            ContactModel::Group { .. } => MessageKind::Group,
            ContactModel::Friend { .. } => MessageKind::Friend,
        }
    }

    /// What holds of every event that `assemble` makes: it has at least one
    /// element, its sender is of the kind of its contact, and its message
    /// identifier is written out in base ten.
    pub open spec fn well_formed(self) -> bool {
        &&& self.elements.len() > 0
        &&& (self.contact is Group <==> self.sender is GroupSender)
        &&& self.message_id_str == decimal(self.message_id as nat)
    }
}

impl MessageEvent {
    /// The kind of message that the event is.
    pub fn kind(&self) -> (kind: MessageKind)
        ensures
            kind == self@.kind(),
    {
        match &self.contact {
            Contact::Group { .. } => MessageKind::Group,
            Contact::Friend { .. } => MessageKind::Friend,
        }
    }
}

/// The contact of a message of the given kind: the local account, whose
/// name is its identifier too.
pub open spec fn contact_of(kind: MessageKind, name: Seq<char>) -> ContactModel {
    match kind {
        MessageKind::Group => ContactModel::Group { id: name, name },
        MessageKind::Friend => ContactModel::Friend { id: name, name },
    }
}

/// The sender of a message of the given kind: the local account, of unknown
/// sex and age zero, and an ordinary member where the message is a group's.
pub open spec fn sender_of(kind: MessageKind, name: Seq<char>) -> SenderModel {
    match kind {
        MessageKind::Group => SenderModel::GroupSender {
            user_id: name,
            nickname: name,
            sex: Sex::Unknown,
            age: SENDER_AGE,
            role: Role::Member,
        },
        MessageKind::Friend => SenderModel::FriendSender {
            user_id: name,
            nickname: name,
            sex: Sex::Unknown,
            age: SENDER_AGE,
        },
    }
}

/// The event of the given kind that carries `elements`, made for the account
/// `account_id` with display name `name`, under the two identifiers.
pub open spec fn assembled(
    kind: MessageKind,
    elements: Seq<ElementModel>,
    account_id: Seq<char>,
    name: Seq<char>,
    event_id: u64,
    message_id: u64,
) -> EventModel {
    EventModel {
        event_id,
        message_id,
        contact: contact_of(kind, name),
        bot_id: account_id,
        sender_id: account_id,
        sender_name: name,
        message_id_str: decimal(message_id as nat),
        elements,
        sender: sender_of(kind, name),
    }
}

/// Builds the contact of a message of the given kind.
pub fn make_contact(kind: MessageKind, name: &str) -> (contact: Contact)
    ensures
        contact@ == contact_of(kind, name@),
{
    match kind {
        MessageKind::Group => Contact::Group { id: name.to_owned(), name: name.to_owned() },
        MessageKind::Friend => Contact::Friend { id: name.to_owned(), name: name.to_owned() },
    }
}

/// Builds the sender of a message of the given kind.
pub fn make_sender(kind: MessageKind, name: &str) -> (sender: Sender)
    ensures
        sender@ == sender_of(kind, name@),
{
    match kind {
        MessageKind::Group => Sender::GroupSender {
            user_id: name.to_owned(),
            nickname: name.to_owned(),
            sex: Sex::Unknown,
            age: SENDER_AGE,
            role: Role::Member,
        },
        MessageKind::Friend => Sender::FriendSender {
            user_id: name.to_owned(),
            nickname: name.to_owned(),
            sex: Sex::Unknown,
            age: SENDER_AGE,
        },
    }
}

/// Assembles a message event. It draws one event identifier and one message
/// identifier from `ids`, in that order, and takes the elements over.
pub fn assemble(
    kind: MessageKind,
    elements: Vec<ContentElement>,
    account_id: &str,
    name: &str,
    ids: &mut IdGenerator,
) -> (event: MessageEvent)
    requires
        elements@.len() > 0,
    ensures
        event@ == assembled(
            kind,
            element_models(elements@),
            account_id@,
            name@,
            old(ids).pending_event(),
            old(ids).pending_message(),
        ),
        event@.well_formed(),
        event@.kind() == kind,
        *final(ids) == old(ids).after_event().after_message(),
        final(ids).pending_event() == successor(old(ids).pending_event()),
        final(ids).pending_message() == successor(old(ids).pending_message()),
{
    let event_id: u64 = ids.next_event_id();
    let message_id: u64 = ids.next_message_id();
    MessageEvent {
        event_id,
        message_id,
        contact: make_contact(kind, name),
        bot_id: account_id.to_owned(),
        sender_id: account_id.to_owned(),
        sender_name: name.to_owned(),
        message_id_str: decimal_text(message_id),
        elements,
        sender: make_sender(kind, name),
    }
}

} // verus!
