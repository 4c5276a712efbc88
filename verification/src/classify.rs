//! Classification of an input line.
//!
//! A line may start with `group:` or `friend:`. The prefix selects the kind
//! of message and is cut off; what follows is the content fragment. A line
//! without such a prefix is a friend message, and all of it is content.

use crate::text::{
    lemma_split_first_joined, lemma_split_first_parts, same_text, split_first, split_once,
};
use vstd::prelude::*;

verus! {

/// The two kinds of message.
#[derive(Clone, Copy, Debug, PartialEq, Eq, Structural)]
pub enum MessageKind {
    Group,
    Friend,
}

impl MessageKind {
    /// The word that selects the kind at the start of a line.
    pub open spec fn keyword(self) -> Seq<char> {
        match self {
            MessageKind::Group => "group"@,
            MessageKind::Friend => "friend"@,
        }
    }

    /// The kind that `word` selects, if it selects one. The match is exact:
    /// case and every character count.
    pub open spec fn named_by(word: Seq<char>) -> Option<MessageKind> {
        if word == MessageKind::Group.keyword() {
            Some(MessageKind::Group)
        } else if word == MessageKind::Friend.keyword() {
            Some(MessageKind::Friend)
        } else {
            None
        }
    }

    /// Recognises the word in front of the colon.
    pub fn parse(word: &str) -> (r: Option<MessageKind>)
        ensures
            r == MessageKind::named_by(word@),
    {
        if same_text(word, "group") {
            Some(MessageKind::Group)
        } else if same_text(word, "friend") {
            Some(MessageKind::Friend)
        } else {
            None
        }
    }
}

/// The kind of message that `line` stands for, and its content fragment.
///
/// Where the line holds a colon and the text before the first one selects a
/// kind, the message is of that kind and the content is the text after that
/// colon. In every other case the message is a friend message and the
/// content is the whole line.
pub open spec fn classify(line: Seq<char>) -> (MessageKind, Seq<char>) {
    match split_first(line, ':') {
        Some((word, rest)) => match MessageKind::named_by(word) {
            Some(kind) => (kind, rest),
            None => (MessageKind::Friend, line),
        },
        None => (MessageKind::Friend, line),
    }
}

/// Classifies an input line. The content is a part of the line, not a copy.
pub fn classify_line<'a>(line: &'a str) -> (r: (MessageKind, &'a str))
    ensures
        (r.0, r.1@) == classify(line@),
{
    match split_once(line, ':') {
        Some((word, rest)) => match MessageKind::parse(word) {
            Some(kind) => (kind, rest),
            None => (MessageKind::Friend, line),
        },
        None => (MessageKind::Friend, line),
    }
}

/// Whether `line` starts with the keyword of `kind` and a colon.
pub open spec fn has_prefix(line: Seq<char>, kind: MessageKind) -> bool {
    (kind.keyword() + seq![':']).is_prefix_of(line)
}

/// No keyword holds a colon, and each keyword selects its own kind and no
/// other.
pub proof fn lemma_keywords(kind: MessageKind)
    ensures
        !kind.keyword().contains(':'),
        MessageKind::named_by(kind.keyword()) == Some(kind),
{
    reveal_strlit("group");
    reveal_strlit("friend");
    let word = kind.keyword();
    if word.contains(':') {
        let k = choose|k: int| 0 <= k < word.len() && word[k] == ':';
        assert(word[k] == ':');
    }
    assert("group"@.len() == 5 && "friend"@.len() == 6);
}

/// A line made of a kind's keyword, a colon and any text is a message of
/// that kind whose content is that text.
pub proof fn law_prefixed_line(kind: MessageKind, rest: Seq<char>)
    ensures
        classify(kind.keyword() + seq![':'] + rest) == (kind, rest),
{
    lemma_keywords(kind);
    lemma_split_first_joined(kind.keyword(), ':', rest);
}

/// A line that starts with neither `group:` nor `friend:` is a friend
/// message whose content is the whole line.
pub proof fn law_unprefixed_line(line: Seq<char>)
    requires
        !has_prefix(line, MessageKind::Group),
        !has_prefix(line, MessageKind::Friend),
    ensures
        classify(line) == (MessageKind::Friend, line),
{
    if line.contains(':') {
        lemma_split_first_parts(line, ':');
        let (word, rest) = split_first(line, ':')->0;
        if let Some(kind) = MessageKind::named_by(word) {
            assert((kind.keyword() + seq![':']).is_prefix_of(line)) by {
                let prefix = kind.keyword() + seq![':'];
                assert(line =~= prefix + rest);
                assert(line.subrange(0, prefix.len() as int) =~= prefix);
            }
        }
    }
}

/// The prefix decides the kind: a line is a group message exactly when it
/// starts with `group:`, and a friend message otherwise. Where a line starts
/// with the keyword of a kind and a colon, the content is what follows them.
pub proof fn law_prefix_decides(line: Seq<char>)
    ensures
        classify(line).0 == MessageKind::Group <==> has_prefix(line, MessageKind::Group),
        forall|kind: MessageKind| #[trigger]
            has_prefix(line, kind) ==> classify(line) == (
                kind,
                line.skip(kind.keyword().len() as int + 1),
            ),
{
    assert forall|kind: MessageKind| #[trigger] has_prefix(line, kind) implies classify(line) == (
        kind,
        line.skip(kind.keyword().len() as int + 1),
    ) by {
        let prefix = kind.keyword() + seq![':'];
        let rest = line.skip(prefix.len() as int);
        assert(line =~= kind.keyword() + seq![':'] + rest);
        law_prefixed_line(kind, rest);
    }
    if !has_prefix(line, MessageKind::Group) && classify(line).0 == MessageKind::Group {
        lemma_split_first_parts(line, ':');
        let (word, rest) = split_first(line, ':')->0;
        let prefix = MessageKind::Group.keyword() + seq![':'];
        assert(line =~= prefix + rest);
        assert(line.subrange(0, prefix.len() as int) =~= prefix);
    }
}

} // verus!
