//! Content elements and the decoding of a content fragment.
//!
//! A fragment has the shape `subtype:payload`. The text before the first
//! colon selects the kind of element, the text after it is carried by the
//! element unchanged. A fragment that does not start with one of the known
//! subtypes is text as a whole.

use crate::text::{
    char_count, lemma_split_first_joined, lemma_split_first_parts, same_text, split_first,
    split_once,
};
use vstd::prelude::*;

verus! {

/// The size carried by every file element. No file is transferred, so the
/// value stands for none in particular.
pub const FILE_SIZE: u64 = 100;

/// One typed unit of message content.
#[derive(Clone, Debug, PartialEq, Eq)]
pub enum ContentElement {
    Text(String),
    Image(String),
    Json(String),
    Video { url: String, title: String },
    Record(String),
    File { url: String, name: String, size: u64, title: String },
    Xml(String),
    MentionTarget(String),
}

/// What a content element holds, as character sequences.
pub ghost enum ElementModel {
    Text(Seq<char>),
    Image(Seq<char>),
    Json(Seq<char>),
    Video { url: Seq<char>, title: Seq<char> },
    Record(Seq<char>),
    File { url: Seq<char>, name: Seq<char>, size: u64, title: Seq<char> },
    Xml(Seq<char>),
    MentionTarget(Seq<char>),
}

impl View for ContentElement {
    type V = ElementModel;

    open spec fn view(&self) -> ElementModel {
        match self {
            ContentElement::Text(s) => ElementModel::Text(s@),
            ContentElement::Image(url) => ElementModel::Image(url@),
            ContentElement::Json(payload) => ElementModel::Json(payload@),
            ContentElement::Video { url, title } => ElementModel::Video { url: url@, title: title@ },
            ContentElement::Record(url) => ElementModel::Record(url@),
            ContentElement::File { url, name, size, title } => ElementModel::File {
                url: url@,
                name: name@,
                size: *size,
                title: title@,
            },
            ContentElement::Xml(payload) => ElementModel::Xml(payload@),
            ContentElement::MentionTarget(id) => ElementModel::MentionTarget(id@),
        }
    }
}

/// The models of a sequence of elements, in the same order.
pub open spec fn element_models(elements: Seq<ContentElement>) -> Seq<ElementModel> {
    Seq::new(elements.len(), |i: int| elements[i]@)
}

/// The subtypes that a content fragment can name.
#[derive(Clone, Copy, Debug, PartialEq, Eq, Structural)]
pub enum Subtype {
    At,
    Text,
    Image,
    Json,
    Video,
    Record,
    File,
    Xml,
}

impl Subtype {
    /// The word that names the subtype in a fragment.
    pub open spec fn keyword(self) -> Seq<char> {
        match self {
            Subtype::At => "at"@,
            Subtype::Text => "text"@,
            Subtype::Image => "image"@,
            Subtype::Json => "json"@,
            Subtype::Video => "video"@,
            Subtype::Record => "record"@,
            Subtype::File => "file"@,
            Subtype::Xml => "xml"@,
        }
    }

    /// The subtype that `word` names, if it names one. The match is exact:
    /// case and every character count.
    pub open spec fn named_by(word: Seq<char>) -> Option<Subtype> {
        if word == Subtype::At.keyword() {
            Some(Subtype::At)
        } else if word == Subtype::Text.keyword() {
            Some(Subtype::Text)
        } else if word == Subtype::Image.keyword() {
            Some(Subtype::Image)
        } else if word == Subtype::Json.keyword() {
            Some(Subtype::Json)
        } else if word == Subtype::Video.keyword() {
            Some(Subtype::Video)
        } else if word == Subtype::Record.keyword() {
            Some(Subtype::Record)
        } else if word == Subtype::File.keyword() {
            Some(Subtype::File)
        } else if word == Subtype::Xml.keyword() {
            Some(Subtype::Xml)
        } else {
            None
        }
    }

    /// Whether the subtype takes `payload`. A mention needs a target, so `At`
    /// refuses the empty payload; every other subtype takes any payload.
    pub open spec fn accepts(self, payload: Seq<char>) -> bool {
        self == Subtype::At ==> payload.len() > 0
    }

    /// The element that the subtype makes of `payload`. `title` is the
    /// display name of the local account: a video carries it as its title, a
    /// file as its name and its title.
    pub open spec fn element(self, payload: Seq<char>, title: Seq<char>) -> ElementModel {
        match self {
            Subtype::At => ElementModel::MentionTarget(payload),
            Subtype::Text => ElementModel::Text(payload),
            Subtype::Image => ElementModel::Image(payload),
            Subtype::Json => ElementModel::Json(payload),
            Subtype::Video => ElementModel::Video { url: payload, title },
            Subtype::Record => ElementModel::Record(payload),
            Subtype::File => ElementModel::File { url: payload, name: title, size: FILE_SIZE, title },
            Subtype::Xml => ElementModel::Xml(payload),
        }
    }

    /// Recognises the word in front of the colon.
    pub fn parse(word: &str) -> (r: Option<Subtype>)
        ensures
            r == Subtype::named_by(word@),
    {
        if same_text(word, "at") {
            Some(Subtype::At)
        } else if same_text(word, "text") {
            Some(Subtype::Text)
        } else if same_text(word, "image") {
            Some(Subtype::Image)
        } else if same_text(word, "json") {
            Some(Subtype::Json)
        } else if same_text(word, "video") {
            Some(Subtype::Video)
        } else if same_text(word, "record") {
            Some(Subtype::Record)
        } else if same_text(word, "file") {
            Some(Subtype::File)
        } else if same_text(word, "xml") {
            Some(Subtype::Xml)
        } else {
            None
        }
    }

    /// Tests whether the subtype takes `payload`.
    pub fn takes(self, payload: &str) -> (r: bool)
        ensures
            r == self.accepts(payload@),
    {
        match self {
            Subtype::At => char_count(payload) > 0,
            _ => true,
        }
    }

    /// Builds the element of this subtype that carries `payload`.
    pub fn build(self, payload: &str, title: &str) -> (e: ContentElement)
        ensures
            e@ == self.element(payload@, title@),
    {
        match self {
            Subtype::At => ContentElement::MentionTarget(payload.to_owned()),
            Subtype::Text => ContentElement::Text(payload.to_owned()),
            Subtype::Image => ContentElement::Image(payload.to_owned()),
            Subtype::Json => ContentElement::Json(payload.to_owned()),
            Subtype::Video => ContentElement::Video {
                url: payload.to_owned(),
                title: title.to_owned(),
            },
            Subtype::Record => ContentElement::Record(payload.to_owned()),
            Subtype::File => ContentElement::File {
                url: payload.to_owned(),
                name: title.to_owned(),
                size: FILE_SIZE,
                title: title.to_owned(),
            },
            Subtype::Xml => ContentElement::Xml(payload.to_owned()),
        }
    }
}

/// The element that a content fragment stands for.
///
/// Where the fragment holds a colon, the text before the first one names a
/// subtype, and that subtype takes the text after it, the element is of that
/// subtype and carries the text after the colon. In every other case it is a
/// text element that carries the whole fragment.
pub open spec fn decode(content: Seq<char>, title: Seq<char>) -> ElementModel {
    match split_first(content, ':') {
        Some((word, payload)) => match Subtype::named_by(word) {
            Some(subtype) => if subtype.accepts(payload) {
                subtype.element(payload, title)
            } else {
                ElementModel::Text(content)
            },
            None => ElementModel::Text(content),
        },
        None => ElementModel::Text(content),
    }
}

/// The elements of a message whose content fragment is `content`: always
/// exactly one.
pub open spec fn decode_all(content: Seq<char>, title: Seq<char>) -> Seq<ElementModel> {
    seq![decode(content, title)]
}

/// Decodes a content fragment into its element.
pub fn decode_element(content: &str, title: &str) -> (e: ContentElement)
    ensures
        e@ == decode(content@, title@),
{
    match split_once(content, ':') {
        Some((word, payload)) => match Subtype::parse(word) {
            Some(subtype) => if subtype.takes(payload) {
                subtype.build(payload, title)
            } else {
                ContentElement::Text(content.to_owned())
            },
            None => ContentElement::Text(content.to_owned()),
        },
        None => ContentElement::Text(content.to_owned()),
    }
}

/// Decodes a content fragment into the elements of a message.
pub fn decode_elements(content: &str, title: &str) -> (elements: Vec<ContentElement>)
    ensures
        element_models(elements@) == decode_all(content@, title@),
{
    let mut elements: Vec<ContentElement> = Vec::new();
    elements.push(decode_element(content, title));
    assert(element_models(elements@) =~= decode_all(content@, title@));
    elements
}

/// Whether `content` is `subtype`'s keyword, a colon and `payload`, and the
/// subtype takes that payload.
pub open spec fn is_tagged_as(content: Seq<char>, subtype: Subtype, payload: Seq<char>) -> bool {
    subtype.accepts(payload) && content == subtype.keyword() + seq![':'] + payload
}

/// Whether `content` has the shape `subtype:payload` for one of the known
/// subtypes and a payload that the subtype takes.
pub open spec fn is_tagged(content: Seq<char>) -> bool {
    exists|subtype: Subtype, payload: Seq<char>| #[trigger] is_tagged_as(content, subtype, payload)
}

/// No keyword holds a colon, and each keyword names its own subtype and no
/// other.
pub proof fn lemma_keywords(subtype: Subtype)
    ensures
        !subtype.keyword().contains(':'),
        Subtype::named_by(subtype.keyword()) == Some(subtype),
{
    reveal_strlit("at");
    reveal_strlit("text");
    reveal_strlit("image");
    reveal_strlit("json");
    reveal_strlit("video");
    reveal_strlit("record");
    reveal_strlit("file");
    reveal_strlit("xml");
    let word = subtype.keyword();
    if word.contains(':') {
        let k = choose|k: int| 0 <= k < word.len() && word[k] == ':';
        assert(word[k] == ':');
    }
    assert("at"@.len() == 2 && "xml"@.len() == 3 && "record"@.len() == 6);
    assert("text"@.len() == 4 && "text"@[0] == 't');
    assert("json"@.len() == 4 && "json"@[0] == 'j');
    assert("file"@.len() == 4 && "file"@[0] == 'f');
    assert("image"@.len() == 5 && "image"@[0] == 'i');
    assert("video"@.len() == 5 && "video"@[0] == 'v');
}

/// A word names a subtype only if it is that subtype's keyword.
pub proof fn lemma_named_by(word: Seq<char>)
    ensures
        Subtype::named_by(word) is Some ==> word == (Subtype::named_by(word)->0).keyword(),
{
}

/// A fragment made of a subtype's keyword, a colon and a payload that the
/// subtype takes decodes to the element of that subtype, which carries the
/// payload unchanged.
pub proof fn law_tagged_fragment(subtype: Subtype, payload: Seq<char>, title: Seq<char>)
    requires
        subtype.accepts(payload),
    ensures
        decode(subtype.keyword() + seq![':'] + payload, title) == subtype.element(payload, title),
        decode_all(subtype.keyword() + seq![':'] + payload, title) == seq![
            subtype.element(payload, title),
        ],
{
    lemma_keywords(subtype);
    lemma_split_first_joined(subtype.keyword(), ':', payload);
}

/// A fragment that is not a known keyword, a colon and a payload that the
/// subtype takes decodes to one text element that carries the whole fragment.
pub proof fn law_untagged_fragment(content: Seq<char>, title: Seq<char>)
    requires
        !is_tagged(content),
    ensures
        decode(content, title) == ElementModel::Text(content),
        decode_all(content, title) == seq![ElementModel::Text(content)],
{
    if content.contains(':') {
        lemma_split_first_parts(content, ':');
        let (word, payload) = split_first(content, ':')->0;
        if let Some(subtype) = Subtype::named_by(word) {
            lemma_named_by(word);
            if subtype.accepts(payload) {
                assert(is_tagged_as(content, subtype, payload));
            }
        }
    }
}

/// Every fragment decodes to exactly one element, whatever it holds.
pub proof fn law_one_element(content: Seq<char>, title: Seq<char>)
    ensures
        decode_all(content, title).len() == 1,
        !is_tagged(content) ==> decode_all(content, title)[0] == ElementModel::Text(content),
{
    if !is_tagged(content) {
        law_untagged_fragment(content, title);
    }
}

} // verus!
