//! The wire message and its codec.
//!
//! An envelope travels as one JSON object:
//!
//! ```text
//! { "messageType": "users" | "register" | "message",
//!   "dataArray":   array of strings, or absent,
//!   "data":        string, or absent }
//! ```
use vstd::prelude::*;
use vstd::string::*;
use crate::json::{
    as_list, as_text, is_null, json_of, json_string, member, parse, parsed, quote, Json,
};

verus! {

/// The three kinds of wire message.
#[derive(Clone, Copy, Debug, PartialEq, Eq, Structural)]
pub enum MessageKind {
    /// Server to client: the display names that are registered.
    Users,
    /// Client to server: the display name that the client asks for.
    Register,
    /// A chat message, in either direction.
    Message,
}

/// The wire message.
///
/// `Users` speaks through `data_array`, `Register` and `Message` through
/// `data`. An envelope that fills the other field is still an envelope: who
/// handles it reads only the field of its kind.
#[derive(Clone, Debug, PartialEq, Eq)]
pub struct Envelope {
    pub message_type: MessageKind,
    pub data_array: Option<Vec<String>>,
    pub data: Option<String>,
}

/// An envelope as a mathematical value.
pub struct EnvelopeView {
    pub message_type: MessageKind,
    pub data_array: Option<Seq<Seq<char>>>,
    pub data: Option<Seq<char>>,
}

/// The texts that a vector of strings holds.
pub open spec fn texts_of(names: Seq<String>) -> Seq<Seq<char>> {
    names.map_values(|name: String| name@)
}

impl View for Envelope {
    type V = EnvelopeView;

    open spec fn view(&self) -> EnvelopeView {
        EnvelopeView {
            message_type: self.message_type,
            data_array: match self.data_array {
                Some(names) => Some(texts_of(names@)),
                None => None,
            },
            data: match self.data {
                Some(text) => Some(text@),
                None => None,
            },
        }
    }
}

/// Why a text frame is no envelope.
#[derive(Clone, Copy, Debug, PartialEq, Eq, Structural)]
pub enum DecodeError {
    /// The frame is not a JSON document.
    Syntax,
    /// The document is no object, it has no string under `messageType`, or a
    /// payload field holds a value of the wrong type.
    Shape,
    /// `messageType` names none of the three kinds.
    UnknownKind,
}

impl MessageKind {
    /// The name of the kind on the wire.
    pub open spec fn wire_name(self) -> Seq<char> {
        match self {
            MessageKind::Users => "users"@,
            MessageKind::Register => "register"@,
            MessageKind::Message => "message"@,
        }
    }

    /// The kind that a wire name stands for.
    pub open spec fn of_wire_name(name: Seq<char>) -> Option<MessageKind> {
        if name == "users"@ {
            Some(MessageKind::Users)
        } else if name == "register"@ {
            Some(MessageKind::Register)
        } else if name == "message"@ {
            Some(MessageKind::Message)
        } else {
            None
        }
    }

    /// The name of the kind on the wire.
    pub fn name(&self) -> (r: &'static str)
        ensures
            r@ == self.wire_name(),
    {
        match self {
            MessageKind::Users => "users",
            MessageKind::Register => "register",
            MessageKind::Message => "message",
        }
    }

    /// The kind that a wire name stands for, if any.
    pub fn from_name(name: &str) -> (r: Option<MessageKind>)
        ensures
            r == MessageKind::of_wire_name(name@),
    {
        let name = String::from_str(name);
        if name == String::from_str("users") {
            Some(MessageKind::Users)
        } else if name == String::from_str("register") {
            Some(MessageKind::Register)
        } else if name == String::from_str("message") {
            Some(MessageKind::Message)
        } else {
            None
        }
    }
}

/// The JSON string literals of some texts, separated by commas.
pub open spec fn json_items(items: Seq<Seq<char>>) -> Seq<char>
    decreases items.len(),
{
    if items.len() == 0 {
        Seq::empty()
    } else if items.len() == 1 {
        json_string(items[0])
    } else {
        json_items(items.drop_last()) + seq![','] + json_string(items.last())
    }
}

/// The JSON array of some texts.
pub open spec fn json_list(items: Seq<Seq<char>>) -> Seq<char> {
    seq!['['] + json_items(items) + seq![']']
}

/// The member `dataArray` of an encoded envelope: nothing where the field is
/// absent.
pub open spec fn data_array_member(data_array: Option<Seq<Seq<char>>>) -> Seq<char> {
    match data_array {
        Some(items) => ",\"dataArray\":"@ + json_list(items),
        None => Seq::empty(),
    }
}

/// The member `data` of an encoded envelope: nothing where the field is
/// absent.
pub open spec fn data_member(data: Option<Seq<char>>) -> Seq<char> {
    match data {
        Some(text) => ",\"data\":"@ + json_string(text),
        None => Seq::empty(),
    }
}

/// The text frame that carries an envelope: one JSON object without white
/// space, `messageType` first, then the payload fields that are present.
pub open spec fn encoded(envelope: EnvelopeView) -> Seq<char> {
    "{\"messageType\":"@ + json_string(envelope.message_type.wire_name())
        + data_array_member(envelope.data_array) + data_member(envelope.data) + seq!['}']
}

/// Writes some texts as a JSON array.
pub fn encode_list(items: &Vec<String>) -> (r: String)
    ensures
        r@ == json_list(texts_of(items@)),
{
    let mut out = String::from_str("[");
    proof {
        reveal_strlit("[");
    }
    let mut i: usize = 0;
    while i < items.len()
        invariant
            i <= items.len(),
            out@ == seq!['['] + json_items(texts_of(items@).take(i as int)),
        decreases items.len() - i,
    {
        let ghost all = texts_of(items@);
        if i > 0 {
            out.append(",");
        }
        let literal = quote(items[i].as_str());
        out.append(literal.as_str());
        proof {
            reveal_strlit(",");
            assert(all.take(i + 1).drop_last() =~= all.take(i as int));
        }
        i += 1;
    }
    out.append("]");
    proof {
        reveal_strlit("]");
        assert(texts_of(items@).take(i as int) =~= texts_of(items@));
    }
    out
}

/// Writes an envelope as a text frame.
pub fn encode(envelope: &Envelope) -> (r: String)
    ensures
        r@ == encoded(envelope@),
{
    let mut out = String::from_str("{\"messageType\":");
    let kind = quote(envelope.message_type.name());
    out.append(kind.as_str());
    match &envelope.data_array {
        Some(names) => {
            out.append(",\"dataArray\":");
            let list = encode_list(names);
            out.append(list.as_str());
        },
        None => {},
    }
    match &envelope.data {
        Some(text) => {
            out.append(",\"data\":");
            let literal = quote(text.as_str());
            out.append(literal.as_str());
        },
        None => {},
    }
    out.append("}");
    proof {
        reveal_strlit("}");
    }
    out
}

/// The member of a JSON object under a key, if there is one.
pub open spec fn member_of(members: Map<Seq<char>, Json>, key: Seq<char>) -> Option<Json> {
    if members.contains_key(key) {
        Some(members[key])
    } else {
        None
    }
}

/// What an optional string field holds: nothing where the member is absent or
/// `null`, the text of a string, and `Err` for any other value.
pub open spec fn optional_text(field: Option<Json>) -> Result<Option<Seq<char>>, DecodeError> {
    match field {
        None => Ok(None),
        Some(Json::Null) => Ok(None),
        Some(Json::Text(text)) => Ok(Some(text)),
        Some(_) => Err(DecodeError::Shape),
    }
}

/// The text of a JSON string.
pub open spec fn text_of(item: Json) -> Seq<char> {
    item->Text_0
}

/// Whether every element of a JSON array is a string.
pub open spec fn all_text(items: Seq<Json>) -> bool {
    forall|i: int| 0 <= i < items.len() ==> (#[trigger] items[i]) is Text
}

/// What an optional field of strings holds: nothing where the member is
/// absent or `null`, the texts of an array whose elements are all strings, and
/// `Err` for any other value.
pub open spec fn optional_texts(field: Option<Json>) -> Result<
    Option<Seq<Seq<char>>>,
    DecodeError,
> {
    match field {
        None => Ok(None),
        Some(Json::Null) => Ok(None),
        Some(Json::List(items)) => if all_text(items) {
            Ok(Some(items.map_values(|item: Json| text_of(item))))
        } else {
            Err(DecodeError::Shape)
        },
        Some(_) => Err(DecodeError::Shape),
    }
}

/// The envelope that a JSON document denotes.
///
/// The document must be an object with a string under `messageType` that
/// names a kind. `dataArray` and `data` may be absent or `null`; where they
/// are present they must be an array of strings and a string, whatever the
/// kind. Other members are passed over.
pub open spec fn envelope_of(json: Json) -> Result<EnvelopeView, DecodeError> {
    match json {
        Json::Object(members) => match member_of(members, "messageType"@) {
            Some(Json::Text(name)) => match MessageKind::of_wire_name(name) {
                Some(kind) => match (
                    optional_texts(member_of(members, "dataArray"@)),
                    optional_text(member_of(members, "data"@)),
                ) {
                    (Ok(data_array), Ok(data)) => Ok(
                        EnvelopeView { message_type: kind, data_array, data },
                    ),
                    _ => Err(DecodeError::Shape),
                },
                None => Err(DecodeError::UnknownKind),
            },
            _ => Err(DecodeError::Shape),
        },
        _ => Err(DecodeError::Shape),
    }
}

/// The envelope that a text frame denotes.
pub open spec fn decoded(text: Seq<char>) -> Result<EnvelopeView, DecodeError> {
    match parsed(text) {
        Some(json) => envelope_of(json),
        None => Err(DecodeError::Syntax),
    }
}

/// Whether the outcome of decoding is the one that the model gives.
pub open spec fn decodes_to(
    outcome: Result<Envelope, DecodeError>,
    model: Result<EnvelopeView, DecodeError>,
) -> bool {
    match outcome {
        Ok(envelope) => model == Ok::<EnvelopeView, DecodeError>(envelope@),
        Err(error) => model == Err::<EnvelopeView, DecodeError>(error),
    }
}

/// Reads an optional string field of a JSON object.
fn read_text(object: &serde_json::Value, key: &str) -> (r: Result<Option<String>, DecodeError>)
    requires
        json_of(*object) is Object,
    ensures
        match r {
            Ok(Some(text)) => optional_text(member_of(json_of(*object)->Object_0, key@)) == Ok::<
                Option<Seq<char>>,
                DecodeError,
            >(Some(text@)),
            Ok(None) => optional_text(member_of(json_of(*object)->Object_0, key@)) == Ok::<
                Option<Seq<char>>,
                DecodeError,
            >(None),
            Err(error) => optional_text(member_of(json_of(*object)->Object_0, key@)) == Err::<
                Option<Seq<char>>,
                DecodeError,
            >(error),
        },
{
    match member(object, key) {
        None => Ok(None),
        Some(field) => {
            if is_null(field) {
                Ok(None)
            } else {
                match as_text(field) {
                    Some(text) => Ok(Some(String::from_str(text))),
                    None => Err(DecodeError::Shape),
                }
            }
        },
    }
}

/// Reads an optional field of strings of a JSON object.
fn read_texts(object: &serde_json::Value, key: &str) -> (r: Result<
    Option<Vec<String>>,
    DecodeError,
>)
    requires
        json_of(*object) is Object,
    ensures
        match r {
            Ok(Some(names)) => optional_texts(member_of(json_of(*object)->Object_0, key@)) == Ok::<
                Option<Seq<Seq<char>>>,
                DecodeError,
            >(Some(texts_of(names@))),
            Ok(None) => optional_texts(member_of(json_of(*object)->Object_0, key@)) == Ok::<
                Option<Seq<Seq<char>>>,
                DecodeError,
            >(None),
            Err(error) => optional_texts(member_of(json_of(*object)->Object_0, key@)) == Err::<
                Option<Seq<Seq<char>>>,
                DecodeError,
            >(error),
        },
{
    match member(object, key) {
        None => Ok(None),
        Some(field) => {
            if is_null(field) {
                return Ok(None);
            }
            match as_list(field) {
                None => Err(DecodeError::Shape),
                Some(items) => {
                    let ghost model = json_of(*field)->List_0;
                    let mut names: Vec<String> = Vec::new();
                    let mut i: usize = 0;
                    while i < items.len()
                        invariant
                            i <= items.len(),
                            json_of(*object) is Object,
                            member_of(json_of(*object)->Object_0, key@) == Some(json_of(*field)),
                            json_of(*field) == Json::List(model),
                            model == items@.map_values(|item: serde_json::Value| json_of(item)),
                            names@.len() == i,
                            forall|k: int| 0 <= k < i ==> (#[trigger] model[k]) is Text,
                            forall|k: int|
                                0 <= k < i ==> (#[trigger] names@[k])@ == text_of(model[k]),
                        decreases items.len() - i,
                    {
                        match as_text(&items[i]) {
                            Some(text) => {
                                names.push(String::from_str(text));
                            },
                            None => {
                                assert(!(model[i as int] is Text));
                                return Err(DecodeError::Shape);
                            },
                        }
                        i += 1;
                    }
                    assert(texts_of(names@) =~= model.map_values(|item: Json| text_of(item)));
                    Ok(Some(names))
                },
            }
        },
    }
}

/// Reads the envelope that a parsed JSON document denotes.
pub fn envelope_from_value(value: &serde_json::Value) -> (r: Result<Envelope, DecodeError>)
    ensures
        decodes_to(r, envelope_of(json_of(*value))),
{
    let name = match member(value, "messageType") {
        Some(field) => match as_text(field) {
            Some(name) => name,
            None => { return Err(DecodeError::Shape); },
        },
        None => { return Err(DecodeError::Shape); },
    };
    let message_type = match MessageKind::from_name(name) {
        Some(kind) => kind,
        None => { return Err(DecodeError::UnknownKind); },
    };
    let data_array = match read_texts(value, "dataArray") {
        Ok(data_array) => data_array,
        Err(error) => { return Err(error); },
    };
    let data = match read_text(value, "data") {
        Ok(data) => data,
        Err(error) => { return Err(error); },
    };
    Ok(Envelope { message_type, data_array, data })
}

/// Reads a text frame as an envelope.
///
/// The frame is an envelope exactly where it is a JSON document of the
/// envelope's shape; `decoded` says which error comes otherwise.
pub fn decode(text: &str) -> (r: Result<Envelope, DecodeError>)
    ensures
        decodes_to(r, decoded(text@)),
{
    match parse(text) {
        Ok(value) => envelope_from_value(&value),
        Err(_) => Err(DecodeError::Syntax),
    }
}

/// A frame that is no JSON document is no envelope.
pub proof fn lemma_not_json_rejected(text: Seq<char>)
    requires
        parsed(text) is None,
    ensures
        decoded(text) == Err::<EnvelopeView, DecodeError>(DecodeError::Syntax),
{
}

/// A JSON object whose `messageType` is a string that names none of the
/// three kinds is no envelope, whatever else it holds.
pub proof fn lemma_unknown_kind_rejected(
    text: Seq<char>,
    members: Map<Seq<char>, Json>,
    name: Seq<char>,
)
    requires
        parsed(text) == Some(Json::Object(members)),
        members.contains_key("messageType"@),
        members["messageType"@] == Json::Text(name),
        name != "users"@,
        name != "register"@,
        name != "message"@,
    ensures
        decoded(text) == Err::<EnvelopeView, DecodeError>(DecodeError::UnknownKind),
{
}

} // verus!
