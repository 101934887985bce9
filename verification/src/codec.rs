//! The positional wire form of a part of a message's content.
//!
//! A part goes out as an array of three elements: the name of its kind, its
//! value, and its options or null. It comes in as such an array, or as one
//! with a caching hint in a fourth place.

use crate::error::DecodeError;
use crate::gateway::{CacheControl, CacheControlTtl, CacheControlType};
use crate::json::{lemma_array_view, lemma_object_view, Json, JsonView};
use crate::threads::{
    AudioDetail, AudioFormat, ImageDetail, MessageContentPart, MessageContentPartOptions,
    MessageContentPartView, MessageContentType,
};
use vstd::prelude::*;

verus! {

/// The wire form of the options of a part: null where there are none, the
/// name of the level of detail for an image, an object with the format under
/// `type` for audio.
pub open spec fn wire_of_options(options: Option<MessageContentPartOptions>) -> JsonView {
    match options {
        None => JsonView::Null,
        Some(MessageContentPartOptions::Image(detail)) => JsonView::Text(detail.tag()),
        Some(MessageContentPartOptions::Audio(audio)) => JsonView::Object(
            seq![("type"@, JsonView::Text(audio.format.tag()))],
        ),
    }
}

/// The options that a wire value stands for; the outer `None` where it
/// stands for none.
pub open spec fn options_of_wire(wire: JsonView) -> Option<Option<MessageContentPartOptions>> {
    match wire {
        JsonView::Null => Some(None),
        JsonView::Text(tag) => match ImageDetail::of_tag(tag) {
            Some(detail) => Some(Some(MessageContentPartOptions::Image(detail))),
            None => None,
        },
        JsonView::Object(_) => match wire.member("type"@) {
            Some(JsonView::Text(tag)) => match AudioFormat::of_tag(tag) {
                Some(format) => Some(
                    Some(MessageContentPartOptions::Audio(AudioDetail { format })),
                ),
                None => None,
            },
            _ => None,
        },
        _ => None,
    }
}

/// The lifetime that the `ttl` member of a caching hint gives: none where the
/// member is missing or null. The outer `None` where it is anything but that
/// or the name of a lifetime.
pub open spec fn ttl_of_wire(member: Option<JsonView>) -> Option<Option<CacheControlTtl>> {
    match member {
        None => Some(None),
        Some(JsonView::Null) => Some(None),
        Some(JsonView::Text(tag)) => match CacheControlTtl::of_tag(tag) {
            Some(ttl) => Some(Some(ttl)),
            None => None,
        },
        Some(_) => None,
    }
}

/// The caching hint that a wire value stands for: an object whose `type`
/// names a kind of caching and whose `ttl`, if it has one, names a lifetime.
/// Any other value stands for no hint.
pub open spec fn cache_control_of_wire(wire: JsonView) -> Option<CacheControl> {
    match wire {
        JsonView::Object(_) => match wire.member("type"@) {
            Some(JsonView::Text(tag)) => match (
                CacheControlType::of_tag(tag),
                ttl_of_wire(wire.member("ttl"@)),
            ) {
                (Some(kind), Some(ttl)) => Some(CacheControl { kind, ttl }),
                _ => None,
            },
            _ => None,
        },
        _ => None,
    }
}

/// The wire form of a part: its kind, its value and its options. The caching
/// hint is left out.
pub open spec fn wire_of_part(part: MessageContentPartView) -> Seq<JsonView> {
    seq![
        JsonView::Text(part.kind.tag()),
        JsonView::Text(part.value),
        wire_of_options(part.additional_options),
    ]
}

/// The kind that the first element of the wire form names.
pub open spec fn kind_of_wire(wire: JsonView) -> Option<MessageContentType> {
    match wire {
        JsonView::Text(tag) => MessageContentType::of_tag(tag),
        _ => None,
    }
}

/// The part that the elements of a wire array stand for.
///
/// The elements are read in order, and the first one that is missing or does
/// not fit decides the error. A fourth element is the caching hint; one that
/// cannot be read counts as no hint. A fifth element is one too many.
pub open spec fn part_of_wire(items: Seq<JsonView>) -> Result<
    MessageContentPartView,
    DecodeError,
> {
    if items.len() < 1 {
        Err(DecodeError::InvalidLength(0))
    } else if kind_of_wire(items[0]) is None {
        Err(DecodeError::InvalidElement(0))
    } else if items.len() < 2 {
        Err(DecodeError::InvalidLength(1))
    } else if !(items[1] is Text) {
        Err(DecodeError::InvalidElement(1))
    } else if items.len() < 3 {
        Err(DecodeError::InvalidLength(2))
    } else if options_of_wire(items[2]) is None {
        Err(DecodeError::InvalidElement(2))
    } else if items.len() > 4 {
        Err(DecodeError::InvalidLength(items.len() as usize))
    } else {
        Ok(
            MessageContentPartView {
                kind: kind_of_wire(items[0])->Some_0,
                value: items[1]->Text_0,
                additional_options: options_of_wire(items[2])->Some_0,
                cache_control: if items.len() == 4 {
                    cache_control_of_wire(items[3])
                } else {
                    None
                },
            },
        )
    }
}

/// The part that a wire value stands for: that of its elements, where it is
/// an array.
pub open spec fn part_of_json(wire: JsonView) -> Result<MessageContentPartView, DecodeError> {
    match wire {
        JsonView::Array(items) => part_of_wire(items),
        _ => Err(DecodeError::NotAnArray),
    }
}

/// The position of the first element from `from` on that stands for no part,
/// or the length of `items` where every element from there on stands for one.
pub open spec fn first_refused(items: Seq<JsonView>, from: int) -> int
    decreases items.len() - from,
{
    if from < 0 || from >= items.len() {
        items.len() as int
    } else if part_of_json(items[from]) is Err {
        from
    } else {
        first_refused(items, from + 1)
    }
}

/// The parts that a wire value stands for: those of its elements in order,
/// where it is an array and each element stands for a part. Else the error
/// of the first element that stands for none.
pub open spec fn parts_of_json(wire: JsonView) -> Result<Seq<MessageContentPartView>, DecodeError> {
    match wire {
        JsonView::Array(items) => {
            let stop = first_refused(items, 0);
            if stop < items.len() {
                Err(part_of_json(items[stop])->Err_0)
            } else {
                Ok(Seq::new(items.len(), |i: int| part_of_json(items[i])->Ok_0))
            }
        },
        _ => Err(DecodeError::NotAnArray),
    }
}

/// The outcome of decoding one part, by value.
pub open spec fn part_outcome(outcome: Result<MessageContentPart, DecodeError>) -> Result<
    MessageContentPartView,
    DecodeError,
> {
    match outcome {
        Ok(part) => Ok(part.deep_view()),
        Err(error) => Err(error),
    }
}

/// The outcome of decoding a list of parts, by value.
pub open spec fn parts_outcome(outcome: Result<Vec<MessageContentPart>, DecodeError>) -> Result<
    Seq<MessageContentPartView>,
    DecodeError,
> {
    match outcome {
        Ok(parts) => Ok(parts.deep_view()),
        Err(error) => Err(error),
    }
}

/// Writes the options of a part in their wire form.
pub fn encode_options(options: &Option<MessageContentPartOptions>) -> (wire: Json)
    ensures
        wire.deep_view() == wire_of_options(*options),
{
    match options {
        None => Json::Null,
        Some(MessageContentPartOptions::Image(detail)) => Json::Text(detail.to_string()),
        Some(MessageContentPartOptions::Audio(audio)) => {
            let mut members: Vec<(String, Json)> = Vec::new();
            members.push(("type".to_owned(), Json::Text(audio.format.to_string())));
            proof {
                lemma_object_view(members);
                assert(members.deep_view() =~= seq![
                    ("type"@, JsonView::Text(audio.format.tag())),
                ]);
            }
            Json::Object(members)
        },
    }
}

/// Reads the options of a part from their wire form; the outer `None` where
/// the value stands for no options.
pub fn decode_options(wire: &Json) -> (options: Option<Option<MessageContentPartOptions>>)
    ensures
        options == options_of_wire(wire.deep_view()),
{
    match wire {
        Json::Null => Some(None),
        Json::Text(tag) => match ImageDetail::from_tag(tag) {
            Some(detail) => Some(Some(MessageContentPartOptions::Image(detail))),
            None => None,
        },
        Json::Object(_) => match wire.get("type") {
            Some(Json::Text(tag)) => match AudioFormat::from_tag(tag) {
                Some(format) => Some(
                    Some(MessageContentPartOptions::Audio(AudioDetail { format })),
                ),
                None => None,
            },
            _ => None,
        },
        _ => None,
    }
}

/// Reads the lifetime of a caching hint from its `ttl` member.
fn decode_ttl(member: Option<&Json>) -> (ttl: Option<Option<CacheControlTtl>>)
    ensures
        ttl == ttl_of_wire(member.deep_view()),
{
    match member {
        None => Some(None),
        Some(Json::Null) => Some(None),
        Some(Json::Text(tag)) => match CacheControlTtl::from_tag(tag) {
            Some(ttl) => Some(Some(ttl)),
            None => None,
        },
        Some(_) => None,
    }
}

/// Reads a caching hint from its wire form. A value that is no hint gives
/// `None`: it is not an error.
pub fn decode_cache_control(wire: &Json) -> (hint: Option<CacheControl>)
    ensures
        hint == cache_control_of_wire(wire.deep_view()),
{
    match wire {
        Json::Object(_) => match wire.get("type") {
            Some(Json::Text(tag)) => {
                let kind = CacheControlType::from_tag(tag);
                let ttl = decode_ttl(wire.get("ttl"));
                match (kind, ttl) {
                    (Some(kind), Some(ttl)) => Some(CacheControl { kind, ttl }),
                    _ => None,
                }
            },
            _ => None,
        },
        _ => None,
    }
}

/// Reads the kind of a part from the first element of its wire form.
fn decode_kind(wire: &Json) -> (kind: Option<MessageContentType>)
    ensures
        kind == kind_of_wire(wire.deep_view()),
{
    match wire {
        Json::Text(tag) => MessageContentType::from_tag(tag),
        _ => None,
    }
}

impl MessageContentPart {
    /// Writes this part in its wire form, an array of three elements. The
    /// caching hint is not written.
    pub fn encode(&self) -> (wire: Json)
        ensures
            wire.deep_view() == JsonView::Array(wire_of_part(self.deep_view())),
    {
        let mut items: Vec<Json> = Vec::new();
        items.push(Json::Text(self.kind.to_string()));
        items.push(Json::Text(self.value.clone()));
        items.push(encode_options(&self.additional_options));
        proof {
            lemma_array_view(items);
            assert(items.deep_view() =~= wire_of_part(self.deep_view()));
        }
        Json::Array(items)
    }

    /// Reads a part from its wire form, an array of three or of four elements.
    pub fn decode(wire: &Json) -> (outcome: Result<MessageContentPart, DecodeError>)
        ensures
            part_outcome(outcome) == part_of_json(wire.deep_view()),
    {
        match wire {
            Json::Array(items) => {
                proof {
                    lemma_array_view(*items);
                    assert forall|i: int| 0 <= i < items.len() implies items.deep_view()[i]
                        == #[trigger] items[i].deep_view() by {}
                }
                let n = items.len();
                if n < 1 {
                    return Err(DecodeError::InvalidLength(0));
                }
                let kind = match decode_kind(&items[0]) {
                    Some(kind) => kind,
                    None => {
                        return Err(DecodeError::InvalidElement(0));
                    },
                };
                if n < 2 {
                    return Err(DecodeError::InvalidLength(1));
                }
                let value = match &items[1] {
                    Json::Text(value) => value.clone(),
                    _ => {
                        return Err(DecodeError::InvalidElement(1));
                    },
                };
                if n < 3 {
                    return Err(DecodeError::InvalidLength(2));
                }
                let additional_options = match decode_options(&items[2]) {
                    Some(options) => options,
                    None => {
                        return Err(DecodeError::InvalidElement(2));
                    },
                };
                if n > 4 {
                    return Err(DecodeError::InvalidLength(n));
                }
                let cache_control = if n == 4 {
                    decode_cache_control(&items[3])
                } else {
                    None
                };
                Ok(MessageContentPart { kind, value, additional_options, cache_control })
            },
            _ => Err(DecodeError::NotAnArray),
        }
    }

    /// Writes a list of parts as the array of their wire forms.
    pub fn encode_all(parts: &Vec<MessageContentPart>) -> (wire: Json)
        ensures
            wire.deep_view() == JsonView::Array(
                Seq::new(
                    parts.len() as nat,
                    |i: int| JsonView::Array(wire_of_part(parts[i].deep_view())),
                ),
            ),
    {
        let mut items: Vec<Json> = Vec::new();
        let mut i: usize = 0;
        while i < parts.len()
            invariant
                i <= parts.len(),
                items.len() == i,
                forall|k: int|
                    0 <= k < i ==> items[k].deep_view() == JsonView::Array(
                        wire_of_part(parts[k].deep_view()),
                    ),
            decreases parts.len() - i,
        {
            items.push(parts[i].encode());
            i += 1;
        }
        proof {
            lemma_array_view(items);
            assert(items.deep_view() =~= Seq::new(
                parts.len() as nat,
                |i: int| JsonView::Array(wire_of_part(parts[i].deep_view())),
            ));
        }
        Json::Array(items)
    }

    /// Reads a list of parts from the array of their wire forms.
    pub fn decode_all(wire: &Json) -> (outcome: Result<Vec<MessageContentPart>, DecodeError>)
        ensures
            parts_outcome(outcome) == parts_of_json(wire.deep_view()),
    {
        match wire {
            Json::Array(items) => {
                proof {
                    lemma_array_view(*items);
                }
                let ghost wires = items.deep_view();
                let mut parts: Vec<MessageContentPart> = Vec::new();
                let mut i: usize = 0;
                while i < items.len()
                    invariant
                        i <= items.len(),
                        parts.len() == i,
                        wires == items.deep_view(),
                        wire.deep_view() == JsonView::Array(wires),
                        first_refused(wires, 0) == first_refused(wires, i as int),
                        forall|k: int|
                            0 <= k < i ==> part_of_json(wires[k]) == Ok::<
                                MessageContentPartView,
                                DecodeError,
                            >(#[trigger] parts[k].deep_view()),
                    decreases items.len() - i,
                {
                    assert(wires[i as int] == items[i as int].deep_view());
                    match MessageContentPart::decode(&items[i]) {
                        Ok(part) => {
                            parts.push(part);
                        },
                        Err(error) => {
                            return Err(error);
                        },
                    }
                    i += 1;
                }
                proof {
                    assert(parts.deep_view() =~= Seq::new(
                        wires.len(),
                        |i: int| part_of_json(wires[i])->Ok_0,
                    ));
                }
                Ok(parts)
            },
            _ => Err(DecodeError::NotAnArray),
        }
    }
}

/// A part is read back from its wire form as it was, but without its caching
/// hint, which the wire form does not carry.
pub proof fn lemma_decode_encode(part: MessageContentPartView)
    ensures
        part_of_json(JsonView::Array(wire_of_part(part))) == Ok::<
            MessageContentPartView,
            DecodeError,
        >(MessageContentPartView { cache_control: None, ..part }),
{
    let items = wire_of_part(part);
    part.kind.lemma_tag_read_back();
    lemma_options_read_back(part.additional_options);
    assert(items.len() == 3);
    assert(items[0] == JsonView::Text(part.kind.tag()));
    assert(items[1] == JsonView::Text(part.value));
    assert(items[2] == wire_of_options(part.additional_options));
}

/// A part without a caching hint is read back from its wire form as it was.
pub proof fn lemma_round_trip(part: MessageContentPartView)
    requires
        part.cache_control is None,
    ensures
        part_of_json(JsonView::Array(wire_of_part(part))) == Ok::<
            MessageContentPartView,
            DecodeError,
        >(part),
{
    lemma_decode_encode(part);
}

/// A part with a caching hint is not read back from its wire form as it was:
/// the hint is lost on the way.
pub proof fn lemma_hint_is_lost(part: MessageContentPartView)
    requires
        part.cache_control is Some,
    ensures
        part_of_json(JsonView::Array(wire_of_part(part))) != Ok::<
            MessageContentPartView,
            DecodeError,
        >(part),
        part_of_json(JsonView::Array(wire_of_part(part))) matches Ok(back)
            && back.cache_control is None,
{
    lemma_decode_encode(part);
}

/// Options are read back from their wire form as they were.
pub proof fn lemma_options_read_back(options: Option<MessageContentPartOptions>)
    ensures
        options_of_wire(wire_of_options(options)) == Some(options),
{
    match options {
        None => {},
        Some(MessageContentPartOptions::Image(detail)) => {
            detail.lemma_tag_read_back();
        },
        Some(MessageContentPartOptions::Audio(audio)) => {
            audio.format.lemma_tag_read_back();
            let wire = wire_of_options(options);
            assert(wire.member("type"@) == Some(JsonView::Text(audio.format.tag()))) by {
                reveal_with_fuel(JsonView::member_from, 2);
            }
        },
    }
}

} // verus!
