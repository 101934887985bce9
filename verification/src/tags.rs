//! The names under which the enumerations of this library go over the wire.

use crate::gateway::{CacheControlTtl, CacheControlType};
use crate::threads::{AudioFormat, ImageDetail, MessageContentType};
use vstd::prelude::*;

verus! {

/// Whether `text` reads exactly as `word` does.
pub fn text_is(text: &String, word: &str) -> (same: bool)
    ensures
        same == (text@ == word@),
{
    *text == word.to_owned()
}

impl MessageContentType {
    /// The name of this kind on the wire.
    pub open spec fn tag(self) -> Seq<char> {
        match self {
            MessageContentType::Text => "Text"@,
            MessageContentType::ImageUrl => "ImageUrl"@,
            MessageContentType::InputAudio => "InputAudio"@,
        }
    }

    /// The kind that `tag` names, if it names one.
    pub open spec fn of_tag(tag: Seq<char>) -> Option<MessageContentType> {
        if tag == "Text"@ {
            Some(MessageContentType::Text)
        } else if tag == "ImageUrl"@ {
            Some(MessageContentType::ImageUrl)
        } else if tag == "InputAudio"@ {
            Some(MessageContentType::InputAudio)
        } else {
            None
        }
    }

    /// The name of this kind on the wire.
    pub fn to_string(&self) -> (name: String)
        ensures
            name@ == self.tag(),
    {
        match self {
            MessageContentType::Text => "Text".to_owned(),
            MessageContentType::ImageUrl => "ImageUrl".to_owned(),
            MessageContentType::InputAudio => "InputAudio".to_owned(),
        }
    }

    /// Reads the name of a kind.
    pub fn from_tag(tag: &String) -> (kind: Option<MessageContentType>)
        ensures
            kind == Self::of_tag(tag@),
    {
        if text_is(tag, "Text") {
            Some(MessageContentType::Text)
        } else if text_is(tag, "ImageUrl") {
            Some(MessageContentType::ImageUrl)
        } else if text_is(tag, "InputAudio") {
            Some(MessageContentType::InputAudio)
        } else {
            None
        }
    }

    /// Every kind is read back from its own name.
    pub proof fn lemma_tag_read_back(self)
        ensures
            Self::of_tag(self.tag()) == Some(self),
    {
        reveal_strlit("Text");
        reveal_strlit("ImageUrl");
        reveal_strlit("InputAudio");
        assert("Text"@.len() == 4 && "ImageUrl"@.len() == 8 && "InputAudio"@.len() == 10);
    }
}

impl ImageDetail {
    /// The name of this level of detail on the wire.
    pub open spec fn tag(self) -> Seq<char> {
        match self {
            ImageDetail::Auto => "Auto"@,
            ImageDetail::Low => "Low"@,
            ImageDetail::High => "High"@,
        }
    }

    /// The level of detail that `tag` names, if it names one.
    pub open spec fn of_tag(tag: Seq<char>) -> Option<ImageDetail> {
        if tag == "Auto"@ {
            Some(ImageDetail::Auto)
        } else if tag == "Low"@ {
            Some(ImageDetail::Low)
        } else if tag == "High"@ {
            Some(ImageDetail::High)
        } else {
            None
        }
    }

    /// The name of this level of detail on the wire.
    pub fn to_string(&self) -> (name: String)
        ensures
            name@ == self.tag(),
    {
        match self {
            ImageDetail::Auto => "Auto".to_owned(),
            ImageDetail::Low => "Low".to_owned(),
            ImageDetail::High => "High".to_owned(),
        }
    }

    /// Reads the name of a level of detail.
    pub fn from_tag(tag: &String) -> (detail: Option<ImageDetail>)
        ensures
            detail == Self::of_tag(tag@),
    {
        if text_is(tag, "Auto") {
            Some(ImageDetail::Auto)
        } else if text_is(tag, "Low") {
            Some(ImageDetail::Low)
        } else if text_is(tag, "High") {
            Some(ImageDetail::High)
        } else {
            None
        }
    }

    /// Every level of detail is read back from its own name.
    pub proof fn lemma_tag_read_back(self)
        ensures
            Self::of_tag(self.tag()) == Some(self),
    {
        reveal_strlit("Auto");
        reveal_strlit("Low");
        reveal_strlit("High");
        assert("Auto"@.len() == 4 && "Low"@.len() == 3 && "High"@.len() == 4);
        assert("Auto"@[0] == 'A' && "High"@[0] == 'H');
    }
}

impl AudioFormat {
    /// The name of this format on the wire.
    pub open spec fn tag(self) -> Seq<char> {
        match self {
            AudioFormat::Mp3 => "Mp3"@,
            AudioFormat::Wav => "Wav"@,
        }
    }

    /// The format that `tag` names, if it names one.
    pub open spec fn of_tag(tag: Seq<char>) -> Option<AudioFormat> {
        if tag == "Mp3"@ {
            Some(AudioFormat::Mp3)
        } else if tag == "Wav"@ {
            Some(AudioFormat::Wav)
        } else {
            None
        }
    }

    /// The name of this format on the wire.
    pub fn to_string(&self) -> (name: String)
        ensures
            name@ == self.tag(),
    {
        match self {
            AudioFormat::Mp3 => "Mp3".to_owned(),
            AudioFormat::Wav => "Wav".to_owned(),
        }
    }

    /// Reads the name of a format.
    pub fn from_tag(tag: &String) -> (format: Option<AudioFormat>)
        ensures
            format == Self::of_tag(tag@),
    {
        if text_is(tag, "Mp3") {
            Some(AudioFormat::Mp3)
        } else if text_is(tag, "Wav") {
            Some(AudioFormat::Wav)
        } else {
            None
        }
    }

    /// Every format is read back from its own name.
    pub proof fn lemma_tag_read_back(self)
        ensures
            Self::of_tag(self.tag()) == Some(self),
    {
        reveal_strlit("Mp3");
        reveal_strlit("Wav");
        assert("Mp3"@[0] == 'M' && "Wav"@[0] == 'W');
    }
}

impl CacheControlType {
    /// The kind of caching that `tag` names, if it names one.
    pub open spec fn of_tag(tag: Seq<char>) -> Option<CacheControlType> {
        if tag == "ephemeral"@ {
            Some(CacheControlType::Ephemeral)
        } else {
            None
        }
    }

    /// Reads the name of a kind of caching.
    pub fn from_tag(tag: &String) -> (kind: Option<CacheControlType>)
        ensures
            kind == Self::of_tag(tag@),
    {
        if text_is(tag, "ephemeral") {
            Some(CacheControlType::Ephemeral)
        } else {
            None
        }
    }
}

impl CacheControlTtl {
    /// The lifetime that `tag` names, if it names one.
    pub open spec fn of_tag(tag: Seq<char>) -> Option<CacheControlTtl> {
        if tag == "5m"@ {
            Some(CacheControlTtl::FiveMinutes)
        } else if tag == "1h"@ {
            Some(CacheControlTtl::OneHour)
        } else {
            None
        }
    }

    /// Reads the name of a lifetime.
    pub fn from_tag(tag: &String) -> (ttl: Option<CacheControlTtl>)
        ensures
            ttl == Self::of_tag(tag@),
    {
        if text_is(tag, "5m") {
            Some(CacheControlTtl::FiveMinutes)
        } else if text_is(tag, "1h") {
            Some(CacheControlTtl::OneHour)
        } else {
            None
        }
    }
}

} // verus!
