//! A response of the model, as kept by a [`Conversation`](crate::conversation::Conversation).
use vstd::prelude::*;

use crate::conversation::Part;
use crate::safety;
use crate::text::str_eq;

verus! {

/// Why the model stopped generating.
#[derive(Debug, Clone, Copy, PartialEq, Eq, Structural)]
pub enum FinishReason {
    Unspecified,
    Stop,
    MaxTokens,
    Safety,
    Recitation,
    Language,
    Other,
    Blocklist,
    Prohibited,
    Spii,
    /// Currently unused as function calling is not supported
    BadCall,
}

/// The finish reason that a wire name stands for; unknown names read as
/// [`FinishReason::Unspecified`].
pub open spec fn finish_reason_from_name(s: Seq<char>) -> FinishReason {
    if s == "STOP"@ {
        FinishReason::Stop
    } else if s == "MAX_TOKENS"@ {
        FinishReason::MaxTokens
    } else if s == "SAFETY"@ {
        FinishReason::Safety
    } else if s == "RECITATION"@ {
        FinishReason::Recitation
    } else if s == "LANGUAGE"@ {
        FinishReason::Language
    } else if s == "OTHER"@ {
        FinishReason::Other
    } else if s == "BLOCKLIST"@ {
        FinishReason::Blocklist
    } else if s == "SPII"@ {
        FinishReason::Spii
    } else if s == "MALFORMED_FUNCTION_CALL"@ {
        FinishReason::BadCall
    } else {
        FinishReason::Unspecified
    }
}

impl FinishReason {
    /// Reads a finish reason from its wire name.
    pub fn get_fake(input: &str) -> (r: FinishReason)
        ensures
            r == finish_reason_from_name(input@),
    {
        if str_eq(input, "STOP") {
            Self::Stop
        } else if str_eq(input, "MAX_TOKENS") {
            Self::MaxTokens
        } else if str_eq(input, "SAFETY") {
            Self::Safety
        } else if str_eq(input, "RECITATION") {
            Self::Recitation
        } else if str_eq(input, "LANGUAGE") {
            Self::Language
        } else if str_eq(input, "OTHER") {
            Self::Other
        } else if str_eq(input, "BLOCKLIST") {
            Self::Blocklist
        } else if str_eq(input, "SPII") {
            Self::Spii
        } else if str_eq(input, "MALFORMED_FUNCTION_CALL") {
            Self::BadCall
        } else {
            Self::Unspecified
        }
    }
}

/// Holds a response from Gemini
#[derive(Debug)]
pub struct GeminiResponse {
    pub content: Vec<Part>,
    pub safety_rating: Vec<safety::SafetyRating>,
    pub token_count: u64,
    pub finish_reason: FinishReason,
}

/// The text of a part, or nothing for a file.
pub open spec fn part_text(p: Part) -> Seq<char> {
    match p {
        Part::Text(t) => t@,
        Part::File(_) => Seq::empty(),
    }
}

impl GeminiResponse {
    /// The text of the first part of the response; empty where that part is
    /// a file.
    pub fn get_text(&self) -> (r: String)
        requires
            self.content@.len() > 0,
        ensures
            r@ == part_text(self.content@[0]),
    {
        if let Part::Text(text) = &self.content[0] {
            return text.clone();
        }
        String::new()
    }
}

} // verus!
