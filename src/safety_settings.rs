//! Per-category block thresholds sent along with a prompt.
use vstd::prelude::*;

use crate::harm_probability::category_name_at;

verus! {

/// Block thresholds for different areas of Gemini's responses
#[derive(Clone, Copy, Debug, PartialEq, Eq, Structural)]
pub enum BlockThreshold {
    /// Always show regardless of probability of unsafe content
    BlockNone,
    /// Block when high probability of unsafe content
    OnlyHigh,
    /// Block when medium or high probability of unsafe content
    MediumAndAbove,
    /// Block when low, medium or high probability of unsafe content **(default)**
    LowAndAbove,
}

/// The wire name of a block threshold.
pub open spec fn block_threshold_name(t: BlockThreshold) -> Seq<char> {
    match t {
        BlockThreshold::BlockNone => "BLOCK_NONE"@,
        BlockThreshold::OnlyHigh => "BLOCK_ONLY_HIGH"@,
        BlockThreshold::MediumAndAbove => "BLOCK_MEDIUM_AND_ABOVE"@,
        BlockThreshold::LowAndAbove => "BLOCK_LOW_AND_ABOVE"@,
    }
}

impl BlockThreshold {
    /// The threshold's wire name.
    pub fn get_actual(&self) -> (r: String)
        ensures
            r@ == block_threshold_name(*self),
    {
        let actual = match self {
            Self::BlockNone => "BLOCK_NONE",
            Self::OnlyHigh => "BLOCK_ONLY_HIGH",
            Self::MediumAndAbove => "BLOCK_MEDIUM_AND_ABOVE",
            Self::LowAndAbove => "BLOCK_LOW_AND_ABOVE",
        };
        String::from_str(actual)
    }
}

/// Safety settings for Gemini's responses
#[derive(Clone, Copy, Debug, PartialEq, Eq, Structural)]
pub struct SafetySettings {
    /// Negative or harmful comments targeting identity and/or protected attributes
    pub harrasment: BlockThreshold,
    /// Content that is rude, disrespectful, or profane
    pub hate_speech: BlockThreshold,
    /// Contains references to sexual acts or other lewd content
    pub sexually_explicit: BlockThreshold,
    /// Promotes, facilitates, or encourages harmful acts
    pub dangerous_content: BlockThreshold,
    /// Election-related queries
    pub civic_integrity: BlockThreshold,
}

impl SafetySettings {
    /// The threshold at position `i` (0 to 4), in the order of the fields.
    pub open spec fn at(self, i: int) -> BlockThreshold {
        if i == 0 {
            self.harrasment
        } else if i == 1 {
            self.hate_speech
        } else if i == 2 {
            self.sexually_explicit
        } else if i == 3 {
            self.dangerous_content
        } else {
            self.civic_integrity
        }
    }

    /// An iterator over the (category name, threshold) pairs, in field order.
    pub fn iter(&self) -> (r: Iter<'_>)
        ensures
            r.inner == self,
            r.index == 0,
    {
        Iter { inner: self, index: 0 }
    }
}

/// Walks the five categories of a [`SafetySettings`] in order.
pub struct Iter<'a> {
    pub inner: &'a SafetySettings,
    pub index: u8,
}

impl<'a> Iter<'a> {
    /// The next (category name, threshold) pair, or `None` once all five have
    /// been handed out.
    pub fn next(&mut self) -> (r: Option<(String, &'a BlockThreshold)>)
        ensures
            final(self).inner == old(self).inner,
            old(self).index < 5 ==> {
                &&& final(self).index == old(self).index + 1
                &&& r is Some
                &&& (r->0).0@ == category_name_at(old(self).index as int)
                &&& *(r->0).1 == old(self).inner.at(old(self).index as int)
            },
            old(self).index >= 5 ==> r is None && final(self).index == old(self).index,
    {
        let ret = match self.index {
            0 => (String::from_str("HARM_CATEGORY_HARASSMENT"), &self.inner.harrasment),
            1 => (String::from_str("HARM_CATEGORY_HATE_SPEECH"), &self.inner.hate_speech),
            2 => (String::from_str("HARM_CATEGORY_SEXUALLY_EXPLICIT"), &self.inner.sexually_explicit),
            3 => (String::from_str("HARM_CATEGORY_DANGEROUS_CONTENT"), &self.inner.dangerous_content),
            4 => (String::from_str("HARM_CATEGORY_CIVIC_INTEGRITY"), &self.inner.civic_integrity),
            _ => return None,
        };
        self.index = self.index + 1;
        Some(ret)
    }
}

/// Returns an instance of [SafetySettings] with default [BlockThreshold]s (everything on `LowAndAbove`)
pub fn default() -> (r: SafetySettings)
    ensures
        forall|i: int| 0 <= i < 5 ==> r.at(i) == BlockThreshold::LowAndAbove,
{
    SafetySettings {
        harrasment: BlockThreshold::LowAndAbove,
        hate_speech: BlockThreshold::LowAndAbove,
        sexually_explicit: BlockThreshold::LowAndAbove,
        dangerous_content: BlockThreshold::LowAndAbove,
        civic_integrity: BlockThreshold::LowAndAbove,
    }
}

/// Returns an instance of [SafetySettings] where all fields have
/// the same [BlockThreshold]
pub fn from_threshold(threshold: BlockThreshold) -> (r: SafetySettings)
    ensures
        forall|i: int| 0 <= i < 5 ==> r.at(i) == threshold,
{
    SafetySettings {
        harrasment: threshold,
        hate_speech: threshold,
        sexually_explicit: threshold,
        dangerous_content: threshold,
        civic_integrity: threshold,
    }
}

/// Returns an instance of [SafetySettings] with custom [BlockThreshold]s
pub fn custom(
    harrasment: BlockThreshold,
    hate_speech: BlockThreshold,
    sexually_explicit: BlockThreshold,
    dangerous_content: BlockThreshold,
    civic_integrity: BlockThreshold,
) -> (r: SafetySettings)
    ensures
        r.harrasment == harrasment,
        r.hate_speech == hate_speech,
        r.sexually_explicit == sexually_explicit,
        r.dangerous_content == dangerous_content,
        r.civic_integrity == civic_integrity,
{
    SafetySettings { harrasment, hate_speech, sexually_explicit, dangerous_content, civic_integrity }
}

/// The default settings are those made from the `LowAndAbove` threshold.
pub proof fn lemma_default_is_low_and_above(d: SafetySettings, t: SafetySettings)
    requires
        forall|i: int| 0 <= i < 5 ==> d.at(i) == BlockThreshold::LowAndAbove,
        forall|i: int| 0 <= i < 5 ==> t.at(i) == BlockThreshold::LowAndAbove,
    ensures
        d == t,
{
    assert(d.at(0) == t.at(0) && d.at(1) == t.at(1) && d.at(2) == t.at(2));
    assert(d.at(3) == t.at(3) && d.at(4) == t.at(4));
}

} // verus!
