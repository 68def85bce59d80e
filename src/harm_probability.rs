//! Per-category harm probabilities as reported for a piece of content.
use vstd::prelude::*;

use crate::text::str_eq;

verus! {

/// How likely it is that a piece of content is harmful in one category.
#[derive(Debug, Clone, Copy, PartialEq, Eq, Structural)]
pub enum HarmProbability {
    NotApplicable,
    Negligible,
    Low,
    Medium,
    High,
}

/// The harm probability of each of the five rated categories.
#[derive(Debug, Clone, Copy, PartialEq, Eq, Structural)]
pub struct HarmProbabilities {
    pub harrasment: HarmProbability,
    pub hate_speech: HarmProbability,
    pub sexually_explicit: HarmProbability,
    pub dangerous_content: HarmProbability,
    pub civic_integrity: HarmProbability,
}

/// The wire name of the category at position `i` (0 to 4) of a rating.
pub open spec fn category_name_at(i: int) -> Seq<char> {
    if i == 0 {
        "HARM_CATEGORY_HARASSMENT"@
    } else if i == 1 {
        "HARM_CATEGORY_HATE_SPEECH"@
    } else if i == 2 {
        "HARM_CATEGORY_SEXUALLY_EXPLICIT"@
    } else if i == 3 {
        "HARM_CATEGORY_DANGEROUS_CONTENT"@
    } else {
        "HARM_CATEGORY_CIVIC_INTEGRITY"@
    }
}

impl HarmProbabilities {
    /// The probability at position `i` (0 to 4), in the order of the fields.
    pub open spec fn at(self, i: int) -> HarmProbability {
        if i == 0 {
            self.harrasment
        } else if i == 1 {
            self.hate_speech
        } else if i == 2 {
            self.sexually_explicit
        } else if i == 3 {
            self.dangerous_content
        } else {
            self.civic_integrity
        }
    }

    /// An iterator over the (category name, probability) pairs, in field order.
    pub fn iter(&self) -> (r: Iter<'_>)
        ensures
            r.inner == self,
            r.index == 0,
    {
        Iter { inner: self, index: 0 }
    }
}

/// Walks the five categories of a [`HarmProbabilities`] in order.
pub struct Iter<'a> {
    pub inner: &'a HarmProbabilities,
    pub index: u8,
}

impl<'a> Iter<'a> {
    /// The next (category name, probability) pair, or `None` once all five
    /// have been handed out.
    pub fn next(&mut self) -> (r: Option<(String, &'a HarmProbability)>)
        ensures
            final(self).inner == old(self).inner,
            old(self).index < 5 ==> {
                &&& final(self).index == old(self).index + 1
                &&& r is Some
                &&& (r->0).0@ == category_name_at(old(self).index as int)
                &&& *(r->0).1 == old(self).inner.at(old(self).index as int)
            },
            old(self).index >= 5 ==> r is None && final(self).index == old(self).index,
    {
        let ret = match self.index {
            0 => (String::from_str("HARM_CATEGORY_HARASSMENT"), &self.inner.harrasment),
            1 => (String::from_str("HARM_CATEGORY_HATE_SPEECH"), &self.inner.hate_speech),
            2 => (String::from_str("HARM_CATEGORY_SEXUALLY_EXPLICIT"), &self.inner.sexually_explicit),
            3 => (String::from_str("HARM_CATEGORY_DANGEROUS_CONTENT"), &self.inner.dangerous_content),
            4 => (String::from_str("HARM_CATEGORY_CIVIC_INTEGRITY"), &self.inner.civic_integrity),
            _ => return None,
        };
        self.index = self.index + 1;
        Some(ret)
    }
}

/// Ratings with every category marked as not applicable.
pub fn none() -> (r: HarmProbabilities)
    ensures
        forall|i: int| 0 <= i < 5 ==> r.at(i) == HarmProbability::NotApplicable,
{
    HarmProbabilities {
        harrasment: HarmProbability::NotApplicable,
        hate_speech: HarmProbability::NotApplicable,
        sexually_explicit: HarmProbability::NotApplicable,
        dangerous_content: HarmProbability::NotApplicable,
        civic_integrity: HarmProbability::NotApplicable,
    }
}

/// The probability that a wire name stands for; unknown names read as
/// negligible.
pub open spec fn spec_probability_from_str(s: Seq<char>) -> HarmProbability {
    if s == "LOW"@ {
        HarmProbability::Low
    } else if s == "MEDIUM"@ {
        HarmProbability::Medium
    } else if s == "HIGH"@ {
        HarmProbability::High
    } else {
        HarmProbability::Negligible
    }
}

/// Reads a probability from its wire name (`LOW`, `MEDIUM`, `HIGH`); any
/// other text reads as [`HarmProbability::Negligible`].
pub fn probability_from_str(input: &str) -> (r: HarmProbability)
    ensures
        r == spec_probability_from_str(input@),
{
    if str_eq(input, "LOW") {
        HarmProbability::Low
    } else if str_eq(input, "MEDIUM") {
        HarmProbability::Medium
    } else if str_eq(input, "HIGH") {
        HarmProbability::High
    } else {
        HarmProbability::Negligible
    }
}

} // verus!
