//! Safety model: the harm categories, probabilities and block thresholds of
//! the API, their wire names, and whole sets of safety settings.
//!
//! Used to change what kind of messages will be blocked, and to show why a
//! message was blocked.
use vstd::prelude::*;

use crate::text::str_eq;

verus! {

/// The category of a [`SafetyRating`].
#[derive(Debug, Clone, Copy, PartialEq, Eq, Structural)]
pub enum HarmCategory {
    /// Category is unspecified
    Unspecified,
    /// **PaLM** - Negative or harmful comments targeting identity and/or protected attribute
    Derogatory,
    /// **PaLM** - Content that is rude, disrespectful, or profane
    Toxicity,
    /// **PaLM** - Describes scenarios depicting violence against an individual or group, or general descriptions of gore
    Violence,
    /// **PaLM** - Contains references to sexual acts or other lewd content
    Sexual,
    /// **PaLM** - Promotes unchecked medical advice
    Medical,
    /// **PaLM** - Dangerous content that promotes, facilitates, or encourages harmful acts
    Dangerous,
    /// **Gemini** - Harassment content
    Harassment,
    /// **Gemini** - Hate speech and content
    HateSpeech,
    /// **Gemini** - Sexually explicit content
    SexuallyExplicit,
    /// **Gemini** - Dangerous content
    DangerousContent,
    /// **Gemini** - Content that may be used to harm civic integrity
    CivicIntergrity,
}

/// The wire name of a harm category.
pub open spec fn category_name(c: HarmCategory) -> Seq<char> {
    match c {
        HarmCategory::Unspecified => "HARM_CATEGORY_UNSPECIFIED"@,
        HarmCategory::Derogatory => "HARM_CATEGORY_DEROGATORY"@,
        HarmCategory::Toxicity => "HARM_CATEGORY_TOXICITY"@,
        HarmCategory::Violence => "HARM_CATEGORY_VIOLENCE"@,
        HarmCategory::Sexual => "HARM_CATEGORY_SEXUAL"@,
        HarmCategory::Medical => "HARM_CATEGORY_MEDICAL"@,
        HarmCategory::Dangerous => "HARM_CATEGORY_DANGEROUS"@,
        HarmCategory::Harassment => "HARM_CATEGORY_HARASSMENT"@,
        HarmCategory::HateSpeech => "HARM_CATEGORY_HATE_SPEECH"@,
        HarmCategory::SexuallyExplicit => "HARM_CATEGORY_SEXUALLY_EXPLICIT"@,
        HarmCategory::DangerousContent => "HARM_CATEGORY_DANGEROUS_CONTENT"@,
        HarmCategory::CivicIntergrity => "HARM_CATEGORY_CIVIC_INTEGRITY"@,
    }
}

/// The category that a wire name stands for: the one whose name it is, or
/// [`HarmCategory::Unspecified`] where it is no category's name.
pub open spec fn category_from_name(s: Seq<char>) -> HarmCategory {
    if exists|c: HarmCategory| category_name(c) == s {
        choose|c: HarmCategory| category_name(c) == s
    } else {
        HarmCategory::Unspecified
    }
}

impl HarmCategory {
    /// The category's wire name.
    pub fn get_real(&self) -> (r: &str)
        ensures
            r@ == category_name(*self),
    {
        match self {
            Self::Unspecified => "HARM_CATEGORY_UNSPECIFIED",
            Self::Derogatory => "HARM_CATEGORY_DEROGATORY",
            Self::Toxicity => "HARM_CATEGORY_TOXICITY",
            Self::Violence => "HARM_CATEGORY_VIOLENCE",
            Self::Sexual => "HARM_CATEGORY_SEXUAL",
            Self::Medical => "HARM_CATEGORY_MEDICAL",
            Self::Dangerous => "HARM_CATEGORY_DANGEROUS",
            Self::Harassment => "HARM_CATEGORY_HARASSMENT",
            Self::HateSpeech => "HARM_CATEGORY_HATE_SPEECH",
            Self::SexuallyExplicit => "HARM_CATEGORY_SEXUALLY_EXPLICIT",
            Self::DangerousContent => "HARM_CATEGORY_DANGEROUS_CONTENT",
            Self::CivicIntergrity => "HARM_CATEGORY_CIVIC_INTEGRITY",
        }
    }

    /// Reads a category from its wire name; any other text reads as
    /// [`HarmCategory::Unspecified`].
    pub fn get_fake(input: &str) -> (r: HarmCategory)
        ensures
            r == category_from_name(input@),
    {
        proof {
            lemma_category_names_distinct();
        }
        let r = if str_eq(input, "HARM_CATEGORY_DEROGATORY") {
            HarmCategory::Derogatory
        } else if str_eq(input, "HARM_CATEGORY_TOXICITY") {
            HarmCategory::Toxicity
        } else if str_eq(input, "HARM_CATEGORY_VIOLENCE") {
            HarmCategory::Violence
        } else if str_eq(input, "HARM_CATEGORY_SEXUAL") {
            HarmCategory::Sexual
        } else if str_eq(input, "HARM_CATEGORY_MEDICAL") {
            HarmCategory::Medical
        } else if str_eq(input, "HARM_CATEGORY_DANGEROUS") {
            HarmCategory::Dangerous
        } else if str_eq(input, "HARM_CATEGORY_HARASSMENT") {
            HarmCategory::Harassment
        } else if str_eq(input, "HARM_CATEGORY_HATE_SPEECH") {
            HarmCategory::HateSpeech
        } else if str_eq(input, "HARM_CATEGORY_SEXUALLY_EXPLICIT") {
            HarmCategory::SexuallyExplicit
        } else if str_eq(input, "HARM_CATEGORY_DANGEROUS_CONTENT") {
            HarmCategory::DangerousContent
        } else if str_eq(input, "HARM_CATEGORY_CIVIC_INTEGRITY") {
            HarmCategory::CivicIntergrity
        } else {
            HarmCategory::Unspecified
        };
        proof {
            if r != HarmCategory::Unspecified {
                assert(category_name(r) == input@);
            } else if exists|c: HarmCategory| category_name(c) == input@ {
                let c = choose|c: HarmCategory| category_name(c) == input@;
                // every other name was compared and did not match
                match c {
                    HarmCategory::Unspecified => {},
                    HarmCategory::Derogatory => {},
                    HarmCategory::Toxicity => {},
                    HarmCategory::Violence => {},
                    HarmCategory::Sexual => {},
                    HarmCategory::Medical => {},
                    HarmCategory::Dangerous => {},
                    HarmCategory::Harassment => {},
                    HarmCategory::HateSpeech => {},
                    HarmCategory::SexuallyExplicit => {},
                    HarmCategory::DangerousContent => {},
                    HarmCategory::CivicIntergrity => {},
                }
            }
        }
        r
    }
}

/// The length of a category's wire name and its first letter after the
/// common `HARM_CATEGORY_` prefix: together they tell the names apart.
spec fn category_key(c: HarmCategory) -> (int, char) {
    match c {
        HarmCategory::Unspecified => (25, 'U'),
        HarmCategory::Derogatory => (24, 'D'),
        HarmCategory::Toxicity => (22, 'T'),
        HarmCategory::Violence => (22, 'V'),
        HarmCategory::Sexual => (20, 'S'),
        HarmCategory::Medical => (21, 'M'),
        HarmCategory::Dangerous => (23, 'D'),
        HarmCategory::Harassment => (24, 'H'),
        HarmCategory::HateSpeech => (25, 'H'),
        HarmCategory::SexuallyExplicit => (31, 'S'),
        HarmCategory::DangerousContent => (31, 'D'),
        HarmCategory::CivicIntergrity => (29, 'C'),
    }
}

proof fn lemma_category_key(c: HarmCategory)
    ensures
        category_name(c).len() == category_key(c).0,
        category_name(c)[14] == category_key(c).1,
{
    match c {
        HarmCategory::Unspecified => reveal_strlit("HARM_CATEGORY_UNSPECIFIED"),
        HarmCategory::Derogatory => reveal_strlit("HARM_CATEGORY_DEROGATORY"),
        HarmCategory::Toxicity => reveal_strlit("HARM_CATEGORY_TOXICITY"),
        HarmCategory::Violence => reveal_strlit("HARM_CATEGORY_VIOLENCE"),
        HarmCategory::Sexual => reveal_strlit("HARM_CATEGORY_SEXUAL"),
        HarmCategory::Medical => reveal_strlit("HARM_CATEGORY_MEDICAL"),
        HarmCategory::Dangerous => reveal_strlit("HARM_CATEGORY_DANGEROUS"),
        HarmCategory::Harassment => reveal_strlit("HARM_CATEGORY_HARASSMENT"),
        HarmCategory::HateSpeech => reveal_strlit("HARM_CATEGORY_HATE_SPEECH"),
        HarmCategory::SexuallyExplicit => reveal_strlit("HARM_CATEGORY_SEXUALLY_EXPLICIT"),
        HarmCategory::DangerousContent => reveal_strlit("HARM_CATEGORY_DANGEROUS_CONTENT"),
        HarmCategory::CivicIntergrity => reveal_strlit("HARM_CATEGORY_CIVIC_INTEGRITY"),
    }
}

/// No two categories share a wire name.
proof fn lemma_category_names_distinct()
    ensures
        forall|a: HarmCategory, b: HarmCategory|
            #[trigger] category_name(a) == #[trigger] category_name(b) ==> a == b,
{
    assert forall|a: HarmCategory, b: HarmCategory|
        #[trigger] category_name(a) == #[trigger] category_name(b) implies a == b by {
        lemma_category_key(a);
        lemma_category_key(b);
    }
}

/// Reading a category's wire name gives the category back.
pub proof fn lemma_category_round_trip(c: HarmCategory)
    ensures
        category_from_name(category_name(c)) == c,
{
    lemma_category_names_distinct();
}

/// A wire name of some category, read and written again, is the same text.
pub proof fn lemma_category_name_round_trip(s: Seq<char>)
    requires
        exists|c: HarmCategory| category_name(c) == s,
    ensures
        category_name(category_from_name(s)) == s,
{
}

/// The probability that a piece of content is harmful
///
/// The classification system gives the probability of the content being unsafe.
/// This does not indicate the severity of harm for a piece of content.
#[derive(Debug, Clone, Copy, PartialEq, Eq, Structural)]
pub enum HarmProbability {
    /// Probability is unspecified
    Unspecified,
    /// Content has a negligible chance of being unsafe
    Negligible,
    /// Content has a low chance of being unsafe
    Low,
    /// Content has a medium chance of being unsafe
    Medium,
    /// Content has a high chance of being unsafe
    High,
}

/// The wire name of a harm probability.
pub open spec fn probability_name(p: HarmProbability) -> Seq<char> {
    match p {
        HarmProbability::Unspecified => "HARM_PROBABILITY_UNSPECIFIED"@,
        HarmProbability::Negligible => "NEGLIGIBLE"@,
        HarmProbability::Low => "LOW"@,
        HarmProbability::Medium => "MEDIUM"@,
        HarmProbability::High => "HIGH"@,
    }
}

/// The probability that a wire name stands for, or
/// [`HarmProbability::Unspecified`] where it is no probability's name.
pub open spec fn probability_from_name(s: Seq<char>) -> HarmProbability {
    if exists|p: HarmProbability| probability_name(p) == s {
        choose|p: HarmProbability| probability_name(p) == s
    } else {
        HarmProbability::Unspecified
    }
}

proof fn lemma_probability_name_len(p: HarmProbability)
    ensures
        probability_name(p).len() == match p {
            HarmProbability::Unspecified => 28int,
            HarmProbability::Negligible => 10,
            HarmProbability::Low => 3,
            HarmProbability::Medium => 6,
            HarmProbability::High => 4,
        },
{
    match p {
        HarmProbability::Unspecified => reveal_strlit("HARM_PROBABILITY_UNSPECIFIED"),
        HarmProbability::Negligible => reveal_strlit("NEGLIGIBLE"),
        HarmProbability::Low => reveal_strlit("LOW"),
        HarmProbability::Medium => reveal_strlit("MEDIUM"),
        HarmProbability::High => reveal_strlit("HIGH"),
    }
}

/// No two probabilities share a wire name (their lengths differ).
proof fn lemma_probability_names_distinct()
    ensures
        forall|a: HarmProbability, b: HarmProbability|
            #[trigger] probability_name(a) == #[trigger] probability_name(b) ==> a == b,
{
    assert forall|a: HarmProbability, b: HarmProbability|
        #[trigger] probability_name(a) == #[trigger] probability_name(b) implies a == b by {
        lemma_probability_name_len(a);
        lemma_probability_name_len(b);
    }
}

impl HarmProbability {
    /// The probability's wire name.
    pub fn get_real(&self) -> (r: &str)
        ensures
            r@ == probability_name(*self),
    {
        match self {
            Self::Unspecified => "HARM_PROBABILITY_UNSPECIFIED",
            Self::Negligible => "NEGLIGIBLE",
            Self::Low => "LOW",
            Self::Medium => "MEDIUM",
            Self::High => "HIGH",
        }
    }

    /// Reads a probability from its wire name; any other text reads as
    /// [`HarmProbability::Unspecified`].
    pub fn get_fake(input: &str) -> (r: HarmProbability)
        ensures
            r == probability_from_name(input@),
    {
        proof {
            lemma_probability_names_distinct();
        }
        let r = if str_eq(input, "NEGLIGIBLE") {
            HarmProbability::Negligible
        } else if str_eq(input, "LOW") {
            HarmProbability::Low
        } else if str_eq(input, "MEDIUM") {
            HarmProbability::Medium
        } else if str_eq(input, "HIGH") {
            HarmProbability::High
        } else {
            HarmProbability::Unspecified
        };
        proof {
            if r != HarmProbability::Unspecified {
                assert(probability_name(r) == input@);
            } else if exists|p: HarmProbability| probability_name(p) == input@ {
                let p = choose|p: HarmProbability| probability_name(p) == input@;
                // every other name was compared and did not match
                match p {
                    HarmProbability::Unspecified => {},
                    HarmProbability::Negligible => {},
                    HarmProbability::Low => {},
                    HarmProbability::Medium => {},
                    HarmProbability::High => {},
                }
            }
        }
        r
    }
}

/// Reading a probability's wire name gives the probability back.
pub proof fn lemma_probability_round_trip(p: HarmProbability)
    ensures
        probability_from_name(probability_name(p)) == p,
{
    lemma_probability_names_distinct();
}

/// A wire name of some probability, read and written again, is the same text.
pub proof fn lemma_probability_name_round_trip(s: Seq<char>)
    requires
        exists|p: HarmProbability| probability_name(p) == s,
    ensures
        probability_name(probability_from_name(s)) == s,
{
}

/// Block at and beyond a specified harm probability
#[derive(Debug, Clone, Copy, PartialEq, Eq, Structural)]
pub enum HarmBlockThreshold {
    /// Threshold is unspecified
    Unspecified,
    /// Content with [HarmProbability::Negligible] will be allowed.
    LowAndAbove,
    /// Content with [HarmProbability::Negligible] and [HarmProbability::Low] will be allowed.
    MediumAndAbove,
    /// Content with [HarmProbability::Negligible], [HarmProbability::Low], and [HarmProbability::Medium] will be allowed.
    OnlyHigh,
    /// All content will be allowed.
    BlockNone,
    /// Turn off the safety filter.
    Off,
}

/// The wire name of a block threshold.
pub open spec fn threshold_name(t: HarmBlockThreshold) -> Seq<char> {
    match t {
        HarmBlockThreshold::Unspecified => "HARM_BLOCK_THRESHOLD_UNSPECIFIED"@,
        HarmBlockThreshold::LowAndAbove => "BLOCK_LOW_AND_ABOVE"@,
        HarmBlockThreshold::MediumAndAbove => "BLOCK_MEDIUM_AND_ABOVE"@,
        HarmBlockThreshold::OnlyHigh => "BLOCK_ONLY_HIGH"@,
        HarmBlockThreshold::BlockNone => "BLOCK_NONE"@,
        HarmBlockThreshold::Off => "OFF"@,
    }
}

impl HarmBlockThreshold {
    /// The threshold's wire name.
    pub fn get_real(&self) -> (r: &str)
        ensures
            r@ == threshold_name(*self),
    {
        match self {
            Self::Unspecified => "HARM_BLOCK_THRESHOLD_UNSPECIFIED",
            Self::LowAndAbove => "BLOCK_LOW_AND_ABOVE",
            Self::MediumAndAbove => "BLOCK_MEDIUM_AND_ABOVE",
            Self::OnlyHigh => "BLOCK_ONLY_HIGH",
            Self::BlockNone => "BLOCK_NONE",
            Self::Off => "OFF",
        }
    }
}

/// Safety setting, affecting the safety-blocking behavior.
///
/// Passing a safety setting for a category changes the allowed probability that content is blocked.
#[derive(Debug, Clone, Copy, PartialEq, Eq, Structural)]
pub struct SafetySetting {
    pub category: HarmCategory,
    pub threshold: HarmBlockThreshold,
}

/// Safety rating for a piece of content.
///
/// The safety rating contains the category of harm and the harm probability level in that category for a piece of content.
/// Content is classified for safety across a number of harm categories
/// and the probability of the harm classification is included here.
#[derive(Debug, Clone, Copy, PartialEq, Eq, Structural)]
pub struct SafetyRating {
    pub category: HarmCategory,
    pub probability: HarmProbability,
}

/// The categories that a full set of settings covers, in order.
pub open spec fn settings_categories() -> Seq<HarmCategory> {
    seq![
        HarmCategory::Harassment,
        HarmCategory::HateSpeech,
        HarmCategory::SexuallyExplicit,
        HarmCategory::DangerousContent,
        HarmCategory::CivicIntergrity,
    ]
}

/// One setting for each of the rated categories (harassment, hate speech,
/// sexually explicit, dangerous content, civic integrity), all with the
/// given threshold.
pub fn safety_settings_from(threshold: HarmBlockThreshold) -> (r: Vec<SafetySetting>)
    ensures
        r@.len() == settings_categories().len(),
        forall|i: int|
            0 <= i < r@.len() ==> (#[trigger] r@[i]).category == settings_categories()[i]
                && r@[i].threshold == threshold,
{
    let r = vec![
        SafetySetting { category: HarmCategory::Harassment, threshold: threshold },
        SafetySetting { category: HarmCategory::HateSpeech, threshold: threshold },
        SafetySetting { category: HarmCategory::SexuallyExplicit, threshold: threshold },
        SafetySetting { category: HarmCategory::DangerousContent, threshold: threshold },
        SafetySetting { category: HarmCategory::CivicIntergrity, threshold: threshold },
    ];
    assert(r@.len() == 5);
    r
}

/// The settings used when none are given: every rated category blocked at
/// [`HarmBlockThreshold::LowAndAbove`].
pub fn default_safety_settings() -> (r: Vec<SafetySetting>)
    ensures
        r@.len() == settings_categories().len(),
        forall|i: int|
            0 <= i < r@.len() ==> (#[trigger] r@[i]).category == settings_categories()[i]
                && r@[i].threshold == HarmBlockThreshold::LowAndAbove,
{
    safety_settings_from(HarmBlockThreshold::LowAndAbove)
}

} // verus!
