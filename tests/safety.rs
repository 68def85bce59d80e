use gemini_rs::harm_probability::{self, probability_from_str, HarmProbabilities};
use gemini_rs::harm_probability::HarmProbability as P;
use gemini_rs::safety::{
    default_safety_settings, safety_settings_from, HarmBlockThreshold, HarmCategory, HarmProbability,
};
use gemini_rs::safety_settings::{self, custom, from_threshold, BlockThreshold, SafetySettings};

const ALL_CATEGORIES: [HarmCategory; 12] = [
    HarmCategory::Unspecified,
    HarmCategory::Derogatory,
    HarmCategory::Toxicity,
    HarmCategory::Violence,
    HarmCategory::Sexual,
    HarmCategory::Medical,
    HarmCategory::Dangerous,
    HarmCategory::Harassment,
    HarmCategory::HateSpeech,
    HarmCategory::SexuallyExplicit,
    HarmCategory::DangerousContent,
    HarmCategory::CivicIntergrity,
];

#[test]
fn category_names() {
    assert_eq!(HarmCategory::Harassment.get_real(), "HARM_CATEGORY_HARASSMENT");
    assert_eq!(HarmCategory::Unspecified.get_real(), "HARM_CATEGORY_UNSPECIFIED");
    assert_eq!(HarmCategory::CivicIntergrity.get_real(), "HARM_CATEGORY_CIVIC_INTEGRITY");
    assert_eq!(HarmCategory::Medical.get_real(), "HARM_CATEGORY_MEDICAL");
}

#[test]
fn category_round_trip() {
    for c in ALL_CATEGORIES {
        assert_eq!(HarmCategory::get_fake(c.get_real()), c);
    }
}

#[test]
fn category_unknown_name() {
    assert_eq!(HarmCategory::get_fake("HARM_CATEGORY"), HarmCategory::Unspecified);
    assert_eq!(HarmCategory::get_fake(""), HarmCategory::Unspecified);
    assert_eq!(HarmCategory::get_fake("harm_category_toxicity"), HarmCategory::Unspecified);
    assert_eq!(HarmCategory::get_fake("HARM_CATEGORY_TOXICITY"), HarmCategory::Toxicity);
}

#[test]
fn probability_names() {
    let all = [
        HarmProbability::Unspecified,
        HarmProbability::Negligible,
        HarmProbability::Low,
        HarmProbability::Medium,
        HarmProbability::High,
    ];
    for p in all {
        assert_eq!(HarmProbability::get_fake(p.get_real()), p);
    }
    assert_eq!(HarmProbability::Unspecified.get_real(), "HARM_PROBABILITY_UNSPECIFIED");
    assert_eq!(HarmProbability::Medium.get_real(), "MEDIUM");
    assert_eq!(HarmProbability::get_fake("VERY_HIGH"), HarmProbability::Unspecified);
}

#[test]
fn threshold_names() {
    assert_eq!(HarmBlockThreshold::Unspecified.get_real(), "HARM_BLOCK_THRESHOLD_UNSPECIFIED");
    assert_eq!(HarmBlockThreshold::LowAndAbove.get_real(), "BLOCK_LOW_AND_ABOVE");
    assert_eq!(HarmBlockThreshold::MediumAndAbove.get_real(), "BLOCK_MEDIUM_AND_ABOVE");
    assert_eq!(HarmBlockThreshold::OnlyHigh.get_real(), "BLOCK_ONLY_HIGH");
    assert_eq!(HarmBlockThreshold::BlockNone.get_real(), "BLOCK_NONE");
    assert_eq!(HarmBlockThreshold::Off.get_real(), "OFF");
}

#[test]
fn settings_from_threshold() {
    let s = safety_settings_from(HarmBlockThreshold::OnlyHigh);
    let cats: Vec<HarmCategory> = s.iter().map(|x| x.category).collect();
    assert_eq!(
        cats,
        vec![
            HarmCategory::Harassment,
            HarmCategory::HateSpeech,
            HarmCategory::SexuallyExplicit,
            HarmCategory::DangerousContent,
            HarmCategory::CivicIntergrity,
        ]
    );
    assert!(s.iter().all(|x| x.threshold == HarmBlockThreshold::OnlyHigh));
}

#[test]
fn default_settings_block_low_and_above() {
    let s = default_safety_settings();
    assert_eq!(s.len(), 5);
    assert!(s.iter().all(|x| x.threshold == HarmBlockThreshold::LowAndAbove));
    assert_eq!(s, safety_settings_from(HarmBlockThreshold::LowAndAbove));
}

#[test]
fn block_threshold_names() {
    assert_eq!(BlockThreshold::BlockNone.get_actual(), "BLOCK_NONE");
    assert_eq!(BlockThreshold::OnlyHigh.get_actual(), "BLOCK_ONLY_HIGH");
    assert_eq!(BlockThreshold::MediumAndAbove.get_actual(), "BLOCK_MEDIUM_AND_ABOVE");
    assert_eq!(BlockThreshold::LowAndAbove.get_actual(), "BLOCK_LOW_AND_ABOVE");
}

fn collect_settings(s: &SafetySettings) -> Vec<(String, BlockThreshold)> {
    let mut it = s.iter();
    let mut out = Vec::new();
    while let Some((name, t)) = it.next() {
        out.push((name, *t));
    }
    out
}

#[test]
fn settings_iteration_order() {
    let s = custom(
        BlockThreshold::BlockNone,
        BlockThreshold::OnlyHigh,
        BlockThreshold::MediumAndAbove,
        BlockThreshold::LowAndAbove,
        BlockThreshold::OnlyHigh,
    );
    let items = collect_settings(&s);
    assert_eq!(
        items,
        vec![
            ("HARM_CATEGORY_HARASSMENT".to_string(), BlockThreshold::BlockNone),
            ("HARM_CATEGORY_HATE_SPEECH".to_string(), BlockThreshold::OnlyHigh),
            ("HARM_CATEGORY_SEXUALLY_EXPLICIT".to_string(), BlockThreshold::MediumAndAbove),
            ("HARM_CATEGORY_DANGEROUS_CONTENT".to_string(), BlockThreshold::LowAndAbove),
            ("HARM_CATEGORY_CIVIC_INTEGRITY".to_string(), BlockThreshold::OnlyHigh),
        ]
    );
    let mut it = s.iter();
    for _ in 0..5 {
        assert!(it.next().is_some());
    }
    assert!(it.next().is_none());
    assert!(it.next().is_none());
}

#[test]
fn settings_default_and_uniform() {
    assert_eq!(safety_settings::default(), from_threshold(BlockThreshold::LowAndAbove));
    let s = from_threshold(BlockThreshold::MediumAndAbove);
    assert!(collect_settings(&s).iter().all(|(_, t)| *t == BlockThreshold::MediumAndAbove));
}

#[test]
fn probabilities_iteration() {
    let mut p: HarmProbabilities = harm_probability::none();
    p.hate_speech = harm_probability::HarmProbability::High;
    let mut it = p.iter();
    let mut names = Vec::new();
    let mut values = Vec::new();
    while let Some((name, v)) = it.next() {
        names.push(name);
        values.push(*v);
    }
    assert_eq!(names[0], "HARM_CATEGORY_HARASSMENT");
    assert_eq!(names[4], "HARM_CATEGORY_CIVIC_INTEGRITY");
    assert_eq!(values.len(), 5);
    assert_eq!(values[1], harm_probability::HarmProbability::High);
    assert_eq!(values[0], harm_probability::HarmProbability::NotApplicable);
}

#[test]
fn probability_from_wire_names() {
    assert_eq!(probability_from_str("LOW"), P::Low);
    assert_eq!(probability_from_str("MEDIUM"), P::Medium);
    assert_eq!(probability_from_str("HIGH"), P::High);
    assert_eq!(probability_from_str("NEGLIGIBLE"), P::Negligible);
    assert_eq!(probability_from_str("low"), P::Negligible);
    assert_eq!(probability_from_str(""), P::Negligible);
}
