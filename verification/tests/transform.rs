use clipboard_cleaner::EngineError;
use clipboard_cleaner::char_filter::{CharFilter, CharFilterComponent};
use clipboard_cleaner::config::{
    CharacterFilter, CharacterRange, Config, Transformation, TransformationAction,
    TransformationProfile, WrappedFilter,
};
use clipboard_cleaner::text_transformation::{
    ReplacementPattern, SimpleTransformation, SimpleTransformationAction, TextTransformation,
};

fn profile_of(steps: Vec<Transformation>) -> TransformationProfile {
    TransformationProfile {
        name: "test".to_string(),
        display_name: None,
        description: None,
        transformations: steps,
    }
}

fn empty_config(profile: &TransformationProfile) -> Config {
    Config::new(Vec::new(), vec![profile.clone()], None, None)
}

fn single_char_filter(c: char) -> CharacterFilter {
    CharacterFilter::new(vec![CharacterRange::for_single(c as u32)])
}

#[test]
fn char_filter_single_and_range() {
    let f = CharFilter::new(vec![
        CharFilterComponent::Single('x'),
        CharFilterComponent::Range('a', 'f'),
    ]);
    assert!(f.matches('x'));
    assert!(f.matches('a'));
    assert!(f.matches('c'));
    assert!(f.matches('f'));
    assert!(!f.matches('g'));
    assert!(!f.matches('w'));
    assert!(!f.matches('A'));
}

#[test]
fn char_filter_reversed_range_matches_nothing() {
    let f = CharFilter::new(vec![CharFilterComponent::Range('f', 'a')]);
    assert!(!f.matches('a'));
    assert!(!f.matches('c'));
    assert!(!f.matches('f'));
}

#[test]
fn char_filter_from_config_single_and_range() {
    let def = CharacterFilter::new(vec![
        CharacterRange::for_single(0x41),
        CharacterRange::for_range(0x61, 0x66),
    ]);
    let f = CharFilter::from_config(&def).unwrap();
    assert!(f.matches('A'));
    assert!(f.matches('c'));
    assert!(!f.matches('B'));
}

#[test]
fn char_filter_from_config_rejects_incomplete_range() {
    let bad = CharacterRange {
        single: None,
        start: Some(0x41),
        end: None,
    };
    let def = CharacterFilter::new(vec![bad]);
    assert_eq!(
        CharFilter::from_config(&def),
        Err(EngineError::InvalidCharacterRange)
    );
}

#[test]
fn character_range_accessors() {
    let s = CharacterRange::for_single(7);
    assert_eq!(s.single(), Some(7));
    assert_eq!(s.start(), None);
    assert_eq!(s.end(), None);
    let r = CharacterRange::for_range(1, 9);
    assert_eq!(r.single(), None);
    assert_eq!(r.start(), Some(1));
    assert_eq!(r.end(), Some(9));
}

#[test]
fn pattern_entity() {
    assert_eq!(ReplacementPattern::Entity.replace('A'), "&#65;");
    assert_eq!(ReplacementPattern::Entity.replace('\u{fffd}'), "&#65533;");
}

#[test]
fn pattern_escaped_hex_bytes() {
    assert_eq!(
        ReplacementPattern::EscapedHexBytes.replace('A'),
        "\\x00\\x00\\x00\\x41"
    );
    assert_eq!(
        ReplacementPattern::EscapedHexBytes.replace('\r'),
        "\\x00\\x00\\x00\\x0d"
    );
    assert_eq!(
        ReplacementPattern::EscapedHexBytes.replace('\u{1f600}'),
        "\\x00\\x01\\xf6\\x00"
    );
}

#[test]
fn pattern_simple_codepoint_padding() {
    assert_eq!(ReplacementPattern::SimpleUnicodeCodepoint.replace('A'), "0041");
    assert_eq!(
        ReplacementPattern::SimpleUnicodeCodepoint.replace('\u{ffff}'),
        "ffff"
    );
    assert_eq!(
        ReplacementPattern::SimpleUnicodeCodepoint.replace('\u{1f600}'),
        "0001f600"
    );
}

#[test]
fn pattern_escaped_unicode() {
    assert_eq!(ReplacementPattern::EscapedUnicode.replace('\u{fffd}'), "\\ufffd");
    assert_eq!(
        ReplacementPattern::EscapedUnicode.replace('\u{1f600}'),
        "\\U0001f600"
    );
}

#[test]
fn pattern_uplus_is_unpadded() {
    assert_eq!(ReplacementPattern::UplusUnicode.replace('A'), "U+41");
    assert_eq!(ReplacementPattern::UplusUnicode.replace('\u{fffd}'), "U+fffd");
}

#[test]
fn pattern_rust_debug_escape() {
    assert_eq!(
        ReplacementPattern::RustDebugEscapedUnicode.replace('\r'),
        "\\u{d}"
    );
    assert_eq!(
        ReplacementPattern::RustDebugEscapedUnicode.replace('\u{fffd}'),
        "\\u{fffd}"
    );
}

#[test]
fn pattern_identity_and_literal() {
    assert_eq!(ReplacementPattern::Identity.replace('A'), "A");
    assert_eq!(
        ReplacementPattern::Literal("xyz".to_string()).replace('A'),
        "xyz"
    );
}

#[test]
fn template_uni_esc_round_trip() {
    let action = SimpleTransformationAction::from_str("{uni-esc}").unwrap();
    assert_eq!(action.execute('\u{fffd}'), Some("\\ufffd".to_string()));
    assert_eq!(action.execute('\u{1f600}'), Some("\\U0001f600".to_string()));
}

#[test]
fn template_literals_pass_through() {
    let action = SimpleTransformationAction::from_str("a{ident}b").unwrap();
    assert_eq!(action.execute('X'), Some("aXb".to_string()));
}

#[test]
fn template_all_tags() {
    let action =
        SimpleTransformationAction::from_str("{char}/{hex-esc}/{uni-simple}/{uni-esc}/{uni-codepoint}/{rust}/{entity}")
            .unwrap();
    assert_eq!(
        action.execute('A'),
        Some("A/\\x00\\x00\\x00\\x41/0041/\\u0041/U+41/\\u{41}/&#65;".to_string())
    );
}

#[test]
fn template_unknown_tag_is_an_error() {
    assert_eq!(
        SimpleTransformationAction::from_str("{bogus}"),
        Err(EngineError::PatternSyntax)
    );
}

#[test]
fn template_unterminated_tag_becomes_literal() {
    let action = SimpleTransformationAction::from_str("{abc").unwrap();
    assert_eq!(action.execute('X'), Some("abc".to_string()));
}

#[test]
fn remove_action_emits_nothing() {
    let action = SimpleTransformationAction::from_config(&TransformationAction::Remove).unwrap();
    assert_eq!(action.execute('A'), None);
}

#[test]
fn simple_transformation_replaces_matched_chars() {
    let step = Transformation::new(
        vec![WrappedFilter::Value(single_char_filter('A'))],
        TransformationAction::Replace("{ident}{ident}".to_string()),
    );
    let profile = profile_of(vec![step.clone()]);
    let config = empty_config(&profile);
    let t = SimpleTransformation::new(&config, &step).unwrap();
    assert_eq!(t.execute("A"), "AA");
    assert_eq!(t.execute("bAc"), "bAAc");
    assert_eq!(t.execute(""), "");
}

#[test]
fn sequential_steps_rescan_previous_output() {
    let step1 = Transformation::new(
        vec![WrappedFilter::Value(single_char_filter('A'))],
        TransformationAction::Replace("{ident}{ident}".to_string()),
    );
    let step2 = Transformation::new(
        vec![WrappedFilter::Value(single_char_filter('A'))],
        TransformationAction::Remove,
    );
    let profile = profile_of(vec![step1, step2]);
    let config = empty_config(&profile);
    let t = TextTransformation::new(&config, &profile).unwrap();
    assert_eq!(t.execute("A"), "");
}

#[test]
fn remove_action_strips_control_range() {
    let filter = CharacterFilter::new(vec![CharacterRange::for_range(0x0000, 0x001f)]);
    let step = Transformation::new(
        vec![WrappedFilter::Value(filter)],
        TransformationAction::Remove,
    );
    let profile = profile_of(vec![step]);
    let config = empty_config(&profile);
    let t = TextTransformation::new(&config, &profile).unwrap();
    assert_eq!(t.execute("a\u{0001}b"), "ab");
}

#[test]
fn identity_profile_with_unmatched_filters_preserves_text() {
    let step = Transformation::new(
        vec![WrappedFilter::Value(single_char_filter('\u{fffd}'))],
        TransformationAction::Replace("{ident}".to_string()),
    );
    let profile = profile_of(vec![step]);
    let config = empty_config(&profile);
    let t = TextTransformation::new(&config, &profile).unwrap();
    assert_eq!(t.execute("lorem ipsum"), "lorem ipsum");
}

#[test]
fn empty_profile_is_identity() {
    let profile = profile_of(Vec::new());
    let config = empty_config(&profile);
    let t = TextTransformation::new(&config, &profile).unwrap();
    assert_eq!(t.execute("unchanged \u{1f600}"), "unchanged \u{1f600}");
}

#[test]
fn profile_compilation_fails_on_bad_template() {
    let step = Transformation::new(
        vec![WrappedFilter::Value(single_char_filter('A'))],
        TransformationAction::Replace("{bogus}".to_string()),
    );
    let profile = profile_of(vec![step]);
    let config = empty_config(&profile);
    assert_eq!(
        TextTransformation::new(&config, &profile),
        Err(EngineError::PatternSyntax)
    );
}

#[test]
fn profile_compilation_fails_on_bad_range() {
    let bad = CharacterFilter::new(vec![CharacterRange {
        single: None,
        start: None,
        end: Some(3),
    }]);
    let step = Transformation::new(
        vec![WrappedFilter::Value(bad)],
        TransformationAction::Remove,
    );
    let profile = profile_of(vec![step]);
    let config = empty_config(&profile);
    assert_eq!(
        TextTransformation::new(&config, &profile),
        Err(EngineError::InvalidCharacterRange)
    );
}

#[test]
fn unresolved_filter_reference_is_skipped() {
    let step = Transformation::new(
        vec![WrappedFilter::Reference("missing".to_string())],
        TransformationAction::Remove,
    );
    let profile = profile_of(vec![step]);
    let config = empty_config(&profile);
    let t = TextTransformation::new(&config, &profile).unwrap();
    assert_eq!(t.execute("kept"), "kept");
}

#[test]
fn named_filter_reference_is_resolved() {
    let step = Transformation::new(
        vec![WrappedFilter::Reference("vowels".to_string())],
        TransformationAction::Remove,
    );
    let profile = profile_of(vec![step.clone()]);
    let config = Config::new(
        vec![(
            "vowels".to_string(),
            CharacterFilter::new(vec![
                CharacterRange::for_single('a' as u32),
                CharacterRange::for_single('e' as u32),
            ]),
        )],
        vec![profile.clone()],
        None,
        None,
    );
    let t = TextTransformation::new(&config, &profile).unwrap();
    assert_eq!(t.execute("beast"), "bst");
}

#[test]
fn identity_constant_profile() {
    let p = TransformationProfile::identity();
    assert_eq!(p.name(), "identity");
    assert_eq!(
        p.display_name().as_deref(),
        Some("Identity transformation")
    );
    assert_eq!(p.description().as_deref(), Some("Does not change the text."));
    assert!(p.transformations().is_empty());
}
