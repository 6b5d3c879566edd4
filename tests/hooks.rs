use baudrate_sanitizer::{
    clean_content_tags, federation_policy, federation_tags, filter_attribute, filter_code_class,
    filter_span_class, is_unicode_whitespace, markdown_policy, str_eq, strip_all_policy,
    AttributeFilter, RelativeUrlPolicy,
};

#[test]
fn span_class_keeps_safe_tokens_in_order() {
    assert_eq!(filter_span_class("hashtag evil"), Some("hashtag".to_string()));
    assert_eq!(filter_span_class("evil"), None);
    assert_eq!(
        filter_span_class("\tinvisible  evil\nmention h-card "),
        Some("invisible mention h-card".to_string())
    );
    assert_eq!(filter_span_class("hashtag\u{3000}mention"), Some("hashtag mention".to_string()));
}

#[test]
fn span_class_edge_cases() {
    assert_eq!(filter_span_class(""), None);
    assert_eq!(filter_span_class("   "), None);
    assert_eq!(filter_span_class("Hashtag"), None);
    assert_eq!(filter_span_class("hashtags"), None);
    assert_eq!(filter_span_class("hashtag hashtag"), Some("hashtag hashtag".to_string()));
}

#[test]
fn span_class_filter_is_idempotent() {
    for v in ["hashtag evil mention", " h-card ", "x y", "invisible"] {
        if let Some(once) = filter_span_class(v) {
            assert_eq!(filter_span_class(&once), Some(once.clone()));
        }
    }
}

#[test]
fn code_class_requires_language_prefix() {
    assert_eq!(filter_code_class("language-rust"), Some("language-rust".to_string()));
    assert_eq!(filter_code_class("language-Obj_C-2"), Some("language-Obj_C-2".to_string()));
    assert_eq!(filter_code_class("lang-rust"), None);
    assert_eq!(filter_code_class("language-"), None);
    assert_eq!(filter_code_class("language-c++"), None);
    assert_eq!(filter_code_class("language-rust x"), None);
    assert_eq!(filter_code_class("xlanguage-rust"), None);
    assert_eq!(filter_code_class("language-rust\n"), None);
    assert_eq!(filter_code_class(""), None);
}

#[test]
fn attribute_filter_dispatch() {
    let span = AttributeFilter::SpanClassTokens;
    assert_eq!(filter_attribute(span, "span", "class", "a mention"), Some("mention".to_string()));
    assert_eq!(filter_attribute(span, "p", "class", "a mention"), Some("a mention".to_string()));
    assert_eq!(filter_attribute(span, "span", "id", "evil"), Some("evil".to_string()));
    let code = AttributeFilter::CodeLanguageClass;
    assert_eq!(filter_attribute(code, "code", "class", "lang-x"), None);
    assert_eq!(filter_attribute(code, "span", "class", "lang-x"), Some("lang-x".to_string()));
    let keep = AttributeFilter::KeepAll;
    assert_eq!(filter_attribute(keep, "span", "class", "evil"), Some("evil".to_string()));
}

#[test]
fn tag_lists() {
    let tags = federation_tags();
    assert_eq!(tags.len(), 20);
    assert!(tags.contains(&"span") && tags.contains(&"h6") && !tags.contains(&"div"));
    let removed = clean_content_tags();
    assert_eq!(removed.len(), 10);
    assert!(removed.contains(&"script") && removed.contains(&"math"));
    assert!(removed.iter().all(|t| !tags.contains(t)));
}

#[test]
fn profile_settings() {
    let f = federation_policy();
    assert_eq!(f.forced_link_rel, Some("nofollow noopener noreferrer"));
    assert_eq!(f.relative_urls, RelativeUrlPolicy::Deny);
    assert_eq!(f.url_schemes, vec!["http", "https"]);
    let m = markdown_policy();
    assert_eq!(m.allowed_tags.len(), 27);
    assert_eq!(m.forced_link_rel, Some("nofollow noopener"));
    assert_eq!(m.relative_urls, RelativeUrlPolicy::PassThrough);
    assert_eq!(m.attribute_filter, AttributeFilter::CodeLanguageClass);
    let s = strip_all_policy();
    assert!(s.allowed_tags.is_empty());
    assert!(s.strip_comments);
    assert_eq!(s.forced_link_rel, None);
}

#[test]
fn whitespace_and_equality_helpers() {
    assert!(is_unicode_whitespace(' ') && is_unicode_whitespace('\u{85}'));
    assert!(is_unicode_whitespace('\u{2009}') && !is_unicode_whitespace('\u{200B}'));
    assert!(!is_unicode_whitespace('x'));
    for c in ['\t', '\n', '\u{a0}', '\u{1680}', '\u{202f}', '\u{3000}', 'a', '\u{180e}'] {
        assert_eq!(is_unicode_whitespace(c), c.is_whitespace());
    }
    assert!(str_eq("ü-x", "ü-x"));
    assert!(!str_eq("span", "spam"));
    assert!(!str_eq("a", "ab"));
}

#[test]
fn long_span_class_value() {
    let mut v = "evil ".repeat(50_000);
    v.push_str("hashtag");
    assert_eq!(filter_span_class(&v), Some("hashtag".to_string()));
    let html = format!(r#"<span class="{}">t</span>"#, v);
    assert_eq!(
        baudrate_sanitizer::sanitize_federation(&html),
        r#"<span class="hashtag">t</span>"#
    );
}
