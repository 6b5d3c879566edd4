use baudrate_sanitizer::{sanitize_federation, sanitize_markdown, strip_tags};

const FED_REL: &str = "nofollow noopener noreferrer";

#[test]
fn federation_drops_javascript_href() {
    let out = sanitize_federation(r#"<a href="javascript:alert(1)">x</a>"#);
    assert_eq!(out, format!(r#"<a rel="{}">x</a>"#, FED_REL));
    assert!(!out.contains("href"));
    assert!(out.contains('x'));
}

#[test]
fn federation_denies_relative_href() {
    let out = sanitize_federation(r#"<a href="/x">y</a>"#);
    assert_eq!(out, format!(r#"<a rel="{}">y</a>"#, FED_REL));
}

#[test]
fn markdown_passes_relative_href() {
    let out = sanitize_markdown(r#"<a href="/x">y</a>"#);
    assert_eq!(out, r#"<a href="/x" rel="nofollow noopener">y</a>"#);
}

#[test]
fn federation_keeps_https_href() {
    let out = sanitize_federation(r#"<a href="https://example.com/">y</a>"#);
    assert_eq!(out, format!(r#"<a href="https://example.com/" rel="{}">y</a>"#, FED_REL));
}

#[test]
fn markdown_keeps_mailto_href_and_federation_drops_it() {
    let input = r#"<a href="mailto:a@example.com">m</a>"#;
    assert_eq!(
        sanitize_markdown(input),
        r#"<a href="mailto:a@example.com" rel="nofollow noopener">m</a>"#
    );
    assert_eq!(sanitize_federation(input), format!(r#"<a rel="{}">m</a>"#, FED_REL));
}

#[test]
fn federation_filters_span_classes() {
    assert_eq!(
        sanitize_federation(r#"<span class="hashtag evil">t</span>"#),
        r#"<span class="hashtag">t</span>"#
    );
    assert_eq!(sanitize_federation(r#"<span class="evil">t</span>"#), "<span>t</span>");
    assert_eq!(
        sanitize_federation(r#"<span class="  mention   h-card ">t</span>"#),
        r#"<span class="mention h-card">t</span>"#
    );
}

#[test]
fn markdown_filters_code_language_class() {
    assert_eq!(
        sanitize_markdown(r#"<code class="language-rust">c</code>"#),
        r#"<code class="language-rust">c</code>"#
    );
    assert_eq!(sanitize_markdown(r#"<code class="lang-rust">c</code>"#), "<code>c</code>");
}

#[test]
fn federation_drops_code_class() {
    assert_eq!(sanitize_federation(r#"<code class="language-rust">c</code>"#), "<code>c</code>");
}

#[test]
fn forced_rel_overrides_input_rel() {
    let fed = sanitize_federation(r#"<a href="https://e.com/" rel="me">x</a>"#);
    assert_eq!(fed, format!(r#"<a href="https://e.com/" rel="{}">x</a>"#, FED_REL));
    let md = sanitize_markdown(r#"<a rel="me">x</a>"#);
    assert_eq!(md, r#"<a rel="nofollow noopener">x</a>"#);
}

#[test]
fn unwrap_preserves_children() {
    assert_eq!(sanitize_federation("<div><p>hi</p></div>"), "<p>hi</p>");
}

#[test]
fn text_is_escaped_in_every_profile() {
    let input = "a &lt; b &amp; c &gt; d";
    let expected = "a &lt; b &amp; c &gt; d";
    assert_eq!(sanitize_federation(input), expected);
    assert_eq!(sanitize_markdown(input), expected);
    assert_eq!(strip_tags(input), expected);
    assert_eq!(strip_tags("<p>1 < 2 & 3 > 0</p>"), "1 &lt; 2 &amp; 3 &gt; 0");
}

#[test]
fn script_content_is_removed_by_every_profile() {
    let input = "<p>ok<script>alert('pwned')</script></p>";
    for out in [sanitize_federation(input), sanitize_markdown(input), strip_tags(input)] {
        assert!(!out.contains("script"));
        assert!(!out.contains("pwned"));
        assert!(out.contains("ok"));
    }
    assert_eq!(strip_tags(input), "ok");
}

#[test]
fn allowed_script_wrapper_does_not_rescue_content() {
    let input = "<p><strong><style>body{}</style>bold</strong></p><iframe>frame</iframe>";
    assert_eq!(sanitize_federation(input), "<p><strong>bold</strong></p>");
}

#[test]
fn federation_unwraps_tables_and_images() {
    let input = r#"<table><tr><td>x</td></tr></table><img src="https://e.com/a.png" alt="a">"#;
    assert_eq!(sanitize_federation(input), "x");
}

#[test]
fn markdown_keeps_tables_and_images() {
    let input = r#"<table><tbody><tr><td>x</td></tr></tbody></table><img src="https://e.com/a.png" alt="a" width="3">"#;
    assert_eq!(
        sanitize_markdown(input),
        r#"<table><tbody><tr><td>x</td></tr></tbody></table><img src="https://e.com/a.png" alt="a">"#
    );
}

#[test]
fn generic_attributes_are_not_allowed() {
    assert_eq!(sanitize_federation(r#"<p title="t" lang="en" onclick="x()">p</p>"#), "<p>p</p>");
}

#[test]
fn comments_are_stripped() {
    assert_eq!(sanitize_federation("<p>a<!-- c -->b</p>"), "<p>ab</p>");
    assert_eq!(sanitize_markdown("<!-- c -->b"), "b");
    assert_eq!(strip_tags("x<!-- c -->y"), "xy");
}

#[test]
fn strip_tags_leaves_no_markup() {
    let input = r#"<div class="a"><p>one <em>two</em></p><a href="https://e.com">three</a></div>"#;
    let out = strip_tags(input);
    assert_eq!(out, "one twothree");
    let bytes = out.as_bytes();
    for i in 0..bytes.len().saturating_sub(1) {
        assert!(!(bytes[i] == b'<' && bytes[i + 1].is_ascii_alphabetic()));
    }
}

#[test]
fn sanitizing_twice_changes_nothing() {
    let inputs = [
        r#"<div><p>hi <span class="hashtag evil">#t</span></p></div>"#,
        r#"<a href="https://e.com/?a=1&b=2" rel="x">l</a> &amp; <code class="language-rust">c</code>"#,
        "<ul><li>1<li>2</ul><script>x</script>&lt;b&gt;",
        r#"<table><tr><td>x</td></tr></table><img src="/a.png" alt="a"> a < b"#,
    ];
    for s in inputs {
        let f = sanitize_federation(s);
        assert_eq!(sanitize_federation(&f), f);
        let m = sanitize_markdown(s);
        assert_eq!(sanitize_markdown(&m), m);
        let t = strip_tags(s);
        assert_eq!(strip_tags(&t), t);
    }
}

#[test]
fn federation_output_uses_only_allowed_tags() {
    let input = "<div><h1>t</h1><section><b>b</b><i>i</i><em>e</em></section><marquee>m</marquee></div>";
    assert_eq!(sanitize_federation(input), "<h1>t</h1>bi<em>e</em>m");
}

#[test]
fn encoded_javascript_scheme_is_rejected() {
    let out = sanitize_markdown(r#"<a href="jav&#x61;script:alert(1)">x</a>"#);
    assert_eq!(out, r#"<a rel="nofollow noopener">x</a>"#);
}

#[test]
fn empty_input_gives_empty_output() {
    assert_eq!(sanitize_federation(""), "");
    assert_eq!(sanitize_markdown(""), "");
    assert_eq!(strip_tags(""), "");
}
