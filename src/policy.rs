use vstd::prelude::*;

use crate::hooks::{filtered_attribute, AttributeFilter};

verus! {

/// What happens to a URL-valued attribute whose value has no scheme.
#[derive(Clone, Copy, Debug, PartialEq, Eq, Structural)]
pub enum RelativeUrlPolicy {
    /// The attribute is dropped.
    Deny,
    /// The attribute is kept unchanged.
    PassThrough,
}

/// A sanitization policy: which elements, attributes and URL schemes
/// survive, which elements are removed with everything inside them, and
/// what is forced onto or filtered out of the survivors.
#[derive(Clone, Debug, PartialEq, Eq)]
pub struct Policy {
    /// Elements kept as elements; any other element is unwrapped.
    pub allowed_tags: Vec<&'static str>,
    /// For each element, the attributes it may keep.
    pub allowed_attributes: Vec<(&'static str, Vec<&'static str>)>,
    /// Schemes an absolute URL-valued attribute may have.
    pub url_schemes: Vec<&'static str>,
    /// How URL-valued attributes without a scheme are treated.
    pub relative_urls: RelativeUrlPolicy,
    /// Elements removed together with their whole subtree.
    pub content_removal_tags: Vec<&'static str>,
    /// Whether comments are dropped.
    pub strip_comments: bool,
    /// The `rel` value set on every surviving `a` element.
    pub forced_link_rel: Option<&'static str>,
    /// The hook applied to surviving attributes.
    pub attribute_filter: AttributeFilter,
}

/// The mathematical model of a `Policy`.
pub struct PolicyModel {
    pub allowed_tags: Seq<Seq<char>>,
    pub allowed_attributes: Seq<(Seq<char>, Seq<Seq<char>>)>,
    pub url_schemes: Seq<Seq<char>>,
    pub relative_urls: RelativeUrlPolicy,
    pub content_removal_tags: Seq<Seq<char>>,
    pub strip_comments: bool,
    pub forced_link_rel: Option<Seq<char>>,
    pub attribute_filter: AttributeFilter,
}

impl View for Policy {
    type V = PolicyModel;

    open spec fn view(&self) -> PolicyModel {
        PolicyModel {
            allowed_tags: self.allowed_tags.deep_view(),
            allowed_attributes: self.allowed_attributes.deep_view(),
            url_schemes: self.url_schemes.deep_view(),
            relative_urls: self.relative_urls,
            content_removal_tags: self.content_removal_tags.deep_view(),
            strip_comments: self.strip_comments,
            forced_link_rel: match self.forced_link_rel {
                Some(s) => Some(s@),
                None => None,
            },
            attribute_filter: self.attribute_filter,
        }
    }
}

impl PolicyModel {
    /// The attributes allowed on element `tag`, over all its entries.
    pub open spec fn allows_attribute(self, tag: Seq<char>, attribute: Seq<char>) -> bool {
        exists|j: int|
            0 <= j < self.allowed_attributes.len() && (#[trigger] self.allowed_attributes[j]).0
                == tag && self.allowed_attributes[j].1.contains(attribute)
    }

    /// A policy is consistent when no element is both removed with its
    /// content and kept or given attributes, and a forced `rel` is not also
    /// an allowed attribute of `a`.
    pub open spec fn wf(self) -> bool {
        &&& forall|i: int, j: int|
            0 <= i < self.content_removal_tags.len() && 0 <= j < self.allowed_tags.len()
                ==> #[trigger] self.content_removal_tags[i] != #[trigger] self.allowed_tags[j]
        &&& forall|i: int, j: int|
            0 <= i < self.content_removal_tags.len() && 0 <= j < self.allowed_attributes.len()
                ==> #[trigger] self.content_removal_tags[i]
                != (#[trigger] self.allowed_attributes[j]).0
        &&& self.forced_link_rel is Some ==> !self.allows_attribute("a"@, "rel"@)
    }
}

/// The elements federated content keeps.
pub open spec fn federation_tag_names() -> Seq<Seq<char>> {
    seq![
        "p"@, "br"@, "hr"@, "h1"@, "h2"@, "h3"@, "h4"@, "h5"@, "h6"@, "em"@, "strong"@,
        "del"@, "code"@, "pre"@, "blockquote"@, "ul"@, "ol"@, "li"@, "a"@, "span"@,
    ]
}

/// The elements removed with their content by the federation and Markdown
/// profiles.
pub open spec fn content_removal_tag_names() -> Seq<Seq<char>> {
    seq![
        "script"@, "style"@, "iframe"@, "object"@, "embed"@, "form"@, "input"@,
        "textarea"@, "svg"@, "math"@,
    ]
}

/// The element names of federated content.
pub fn federation_tags() -> (r: Vec<&'static str>)
    ensures
        r.deep_view() == federation_tag_names(),
{
    let r = vec![
        "p", "br", "hr", "h1", "h2", "h3", "h4", "h5", "h6", "em", "strong", "del", "code",
        "pre", "blockquote", "ul", "ol", "li", "a", "span",
    ];
    assert(r.deep_view() =~= federation_tag_names());
    r
}

/// The element names removed with everything inside them.
pub fn clean_content_tags() -> (r: Vec<&'static str>)
    ensures
        r.deep_view() == content_removal_tag_names(),
{
    let r = vec![
        "script", "style", "iframe", "object", "embed", "form", "input", "textarea", "svg",
        "math",
    ];
    assert(r.deep_view() =~= content_removal_tag_names());
    r
}


/// The elements rendered Markdown keeps: those of federated content and
/// tables and images.
pub open spec fn markdown_tag_names() -> Seq<Seq<char>> {
    federation_tag_names() + seq![
        "table"@, "thead"@, "tbody"@, "tr"@, "th"@, "td"@, "img"@,
    ]
}

/// The federation profile.
pub open spec fn federation_model() -> PolicyModel {
    PolicyModel {
        allowed_tags: federation_tag_names(),
        allowed_attributes: seq![("a"@, seq!["href"@]), ("span"@, seq!["class"@])],
        url_schemes: seq!["http"@, "https"@],
        relative_urls: RelativeUrlPolicy::Deny,
        content_removal_tags: content_removal_tag_names(),
        strip_comments: true,
        forced_link_rel: Some("nofollow noopener noreferrer"@),
        attribute_filter: AttributeFilter::SpanClassTokens,
    }
}

/// The Markdown profile.
pub open spec fn markdown_model() -> PolicyModel {
    PolicyModel {
        allowed_tags: markdown_tag_names(),
        allowed_attributes: seq![
            ("a"@, seq!["href"@]),
            ("code"@, seq!["class"@]),
            ("img"@, seq!["src"@, "alt"@]),
        ],
        url_schemes: seq!["http"@, "https"@, "mailto"@],
        relative_urls: RelativeUrlPolicy::PassThrough,
        content_removal_tags: content_removal_tag_names(),
        strip_comments: true,
        forced_link_rel: Some("nofollow noopener"@),
        attribute_filter: AttributeFilter::CodeLanguageClass,
    }
}

/// The strip-all profile: no element survives, scripts and style sheets
/// go with their content, comments are dropped.
pub open spec fn strip_all_model() -> PolicyModel {
    PolicyModel {
        allowed_tags: Seq::empty(),
        allowed_attributes: Seq::empty(),
        url_schemes: Seq::empty(),
        relative_urls: RelativeUrlPolicy::PassThrough,
        content_removal_tags: seq!["script"@, "style"@],
        strip_comments: true,
        forced_link_rel: None,
        attribute_filter: AttributeFilter::KeepAll,
    }
}

proof fn lemma_reveal_tag_names()
    ensures
        "p"@ == seq!['p'],
        "br"@ == seq!['b', 'r'],
        "hr"@ == seq!['h', 'r'],
        "h1"@ == seq!['h', '1'],
        "h2"@ == seq!['h', '2'],
        "h3"@ == seq!['h', '3'],
        "h4"@ == seq!['h', '4'],
        "h5"@ == seq!['h', '5'],
        "h6"@ == seq!['h', '6'],
        "em"@ == seq!['e', 'm'],
        "strong"@ == seq!['s', 't', 'r', 'o', 'n', 'g'],
        "del"@ == seq!['d', 'e', 'l'],
        "code"@ == seq!['c', 'o', 'd', 'e'],
        "pre"@ == seq!['p', 'r', 'e'],
        "blockquote"@ == seq!['b', 'l', 'o', 'c', 'k', 'q', 'u', 'o', 't', 'e'],
        "ul"@ == seq!['u', 'l'],
        "ol"@ == seq!['o', 'l'],
        "li"@ == seq!['l', 'i'],
        "a"@ == seq!['a'],
        "span"@ == seq!['s', 'p', 'a', 'n'],
        "table"@ == seq!['t', 'a', 'b', 'l', 'e'],
        "thead"@ == seq!['t', 'h', 'e', 'a', 'd'],
        "tbody"@ == seq!['t', 'b', 'o', 'd', 'y'],
        "tr"@ == seq!['t', 'r'],
        "th"@ == seq!['t', 'h'],
        "td"@ == seq!['t', 'd'],
        "img"@ == seq!['i', 'm', 'g'],
        "script"@ == seq!['s', 'c', 'r', 'i', 'p', 't'],
        "style"@ == seq!['s', 't', 'y', 'l', 'e'],
        "iframe"@ == seq!['i', 'f', 'r', 'a', 'm', 'e'],
        "object"@ == seq!['o', 'b', 'j', 'e', 'c', 't'],
        "embed"@ == seq!['e', 'm', 'b', 'e', 'd'],
        "form"@ == seq!['f', 'o', 'r', 'm'],
        "input"@ == seq!['i', 'n', 'p', 'u', 't'],
        "textarea"@ == seq!['t', 'e', 'x', 't', 'a', 'r', 'e', 'a'],
        "svg"@ == seq!['s', 'v', 'g'],
        "math"@ == seq!['m', 'a', 't', 'h'],
        "href"@ == seq!['h', 'r', 'e', 'f'],
        "class"@ == seq!['c', 'l', 'a', 's', 's'],
        "src"@ == seq!['s', 'r', 'c'],
        "alt"@ == seq!['a', 'l', 't'],
        "rel"@ == seq!['r', 'e', 'l'],
{
    reveal_strlit("p");
    assert("p"@ =~= seq!['p']);
    reveal_strlit("br");
    assert("br"@ =~= seq!['b', 'r']);
    reveal_strlit("hr");
    assert("hr"@ =~= seq!['h', 'r']);
    reveal_strlit("h1");
    assert("h1"@ =~= seq!['h', '1']);
    reveal_strlit("h2");
    assert("h2"@ =~= seq!['h', '2']);
    reveal_strlit("h3");
    assert("h3"@ =~= seq!['h', '3']);
    reveal_strlit("h4");
    assert("h4"@ =~= seq!['h', '4']);
    reveal_strlit("h5");
    assert("h5"@ =~= seq!['h', '5']);
    reveal_strlit("h6");
    assert("h6"@ =~= seq!['h', '6']);
    reveal_strlit("em");
    assert("em"@ =~= seq!['e', 'm']);
    reveal_strlit("strong");
    assert("strong"@ =~= seq!['s', 't', 'r', 'o', 'n', 'g']);
    reveal_strlit("del");
    assert("del"@ =~= seq!['d', 'e', 'l']);
    reveal_strlit("code");
    assert("code"@ =~= seq!['c', 'o', 'd', 'e']);
    reveal_strlit("pre");
    assert("pre"@ =~= seq!['p', 'r', 'e']);
    reveal_strlit("blockquote");
    assert("blockquote"@ =~= seq!['b', 'l', 'o', 'c', 'k', 'q', 'u', 'o', 't', 'e']);
    reveal_strlit("ul");
    assert("ul"@ =~= seq!['u', 'l']);
    reveal_strlit("ol");
    assert("ol"@ =~= seq!['o', 'l']);
    reveal_strlit("li");
    assert("li"@ =~= seq!['l', 'i']);
    reveal_strlit("a");
    assert("a"@ =~= seq!['a']);
    reveal_strlit("span");
    assert("span"@ =~= seq!['s', 'p', 'a', 'n']);
    reveal_strlit("table");
    assert("table"@ =~= seq!['t', 'a', 'b', 'l', 'e']);
    reveal_strlit("thead");
    assert("thead"@ =~= seq!['t', 'h', 'e', 'a', 'd']);
    reveal_strlit("tbody");
    assert("tbody"@ =~= seq!['t', 'b', 'o', 'd', 'y']);
    reveal_strlit("tr");
    assert("tr"@ =~= seq!['t', 'r']);
    reveal_strlit("th");
    assert("th"@ =~= seq!['t', 'h']);
    reveal_strlit("td");
    assert("td"@ =~= seq!['t', 'd']);
    reveal_strlit("img");
    assert("img"@ =~= seq!['i', 'm', 'g']);
    reveal_strlit("script");
    assert("script"@ =~= seq!['s', 'c', 'r', 'i', 'p', 't']);
    reveal_strlit("style");
    assert("style"@ =~= seq!['s', 't', 'y', 'l', 'e']);
    reveal_strlit("iframe");
    assert("iframe"@ =~= seq!['i', 'f', 'r', 'a', 'm', 'e']);
    reveal_strlit("object");
    assert("object"@ =~= seq!['o', 'b', 'j', 'e', 'c', 't']);
    reveal_strlit("embed");
    assert("embed"@ =~= seq!['e', 'm', 'b', 'e', 'd']);
    reveal_strlit("form");
    assert("form"@ =~= seq!['f', 'o', 'r', 'm']);
    reveal_strlit("input");
    assert("input"@ =~= seq!['i', 'n', 'p', 'u', 't']);
    reveal_strlit("textarea");
    assert("textarea"@ =~= seq!['t', 'e', 'x', 't', 'a', 'r', 'e', 'a']);
    reveal_strlit("svg");
    assert("svg"@ =~= seq!['s', 'v', 'g']);
    reveal_strlit("math");
    assert("math"@ =~= seq!['m', 'a', 't', 'h']);
    reveal_strlit("href");
    assert("href"@ =~= seq!['h', 'r', 'e', 'f']);
    reveal_strlit("class");
    assert("class"@ =~= seq!['c', 'l', 'a', 's', 's']);
    reveal_strlit("src");
    assert("src"@ =~= seq!['s', 'r', 'c']);
    reveal_strlit("alt");
    assert("alt"@ =~= seq!['a', 'l', 't']);
    reveal_strlit("rel");
    assert("rel"@ =~= seq!['r', 'e', 'l']);
}

proof fn lemma_federation_tag_at(j: int)
    requires
        0 <= j < federation_tag_names().len(),
    ensures
        ({
            let v = federation_tag_names()[j];
            v == "p"@ ||
            v == "br"@ ||
            v == "hr"@ ||
            v == "h1"@ ||
            v == "h2"@ ||
            v == "h3"@ ||
            v == "h4"@ ||
            v == "h5"@ ||
            v == "h6"@ ||
            v == "em"@ ||
            v == "strong"@ ||
            v == "del"@ ||
            v == "code"@ ||
            v == "pre"@ ||
            v == "blockquote"@ ||
            v == "ul"@ ||
            v == "ol"@ ||
            v == "li"@ ||
            v == "a"@ ||
            v == "span"@
        }),
{
    assert(j == 0 ||
        j == 1 ||
        j == 2 ||
        j == 3 ||
        j == 4 ||
        j == 5 ||
        j == 6 ||
        j == 7 ||
        j == 8 ||
        j == 9 ||
        j == 10 ||
        j == 11 ||
        j == 12 ||
        j == 13 ||
        j == 14 ||
        j == 15 ||
        j == 16 ||
        j == 17 ||
        j == 18 ||
        j == 19);
}

proof fn lemma_markdown_tag_at(j: int)
    requires
        0 <= j < markdown_tag_names().len(),
    ensures
        ({
            let v = markdown_tag_names()[j];
            v == "p"@ ||
            v == "br"@ ||
            v == "hr"@ ||
            v == "h1"@ ||
            v == "h2"@ ||
            v == "h3"@ ||
            v == "h4"@ ||
            v == "h5"@ ||
            v == "h6"@ ||
            v == "em"@ ||
            v == "strong"@ ||
            v == "del"@ ||
            v == "code"@ ||
            v == "pre"@ ||
            v == "blockquote"@ ||
            v == "ul"@ ||
            v == "ol"@ ||
            v == "li"@ ||
            v == "a"@ ||
            v == "span"@ ||
            v == "table"@ ||
            v == "thead"@ ||
            v == "tbody"@ ||
            v == "tr"@ ||
            v == "th"@ ||
            v == "td"@ ||
            v == "img"@
        }),
{
    if j < federation_tag_names().len() {
        lemma_federation_tag_at(j);
    } else {
        assert(j == 0 ||
            j == 1 ||
            j == 2 ||
            j == 3 ||
            j == 4 ||
            j == 5 ||
            j == 6 ||
            j == 7 ||
            j == 8 ||
            j == 9 ||
            j == 10 ||
            j == 11 ||
            j == 12 ||
            j == 13 ||
            j == 14 ||
            j == 15 ||
            j == 16 ||
            j == 17 ||
            j == 18 ||
            j == 19 ||
            j == 20 ||
            j == 21 ||
            j == 22 ||
            j == 23 ||
            j == 24 ||
            j == 25 ||
            j == 26);
    }
}

proof fn lemma_content_removal_tag_at(j: int)
    requires
        0 <= j < content_removal_tag_names().len(),
    ensures
        ({
            let v = content_removal_tag_names()[j];
            v == "script"@ ||
            v == "style"@ ||
            v == "iframe"@ ||
            v == "object"@ ||
            v == "embed"@ ||
            v == "form"@ ||
            v == "input"@ ||
            v == "textarea"@ ||
            v == "svg"@ ||
            v == "math"@
        }),
{
    assert(j == 0 ||
        j == 1 ||
        j == 2 ||
        j == 3 ||
        j == 4 ||
        j == 5 ||
        j == 6 ||
        j == 7 ||
        j == 8 ||
        j == 9);
}

/// The federation profile is consistent.
pub proof fn lemma_federation_wf()
    ensures
        federation_model().wf(),
{
    lemma_reveal_tag_names();
    let m = federation_model();
    assert forall|i: int, j: int|
        0 <= i < m.content_removal_tags.len() && 0 <= j < m.allowed_tags.len() implies #[trigger] m.content_removal_tags[i] != #[trigger] m.allowed_tags[j] by {
        lemma_content_removal_tag_at(i);
        lemma_federation_tag_at(j);
        let c = m.content_removal_tags[i];
        let t = m.allowed_tags[j];
        if c == t && t.len() >= 2 {
            assert(c[0] == t[0] && c[1] == t[1]);
        }
    }
    assert forall|i: int, j: int|
        0 <= i < m.content_removal_tags.len() && 0 <= j < m.allowed_attributes.len() implies #[trigger] m.content_removal_tags[i] != (#[trigger] m.allowed_attributes[j]).0 by {
        lemma_content_removal_tag_at(i);
        assert(j == 0 || j == 1);
    }
    assert forall|j: int| 0 <= j < m.allowed_attributes.len() && (#[trigger] m.allowed_attributes[j]).0 == "a"@ implies !m.allowed_attributes[j].1.contains("rel"@) by {
        assert(j == 0 || j == 1);
        let names = m.allowed_attributes[j].1;
        if names.contains("rel"@) {
            let k = choose|k: int| 0 <= k < names.len() && names[k] == "rel"@;
            assert(k == 0);
        }
    }
}

/// The Markdown profile is consistent.
pub proof fn lemma_markdown_wf()
    ensures
        markdown_model().wf(),
{
    lemma_reveal_tag_names();
    let m = markdown_model();
    assert forall|i: int, j: int|
        0 <= i < m.content_removal_tags.len() && 0 <= j < m.allowed_tags.len() implies #[trigger] m.content_removal_tags[i] != #[trigger] m.allowed_tags[j] by {
        lemma_content_removal_tag_at(i);
        lemma_markdown_tag_at(j);
        let c = m.content_removal_tags[i];
        let t = m.allowed_tags[j];
        if c == t && t.len() >= 2 {
            assert(c[0] == t[0] && c[1] == t[1]);
        }
    }
    assert forall|i: int, j: int|
        0 <= i < m.content_removal_tags.len() && 0 <= j < m.allowed_attributes.len() implies #[trigger] m.content_removal_tags[i] != (#[trigger] m.allowed_attributes[j]).0 by {
        lemma_content_removal_tag_at(i);
        assert(j == 0 || j == 1 || j == 2);
    }
    assert forall|j: int| 0 <= j < m.allowed_attributes.len() && (#[trigger] m.allowed_attributes[j]).0 == "a"@ implies !m.allowed_attributes[j].1.contains("rel"@) by {
        assert(j == 0 || j == 1 || j == 2);
        let names = m.allowed_attributes[j].1;
        if names.contains("rel"@) {
            let k = choose|k: int| 0 <= k < names.len() && names[k] == "rel"@;
            assert(k == 0);
        }
    }
}

/// The strip-all profile is consistent.
pub proof fn lemma_strip_all_wf()
    ensures
        strip_all_model().wf(),
{
}

/// The hooks of the federation and Markdown profiles hand any `rel` value
/// of an `a` element back unchanged, so they never undo the `rel` value
/// these profiles force onto links.
pub proof fn lemma_hooks_keep_link_rel(value: Seq<char>)
    ensures
        federation_model().forced_link_rel is Some,
        markdown_model().forced_link_rel is Some,
        filtered_attribute(federation_model().attribute_filter, "a"@, "rel"@, value) == Some(
            value,
        ),
        filtered_attribute(markdown_model().attribute_filter, "a"@, "rel"@, value) == Some(value),
{
    reveal_strlit("a");
    reveal_strlit("span");
    reveal_strlit("code");
    assert("a"@.len() != "span"@.len());
    assert("a"@ != "span"@);
    assert("a"@ != "code"@);
}

/// Every profile removes `script` elements together with their content,
/// and none of them keeps `script` as an allowed element.
pub proof fn lemma_script_removed_by_every_profile()
    ensures
        ({
            let script = "script"@;
            &&& federation_model().content_removal_tags.contains(script)
            &&& !federation_model().allowed_tags.contains(script)
            &&& markdown_model().content_removal_tags.contains(script)
            &&& !markdown_model().allowed_tags.contains(script)
            &&& strip_all_model().content_removal_tags.contains(script)
            &&& !strip_all_model().allowed_tags.contains(script)
        }),
{
    lemma_federation_wf();
    lemma_markdown_wf();
    let script = "script"@;
    assert(content_removal_tag_names()[0] == script);
    assert(strip_all_model().content_removal_tags[0] == script);
    if federation_model().allowed_tags.contains(script) {
        let j = choose|j: int|
            0 <= j < federation_tag_names().len() && federation_tag_names()[j] == script;
        assert(federation_model().content_removal_tags[0] != federation_model().allowed_tags[j]);
    }
    if markdown_model().allowed_tags.contains(script) {
        let j = choose|j: int|
            0 <= j < markdown_tag_names().len() && markdown_tag_names()[j] == script;
        assert(markdown_model().content_removal_tags[0] != markdown_model().allowed_tags[j]);
    }
}

/// The federation policy: inline formatting, lists, quotes, code, links to
/// `http`/`https` only, and `span`s with safe classes.
pub fn federation_policy() -> (r: Policy)
    ensures
        r@ == federation_model(),
        r@.wf(),
{
    let r = Policy {
        allowed_tags: federation_tags(),
        allowed_attributes: vec![("a", vec!["href"]), ("span", vec!["class"])],
        url_schemes: vec!["http", "https"],
        relative_urls: RelativeUrlPolicy::Deny,
        content_removal_tags: clean_content_tags(),
        strip_comments: true,
        forced_link_rel: Some("nofollow noopener noreferrer"),
        attribute_filter: AttributeFilter::SpanClassTokens,
    };
    assert(r.allowed_attributes.deep_view() =~~= federation_model().allowed_attributes);
    assert(r.url_schemes.deep_view() =~= federation_model().url_schemes);
    proof {
        lemma_federation_wf();
    }
    r
}

/// The Markdown policy: the federation elements plus tables and images,
/// links to `http`/`https`/`mailto` or relative ones, and `code` language
/// classes.
pub fn markdown_policy() -> (r: Policy)
    ensures
        r@ == markdown_model(),
        r@.wf(),
{
    let mut tags = federation_tags();
    tags.push("table");
    tags.push("thead");
    tags.push("tbody");
    tags.push("tr");
    tags.push("th");
    tags.push("td");
    tags.push("img");
    assert(tags.deep_view() =~= markdown_tag_names());
    let r = Policy {
        allowed_tags: tags,
        allowed_attributes: vec![("a", vec!["href"]), ("code", vec!["class"]), ("img", vec!["src", "alt"])],
        url_schemes: vec!["http", "https", "mailto"],
        relative_urls: RelativeUrlPolicy::PassThrough,
        content_removal_tags: clean_content_tags(),
        strip_comments: true,
        forced_link_rel: Some("nofollow noopener"),
        attribute_filter: AttributeFilter::CodeLanguageClass,
    };
    assert(r.allowed_attributes.deep_view() =~~= markdown_model().allowed_attributes);
    assert(r.url_schemes.deep_view() =~= markdown_model().url_schemes);
    proof {
        lemma_markdown_wf();
    }
    r
}

/// The strip-all policy: every element is unwrapped, scripts and style
/// sheets are removed with their content, comments are dropped.
pub fn strip_all_policy() -> (r: Policy)
    ensures
        r@ == strip_all_model(),
        r@.wf(),
{
    let r = Policy {
        allowed_tags: Vec::new(),
        allowed_attributes: Vec::new(),
        url_schemes: Vec::new(),
        relative_urls: RelativeUrlPolicy::PassThrough,
        content_removal_tags: vec!["script", "style"],
        strip_comments: true,
        forced_link_rel: None,
        attribute_filter: AttributeFilter::KeepAll,
    };
    assert(r.allowed_tags.deep_view() =~= strip_all_model().allowed_tags);
    assert(r.allowed_attributes.deep_view() =~= strip_all_model().allowed_attributes);
    assert(r.url_schemes.deep_view() =~= strip_all_model().url_schemes);
    assert(r.content_removal_tags.deep_view() =~= strip_all_model().content_removal_tags);
    r
}

} // verus!
