use vstd::prelude::*;

use ammonia::{Builder, UrlRelative};
use std::borrow::Cow;
use std::collections::HashSet;

use crate::hooks::filter_attribute;
use crate::policy::{
    federation_model, federation_policy, markdown_model, markdown_policy, strip_all_model,
    strip_all_policy, Policy, PolicyModel, RelativeUrlPolicy,
};

verus! {

/// The fragment `ammonia` renders from `html` when configured by `policy`.
pub uninterp spec fn ammonia_cleaned(policy: PolicyModel, html: Seq<char>) -> Seq<char>;

/// Relies on `ammonia::Builder::clean`: it parses `html`, filters the tree
/// under the builder's settings, taken one for one from `policy` (no attribute
/// is allowed on all elements alike), and serializes the result; the
/// output depends on those settings and `html` alone. `wf` excludes the
/// settings on which `clean` panics.
#[verifier::external_body]
fn ammonia_clean(policy: &Policy, html: &str) -> (r: String)
    requires
        policy@.wf(),
    ensures
        r@ == ammonia_cleaned(policy@, html@),
{
    let set = |v: &[&'static str]| v.iter().copied().collect();
    let relative = match policy.relative_urls {
        RelativeUrlPolicy::Deny => UrlRelative::Deny,
        RelativeUrlPolicy::PassThrough => UrlRelative::PassThrough,
    };
    let filter = policy.attribute_filter;
    Builder::empty().tags(set(&policy.allowed_tags)).generic_attributes(HashSet::new())
        .tag_attributes(policy.allowed_attributes.iter().map(|(t, a)| (*t, set(a))).collect())
        .url_schemes(set(&policy.url_schemes)).url_relative(relative)
        .clean_content_tags(set(&policy.content_removal_tags))
        .strip_comments(policy.strip_comments).link_rel(policy.forced_link_rel)
        .attribute_filter(move |e, a, v| filter_attribute(filter, e, a, v).map(Cow::Owned))
        .clean(html).to_string()
}

/// Sanitizes `html` for rendering federated content.
pub fn sanitize_federation(html: &str) -> (r: String)
    ensures
        r@ == ammonia_cleaned(federation_model(), html@),
{
    let policy = federation_policy();
    ammonia_clean(&policy, html)
}

/// Sanitizes HTML rendered from Markdown.
pub fn sanitize_markdown(html: &str) -> (r: String)
    ensures
        r@ == ammonia_cleaned(markdown_model(), html@),
{
    let policy = markdown_policy();
    ammonia_clean(&policy, html)
}

/// Reduces `html` to its text: no element survives, scripts and style
/// sheets go with their content, comments are dropped.
pub fn strip_tags(html: &str) -> (r: String)
    ensures
        r@ == ammonia_cleaned(strip_all_model(), html@),
{
    let policy = strip_all_policy();
    ammonia_clean(&policy, html)
}

} // verus!
