//! Sanitization of untrusted HTML fragments under three fixed policies:
//! federated content, rendered Markdown, and plain-text extraction.
//!
//! HTML parsing, tree filtering and serialization are done by `ammonia`.
//! This crate states and verifies the policies handed to it and the
//! attribute hooks it calls back into.

pub mod hooks;
pub mod policy;
pub mod sanitize;
pub mod text;

pub use hooks::{
    filter_attribute, filter_code_class, filter_span_class, AttributeFilter,
    LANGUAGE_CLASS_PATTERN,
};
pub use policy::{
    clean_content_tags, federation_policy, federation_tags, markdown_policy, strip_all_policy,
    Policy, RelativeUrlPolicy,
};
pub use sanitize::{sanitize_federation, sanitize_markdown, strip_tags};
pub use text::{is_unicode_whitespace, str_eq};
