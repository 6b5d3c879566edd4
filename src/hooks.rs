use vstd::prelude::*;

use crate::text::{is_unicode_whitespace, is_white_space, str_eq};

verus! {

/// The view of an optional string.
pub open spec fn opt_view(o: Option<String>) -> Option<Seq<char>> {
    match o {
        Some(s) => Some(s@),
        None => None,
    }
}

/// Left-to-right scan of `s` for white-space separated words: the words
/// already ended, and the (possibly empty) word still being read.
pub open spec fn scan_words(s: Seq<char>) -> (Seq<Seq<char>>, Seq<char>)
    decreases s.len(),
{
    if s.len() == 0 {
        (Seq::empty(), Seq::empty())
    } else {
        let (done, cur) = scan_words(s.drop_last());
        if is_white_space(s.last()) {
            if cur.len() > 0 {
                (done.push(cur), Seq::empty())
            } else {
                (done, Seq::empty())
            }
        } else {
            (done, cur.push(s.last()))
        }
    }
}

/// The maximal runs of non-white-space characters of `s`, in order.
pub open spec fn words(s: Seq<char>) -> Seq<Seq<char>> {
    let (done, cur) = scan_words(s);
    if cur.len() > 0 {
        done.push(cur)
    } else {
        done
    }
}

/// The class tokens a `span` may keep.
pub open spec fn is_safe_span_class(t: Seq<char>) -> bool {
    t == "h-card"@ || t == "hashtag"@ || t == "mention"@ || t == "invisible"@
}

/// The safe span classes among `ts`, in order.
pub open spec fn safe_span_classes(ts: Seq<Seq<char>>) -> Seq<Seq<char>>
    decreases ts.len(),
{
    if ts.len() == 0 {
        Seq::empty()
    } else {
        let prev = safe_span_classes(ts.drop_last());
        if is_safe_span_class(ts.last()) {
            prev.push(ts.last())
        } else {
            prev
        }
    }
}

/// The words of `ts` joined with a single space between neighbours.
pub open spec fn join_with_space(ts: Seq<Seq<char>>) -> Seq<char>
    decreases ts.len(),
{
    if ts.len() == 0 {
        Seq::empty()
    } else if ts.len() == 1 {
        ts[0]
    } else {
        join_with_space(ts.drop_last()) + seq![' '] + ts.last()
    }
}

/// A `span`'s `class` value reduced to its safe tokens; no value when none
/// of them is safe.
pub open spec fn span_class_filter(value: Seq<char>) -> Option<Seq<char>> {
    let kept = safe_span_classes(words(value));
    if kept.len() == 0 {
        None
    } else {
        Some(join_with_space(kept))
    }
}

proof fn lemma_push_word(done: Seq<Seq<char>>, t: Seq<char>)
    ensures
        safe_span_classes(done.push(t)) == (if is_safe_span_class(t) {
            safe_span_classes(done).push(t)
        } else {
            safe_span_classes(done)
        }),
        join_with_space(safe_span_classes(done).push(t)) == (if safe_span_classes(done).len()
            == 0 {
            t
        } else {
            join_with_space(safe_span_classes(done)) + seq![' '] + t
        }),
{
    assert(done.push(t).drop_last() =~= done);
    let k = safe_span_classes(done);
    assert(k.push(t).drop_last() =~= k);
}

/// Whether the characters of `cur` spell `lit`.
fn chars_eq(cur: &Vec<char>, lit: &str) -> (r: bool)
    ensures
        r == (cur@ == lit@),
{
    let n = cur.len();
    if n != lit.unicode_len() {
        return false;
    }
    let mut i: usize = 0;
    while i < n
        invariant
            n == cur@.len(),
            n == lit@.len(),
            i <= n,
            forall|k: int| 0 <= k < i ==> cur@[k] == lit@[k],
        decreases n - i,
    {
        if cur[i] != lit.get_char(i) {
            return false;
        }
        i = i + 1;
    }
    assert(cur@ =~= lit@);
    true
}

/// The safe span class spelled by `cur`, if it spells one.
fn safe_span_class_of(cur: &Vec<char>) -> (r: Option<&'static str>)
    ensures
        match r {
            Some(lit) => is_safe_span_class(cur@) && lit@ == cur@,
            None => !is_safe_span_class(cur@),
        },
{
    if chars_eq(cur, "h-card") {
        Some("h-card")
    } else if chars_eq(cur, "hashtag") {
        Some("hashtag")
    } else if chars_eq(cur, "mention") {
        Some("mention")
    } else if chars_eq(cur, "invisible") {
        Some("invisible")
    } else {
        None
    }
}

/// Keeps the safe tokens of a `span`'s `class` value, joined by single
/// spaces; `None` when no token is safe.
pub fn filter_span_class(value: &str) -> (r: Option<String>)
    ensures
        opt_view(r) == span_class_filter(value@),
{
    broadcast use vstd::string::group_string_axioms;

    let mut out = String::new();
    let mut any = false;
    let mut cur: Vec<char> = Vec::new();
    let ghost mut done: Seq<Seq<char>> = Seq::empty();
    proof {
        reveal_strlit(" ");
    }
    for c in it: value.chars()
        invariant
            it.seq() == value@,
            scan_words(value@.take(it.index() as int)) == (done, cur@),
            out@ == join_with_space(safe_span_classes(done)),
            any == (safe_span_classes(done).len() > 0),
            " "@ == seq![' '],
    {
        let ghost s = value@.take(it.index() + 1);
        assert(s.drop_last() =~= value@.take(it.index() as int));
        assert(s.last() == c);
        if is_unicode_whitespace(c) {
            if cur.len() > 0 {
                proof {
                    lemma_push_word(done, cur@);
                    done = done.push(cur@);
                }
                match safe_span_class_of(&cur) {
                    Some(lit) => {
                        if any {
                            out.append(" ");
                        }
                        out.append(lit);
                        any = true;
                    },
                    None => {},
                }
                cur = Vec::new();
            }
        } else {
            cur.push(c);
        }
    }
    assert(value@.take(value@.len() as int) =~= value@);
    if cur.len() > 0 {
        proof {
            lemma_push_word(done, cur@);
            done = done.push(cur@);
        }
        match safe_span_class_of(&cur) {
            Some(lit) => {
                if any {
                    out.append(" ");
                }
                out.append(lit);
                any = true;
            },
            None => {},
        }
    }
    if any {
        Some(out)
    } else {
        None
    }
}

/// A non-empty run of non-white-space characters.
pub open spec fn is_word(t: Seq<char>) -> bool {
    t.len() > 0 && forall|j: int| 0 <= j < t.len() ==> !is_white_space(#[trigger] t[j])
}

proof fn lemma_scan_append_word(s: Seq<char>, t: Seq<char>)
    requires
        forall|j: int| 0 <= j < t.len() ==> !is_white_space(#[trigger] t[j]),
    ensures
        scan_words(s + t) == (scan_words(s).0, scan_words(s).1 + t),
    decreases t.len(),
{
    if t.len() == 0 {
        assert(s + t =~= s);
        assert(scan_words(s).1 + t =~= scan_words(s).1);
    } else {
        let u = s + t;
        assert(u.drop_last() =~= s + t.drop_last());
        lemma_scan_append_word(s, t.drop_last());
        assert(u.last() == t.last());
        assert((scan_words(s).1 + t.drop_last()).push(t.last()) =~= scan_words(s).1 + t);
    }
}

proof fn lemma_scan_join(ks: Seq<Seq<char>>)
    requires
        ks.len() > 0,
        forall|i: int| 0 <= i < ks.len() ==> is_word(#[trigger] ks[i]),
    ensures
        scan_words(join_with_space(ks)) == (ks.drop_last(), ks.last()),
    decreases ks.len(),
{
    if ks.len() == 1 {
        let e = Seq::<char>::empty();
        assert(scan_words(e) == (Seq::<Seq<char>>::empty(), e));
        lemma_scan_append_word(e, ks[0]);
        assert(e + ks[0] =~= ks[0]);
        assert(ks.drop_last() =~= Seq::<Seq<char>>::empty());
    } else {
        let p = ks.drop_last();
        assert forall|i: int| 0 <= i < p.len() implies is_word(#[trigger] p[i]) by {
            assert(p[i] == ks[i]);
        }
        lemma_scan_join(p);
        let sp = join_with_space(p) + seq![' '];
        assert(sp.drop_last() =~= join_with_space(p));
        assert(is_white_space(sp.last()));
        assert(p.drop_last().push(p.last()) =~= p);
        assert(scan_words(sp) == (p, Seq::<char>::empty()));
        assert(is_word(ks[ks.len() - 1]));
        lemma_scan_append_word(sp, ks.last());
        assert(Seq::<char>::empty() + ks.last() =~= ks.last());
    }
}

proof fn lemma_safe_span_class_is_word(t: Seq<char>)
    requires
        is_safe_span_class(t),
    ensures
        is_word(t),
{
    reveal_strlit("h-card");
    reveal_strlit("hashtag");
    reveal_strlit("mention");
    reveal_strlit("invisible");
    assert forall|j: int| 0 <= j < t.len() implies !is_white_space(#[trigger] t[j]) by {
        assert(j == 0 || j == 1 || j == 2 || j == 3 || j == 4 || j == 5 || j == 6 || j == 7 || j
            == 8);
    }
}

proof fn lemma_safe_span_classes_are_safe(ts: Seq<Seq<char>>)
    ensures
        forall|i: int|
            0 <= i < safe_span_classes(ts).len() ==> is_safe_span_class(
                #[trigger] safe_span_classes(ts)[i],
            ),
    decreases ts.len(),
{
    if ts.len() > 0 {
        let prev = safe_span_classes(ts.drop_last());
        lemma_safe_span_classes_are_safe(ts.drop_last());
        assert forall|i: int| 0 <= i < safe_span_classes(ts).len() implies is_safe_span_class(
            #[trigger] safe_span_classes(ts)[i],
        ) by {
            if i < prev.len() {
                assert(safe_span_classes(ts)[i] == prev[i]);
            }
        }
    }
}

proof fn lemma_safe_span_classes_of_safe(ts: Seq<Seq<char>>)
    requires
        forall|i: int| 0 <= i < ts.len() ==> is_safe_span_class(#[trigger] ts[i]),
    ensures
        safe_span_classes(ts) == ts,
    decreases ts.len(),
{
    if ts.len() > 0 {
        let p = ts.drop_last();
        assert forall|i: int| 0 <= i < p.len() implies is_safe_span_class(#[trigger] p[i]) by {
            assert(p[i] == ts[i]);
        }
        lemma_safe_span_classes_of_safe(p);
        assert(is_safe_span_class(ts[ts.len() - 1]));
        assert(p.push(ts.last()) =~= ts);
    }
}

/// Filtering a `span` class value a second time changes nothing: what the
/// filter kept, it keeps again, unchanged.
pub proof fn lemma_span_class_filter_idempotent(value: Seq<char>)
    ensures
        match span_class_filter(value) {
            Some(kept) => span_class_filter(kept) == Some(kept),
            None => true,
        },
{
    let ks = safe_span_classes(words(value));
    if ks.len() > 0 {
        lemma_safe_span_classes_are_safe(words(value));
        assert forall|i: int| 0 <= i < ks.len() implies is_word(#[trigger] ks[i]) by {
            lemma_safe_span_class_is_word(ks[i]);
        }
        lemma_scan_join(ks);
        assert(is_word(ks[ks.len() - 1]));
        assert(ks.drop_last().push(ks.last()) =~= ks);
        assert(words(join_with_space(ks)) == ks);
        lemma_safe_span_classes_of_safe(ks);
    }
}

/// Filtering a `code` class value a second time changes nothing.
pub proof fn lemma_code_class_filter_idempotent(value: Seq<char>)
    ensures
        match code_class_filter(value) {
            Some(kept) => code_class_filter(kept) == Some(kept),
            None => true,
        },
{
}

/// The pattern a `code` element's `class` value must match as a whole.
pub const LANGUAGE_CLASS_PATTERN: &'static str = "^language-[a-zA-Z0-9_\\-]+$";

/// An ASCII letter, an ASCII digit, `_` or `-`.
pub open spec fn is_language_name_char(c: char) -> bool {
    ('a' <= c && c <= 'z') || ('A' <= c && c <= 'Z') || ('0' <= c && c <= '9') || c == '_' || c
        == '-'
}

/// `language-` followed by one or more language-name characters, and nothing else.
pub open spec fn is_language_class(v: Seq<char>) -> bool {
    let p = "language-"@;
    &&& v.len() > p.len()
    &&& v.take(p.len() as int) == p
    &&& forall|i: int| p.len() <= i < v.len() ==> is_language_name_char(#[trigger] v[i])
}

/// A `code` element's `class` value, kept whole when it names a language.
pub open spec fn code_class_filter(value: Seq<char>) -> Option<Seq<char>> {
    if is_language_class(value) {
        Some(value)
    } else {
        None
    }
}

/// Relies on `regex::Regex::new` and `regex::Regex::is_match`: the pattern
/// `LANGUAGE_CLASS_PATTERN` compiles, and since `^` and `$` anchor it at the
/// start and the end of the haystack, a haystack matches exactly when it is
/// `language-` followed by one or more of `a-z`, `A-Z`, `0-9`, `_`, `-`.
#[verifier::external_body]
fn regex_is_full_match(pattern: &str, haystack: &str) -> (r: bool)
    requires
        pattern@ == LANGUAGE_CLASS_PATTERN@,
    ensures
        r == is_language_class(haystack@),
{
    match regex::Regex::new(pattern) {
        Ok(re) => re.is_match(haystack),
        Err(_) => false,
    }
}

/// Keeps a `code` element's `class` value unchanged when it is a language
/// class (`language-rust`); `None` otherwise.
pub fn filter_code_class(value: &str) -> (r: Option<String>)
    ensures
        opt_view(r) == code_class_filter(value@),
{
    if regex_is_full_match(LANGUAGE_CLASS_PATTERN, value) {
        Some(value.to_owned())
    } else {
        None
    }
}

/// The context-sensitive attribute rule a policy applies to every
/// attribute that survives its allowlist.
#[derive(Clone, Copy, Debug, PartialEq, Eq, Structural)]
pub enum AttributeFilter {
    /// Every attribute is kept unchanged.
    KeepAll,
    /// A `span`'s `class` keeps only its safe tokens.
    SpanClassTokens,
    /// A `code`'s `class` is kept only when it names a language.
    CodeLanguageClass,
}

/// What `filter` makes of attribute `attribute` with value `value` on an
/// element `element`: the value to keep, or none to drop the attribute.
pub open spec fn filtered_attribute(
    filter: AttributeFilter,
    element: Seq<char>,
    attribute: Seq<char>,
    value: Seq<char>,
) -> Option<Seq<char>> {
    match filter {
        AttributeFilter::SpanClassTokens => if element == "span"@ && attribute == "class"@ {
            span_class_filter(value)
        } else {
            Some(value)
        },
        AttributeFilter::CodeLanguageClass => if element == "code"@ && attribute == "class"@ {
            code_class_filter(value)
        } else {
            Some(value)
        },
        AttributeFilter::KeepAll => Some(value),
    }
}

/// Applies `filter` to one attribute of an element.
pub fn filter_attribute(filter: AttributeFilter, element: &str, attribute: &str, value: &str) -> (r:
    Option<String>)
    ensures
        opt_view(r) == filtered_attribute(filter, element@, attribute@, value@),
{
    match filter {
        AttributeFilter::SpanClassTokens => {
            if str_eq(element, "span") && str_eq(attribute, "class") {
                filter_span_class(value)
            } else {
                Some(value.to_owned())
            }
        },
        AttributeFilter::CodeLanguageClass => {
            if str_eq(element, "code") && str_eq(attribute, "class") {
                filter_code_class(value)
            } else {
                Some(value.to_owned())
            }
        },
        AttributeFilter::KeepAll => Some(value.to_owned()),
    }
}

} // verus!
