//! Field and label selectors: their syntax, and which objects they match.

use vstd::prelude::*;
use crate::error::AppError;
use crate::strmap::StringMap;
use crate::text::{chars_of, string_of, str_equal, push_char};
use crate::charseq::{trim, has_ws, split_on, first_char, first_neq, seqs_of, trim_range, trim_all, contains_ws, split_chars, find_char, find_neq, copy_range};
use crate::error::quoted;
use crate::types::{WatchEvent};

verus! {

/// Filter on object fields. Only `metadata.name` equality is supported.
#[derive(Debug, Clone)]
pub enum FieldSelector {
    NameEquals(String),
}

/// One condition on an object's labels.
#[derive(Debug, Clone)]
pub enum LabelRequirement {
    Equals { key: String, value: String },
    NotEquals { key: String, value: String },
    Exists { key: String },
    NotExists { key: String },
}

/// Mathematical form of a [`LabelRequirement`].
pub enum Requirement {
    Equals(Seq<char>, Seq<char>),
    NotEquals(Seq<char>, Seq<char>),
    Exists(Seq<char>),
    NotExists(Seq<char>),
}

impl View for LabelRequirement {
    type V = Requirement;

    open spec fn view(&self) -> Requirement {
        match self {
            LabelRequirement::Equals { key, value } => Requirement::Equals(key@, value@),
            LabelRequirement::NotEquals { key, value } => Requirement::NotEquals(key@, value@),
            LabelRequirement::Exists { key } => Requirement::Exists(key@),
            LabelRequirement::NotExists { key } => Requirement::NotExists(key@),
        }
    }
}

/// Whether `labels` satisfy `r`.
pub open spec fn requirement_holds(r: Requirement, labels: Map<Seq<char>, Seq<char>>) -> bool {
    match r {
        Requirement::Equals(k, v) => labels.contains_key(k) && labels[k] == v,
        Requirement::NotEquals(k, v) => !(labels.contains_key(k) && labels[k] == v),
        Requirement::Exists(k) => labels.contains_key(k),
        Requirement::NotExists(k) => !labels.contains_key(k),
    }
}

/// Conjunction of label requirements.
#[derive(Debug, Clone)]
pub struct LabelSelector {
    pub requirements: Vec<LabelRequirement>,
}

impl View for LabelSelector {
    type V = Seq<Requirement>;

    open spec fn view(&self) -> Seq<Requirement> {
        self.requirements@.map_values(|r: LabelRequirement| r@)
    }
}

/// Whether `labels` satisfy every requirement of `reqs`.
pub open spec fn selector_holds(reqs: Seq<Requirement>, labels: Map<Seq<char>, Seq<char>>) -> bool {
    forall|i: int| 0 <= i < reqs.len() ==> #[trigger] requirement_holds(reqs[i], labels)
}

impl LabelRequirement {
    /// Returns true if the requirement matches the given labels.
    pub fn matches(&self, labels: &StringMap) -> (b: bool)
        ensures
            b == requirement_holds(self@, labels@),
    {
        match self {
            LabelRequirement::Equals { key, value } => match labels.get(key.as_str()) {
                Some(v) => str_equal(v.as_str(), value.as_str()),
                None => false,
            },
            LabelRequirement::NotEquals { key, value } => match labels.get(key.as_str()) {
                Some(v) => !str_equal(v.as_str(), value.as_str()),
                None => true,
            },
            LabelRequirement::Exists { key } => labels.contains_key(key.as_str()),
            LabelRequirement::NotExists { key } => !labels.contains_key(key.as_str()),
        }
    }
}

impl LabelSelector {
    /// Returns true if all requirements match the given labels.
    /// An empty selector matches all objects.
    pub fn matches(&self, labels: &StringMap) -> (b: bool)
        ensures
            b == selector_holds(self@, labels@),
    {
        let mut i: usize = 0;
        while i < self.requirements.len()
            invariant
                0 <= i <= self.requirements.len(),
                forall|j: int| 0 <= j < i ==> #[trigger] requirement_holds(self@[j], labels@),
            decreases self.requirements.len() - i,
        {
            if !self.requirements[i].matches(labels) {
                assert(!requirement_holds(self@[i as int], labels@));
                return false;
            }
            i = i + 1;
        }
        true
    }
}

/// Determines which events a watcher receives.
#[derive(Debug)]
pub enum WatchFilter {
    All,
    FieldSelector(FieldSelector),
    LabelSelector(LabelSelector),
    And(Box<WatchFilter>, Box<WatchFilter>),
}

/// Whether an object with this name and these labels passes `f`.
pub open spec fn filter_holds(f: WatchFilter, name: Seq<char>, labels: Map<Seq<char>, Seq<char>>) -> bool
    decreases f,
{
    match f {
        WatchFilter::All => true,
        WatchFilter::FieldSelector(FieldSelector::NameEquals(n)) => name == n@,
        WatchFilter::LabelSelector(ls) => selector_holds(ls@, labels),
        WatchFilter::And(a, b) => filter_holds(*a, name, labels) && filter_holds(*b, name, labels),
    }
}

impl WatchFilter {
    /// Returns true if the event should be delivered to a watcher with this filter.
    pub fn matches(&self, event: &WatchEvent) -> (b: bool)
        ensures
            b == filter_holds(*self, event.object.metadata.name@, event.object.metadata.labels@),
        decreases self,
    {
        match self {
            WatchFilter::All => true,
            WatchFilter::FieldSelector(FieldSelector::NameEquals(name)) => str_equal(
                event.object.metadata.name.as_str(),
                name.as_str(),
            ),
            WatchFilter::LabelSelector(ls) => ls.matches(&event.object.metadata.labels),
            WatchFilter::And(a, b) => a.matches(event) && b.matches(event),
        }
    }
}

/// Why a label selector was rejected.
pub enum SelectorIssue {
    EmptySegment,
    /// The requirement (trimmed) has no key.
    EmptyKey(Seq<char>),
    /// The key contains whitespace.
    KeyWhitespace(Seq<char>),
    /// An equality requirement on this key has no value.
    EmptyValue(Seq<char>),
}

pub open spec fn issue_message(i: SelectorIssue) -> Seq<char> {
    match i {
        SelectorIssue::EmptySegment => "empty segment in label selector"@,
        SelectorIssue::EmptyKey(seg) => "empty key in requirement "@ + quoted(seg),
        SelectorIssue::KeyWhitespace(k) => "key "@ + quoted(k) + " must not contain whitespace"@,
        SelectorIssue::EmptyValue(k) => "empty value for key "@ + quoted(k),
    }
}

/// A `key op value` requirement whose operator sits at `i` and is `width` long.
pub open spec fn pair_requirement(seg: Seq<char>, i: int, width: int, negated: bool) -> Result<Requirement, SelectorIssue> {
    let k = trim(seg.take(i));
    let v = trim(seg.skip(i + width));
    if k.len() == 0 {
        Err(SelectorIssue::EmptyKey(seg))
    } else if has_ws(k) {
        Err(SelectorIssue::KeyWhitespace(k))
    } else if v.len() == 0 {
        Err(SelectorIssue::EmptyValue(k))
    } else if negated {
        Ok(Requirement::NotEquals(k, v))
    } else {
        Ok(Requirement::Equals(k, v))
    }
}

/// The requirement that one trimmed segment of a label selector denotes:
/// `k!=v`, `k=v`, `!k` or `k`.
pub open spec fn parse_requirement(seg: Seq<char>) -> Result<Requirement, SelectorIssue> {
    if seg.len() == 0 {
        Err(SelectorIssue::EmptySegment)
    } else {
        match first_neq(seg) {
            Some(i) => pair_requirement(seg, i, 2, true),
            None => match first_char(seg, '=') {
                Some(i) => pair_requirement(seg, i, 1, false),
                None => if seg[0] == '!' {
                    let k = trim(seg.skip(1));
                    if k.len() == 0 {
                        Err(SelectorIssue::EmptyKey(seg))
                    } else if has_ws(k) {
                        Err(SelectorIssue::KeyWhitespace(k))
                    } else {
                        Ok(Requirement::NotExists(k))
                    }
                } else if has_ws(seg) {
                    Err(SelectorIssue::KeyWhitespace(seg))
                } else {
                    Ok(Requirement::Exists(seg))
                },
            },
        }
    }
}

/// Requirements of the segments, in order; the leftmost failing segment decides the error.
pub open spec fn parse_requirements(segs: Seq<Seq<char>>) -> Result<Seq<Requirement>, SelectorIssue>
    decreases segs.len(),
{
    if segs.len() == 0 {
        Ok(Seq::empty())
    } else {
        match parse_requirements(segs.drop_last()) {
            Err(e) => Err(e),
            Ok(rs) => match parse_requirement(trim(segs.last())) {
                Err(e) => Err(e),
                Ok(r) => Ok(rs.push(r)),
            },
        }
    }
}

/// A label selector: empty (or blank) text selects everything; otherwise
/// comma-separated requirements, each trimmed.
pub open spec fn parse_label_selector(raw: Seq<char>) -> Result<Seq<Requirement>, SelectorIssue> {
    if trim(raw).len() == 0 {
        Ok(Seq::empty())
    } else {
        parse_requirements(split_on(raw, ','))
    }
}

/// A field selector: `metadata.name=<value>`, split at the first `=`.
pub enum FieldIssue {
    /// No `=` in the text.
    Malformed(Seq<char>),
    /// A field other than `metadata.name`.
    Unsupported(Seq<char>),
}

pub open spec fn field_issue_message(i: FieldIssue) -> Seq<char> {
    match i {
        FieldIssue::Malformed(raw) => "invalid format "@ + quoted(raw) + ": expected 'field=value'"@,
        FieldIssue::Unsupported(f) => "unsupported field "@ + quoted(f) + ": only 'metadata.name' is supported"@,
    }
}

pub open spec fn parse_field_selector(raw: Seq<char>) -> Result<Seq<char>, FieldIssue> {
    match first_char(raw, '=') {
        None => Err(FieldIssue::Malformed(raw)),
        Some(i) => if raw.take(i) == "metadata.name"@ {
            Ok(raw.skip(i + 1))
        } else {
            Err(FieldIssue::Unsupported(raw.take(i)))
        },
    }
}

/// Once a prefix of the segments fails, the whole list fails the same way.
proof fn lemma_parse_requirements_err_prefix(segs: Seq<Seq<char>>, j: int)
    requires
        0 <= j <= segs.len(),
        parse_requirements(segs.take(j)) is Err,
    ensures
        parse_requirements(segs) == parse_requirements(segs.take(j)),
    decreases segs.len() - j,
{
    if j == segs.len() {
        assert(segs.take(j) =~= segs);
    } else {
        assert(segs.take(j + 1).drop_last() =~= segs.take(j));
        lemma_parse_requirements_err_prefix(segs, j + 1);
    }
}

fn quoted_string(prefix: &str, body: &Vec<char>, suffix: &str) -> (r: String)
    ensures
        r@ == prefix@ + quoted(body@) + suffix@,
{
    let mut r = String::from_str(prefix);
    push_char(&mut r, '\'');
    let b = string_of(body.as_slice());
    r.append(b.as_str());
    push_char(&mut r, '\'');
    r.append(suffix);
    r
}

fn issue_text_empty_key(seg: &Vec<char>) -> (r: String)
    ensures
        r@ == issue_message(SelectorIssue::EmptyKey(seg@)),
{
    proof {
        reveal_strlit("");
    }
    let r = quoted_string("empty key in requirement ", seg, "");
    assert(r@ =~= issue_message(SelectorIssue::EmptyKey(seg@)));
    r
}

fn issue_text_ws(k: &Vec<char>) -> (r: String)
    ensures
        r@ == issue_message(SelectorIssue::KeyWhitespace(k@)),
{
    quoted_string("key ", k, " must not contain whitespace")
}

fn issue_text_empty_value(k: &Vec<char>) -> (r: String)
    ensures
        r@ == issue_message(SelectorIssue::EmptyValue(k@)),
{
    proof {
        reveal_strlit("");
    }
    let r = quoted_string("empty value for key ", k, "");
    assert(r@ =~= issue_message(SelectorIssue::EmptyValue(k@)));
    r
}

fn parse_pair(seg: &Vec<char>, i: usize, width: usize, negated: bool) -> (r: Result<LabelRequirement, String>)
    requires
        i + width <= seg.len(),
    ensures
        match pair_requirement(seg@, i as int, width as int, negated) {
            Ok(req) => r matches Ok(x) && x@ == req,
            Err(issue) => r matches Err(m) && m@ == issue_message(issue),
        },
{
    let k = trim_range(seg, 0, i);
    let v = trim_range(seg, i + width, seg.len());
    proof {
        assert(seg@.subrange(0, i as int) =~= seg@.take(i as int));
        assert(seg@.subrange(i + width, seg@.len() as int) =~= seg@.skip(i + width));
    }
    if k.len() == 0 {
        Err(issue_text_empty_key(seg))
    } else if contains_ws(&k) {
        Err(issue_text_ws(&k))
    } else if v.len() == 0 {
        Err(issue_text_empty_value(&k))
    } else if negated {
        Ok(LabelRequirement::NotEquals { key: string_of(k.as_slice()), value: string_of(v.as_slice()) })
    } else {
        Ok(LabelRequirement::Equals { key: string_of(k.as_slice()), value: string_of(v.as_slice()) })
    }
}

fn parse_one(seg: &Vec<char>) -> (r: Result<LabelRequirement, String>)
    ensures
        match parse_requirement(seg@) {
            Ok(req) => r matches Ok(x) && x@ == req,
            Err(issue) => r matches Err(m) && m@ == issue_message(issue),
        },
{
    if seg.len() == 0 {
        return Err(String::from_str("empty segment in label selector"));
    }
    match find_neq(seg) {
        Some(i) => parse_pair(seg, i, 2, true),
        None => match find_char(seg, '=') {
            Some(i) => parse_pair(seg, i, 1, false),
            None => {
                if seg[0] == '!' {
                    let k = trim_range(seg, 1, seg.len());
                    proof {
                        assert(seg@.subrange(1, seg@.len() as int) =~= seg@.skip(1));
                    }
                    if k.len() == 0 {
                        Err(issue_text_empty_key(seg))
                    } else if contains_ws(&k) {
                        Err(issue_text_ws(&k))
                    } else {
                        Ok(LabelRequirement::NotExists { key: string_of(k.as_slice()) })
                    }
                } else if contains_ws(seg) {
                    Err(issue_text_ws(seg))
                } else {
                    Ok(LabelRequirement::Exists { key: string_of(seg.as_slice()) })
                }
            },
        },
    }
}

impl FieldSelector {
    /// Parses the `fieldSelector` query parameter into a watch filter.
    ///
    /// Only `metadata.name=<value>` is accepted; the value may be empty.
    pub fn parse(raw: &str) -> (r: Result<WatchFilter, AppError>)
        ensures
            match parse_field_selector(raw@) {
                Ok(name) => r matches Ok(WatchFilter::FieldSelector(FieldSelector::NameEquals(n))) && n@ == name,
                Err(issue) => r matches Err(AppError::InvalidFieldSelector(m)) && m@ == field_issue_message(issue),
            },
    {
        let chars = chars_of(raw);
        match find_char(&chars, '=') {
            None => Err(AppError::InvalidFieldSelector(
                quoted_string("invalid format ", &chars, ": expected 'field=value'"),
            )),
            Some(i) => {
                let field = copy_range(&chars, 0, i);
                let value = copy_range(&chars, i + 1, chars.len());
                let field_text = string_of(field.as_slice());
                proof {
                    assert(field@ =~= raw@.take(i as int));
                    assert(value@ =~= raw@.skip(i + 1));
                }
                if str_equal(field_text.as_str(), "metadata.name") {
                    Ok(WatchFilter::FieldSelector(FieldSelector::NameEquals(string_of(value.as_slice()))))
                } else {
                    Err(AppError::InvalidFieldSelector(
                        quoted_string("unsupported field ", &field, ": only 'metadata.name' is supported"),
                    ))
                }
            },
        }
    }
}

impl LabelSelector {
    /// Parses the `labelSelector` query parameter into a watch filter.
    ///
    /// Requirements are separated by commas and combined with AND:
    /// `k=v`, `k!=v`, `k` (key exists) and `!k` (key absent).
    pub fn parse(raw: &str) -> (r: Result<WatchFilter, AppError>)
        ensures
            match parse_label_selector(raw@) {
                Ok(reqs) => r matches Ok(WatchFilter::LabelSelector(ls)) && ls@ == reqs,
                Err(issue) => r matches Err(AppError::InvalidLabelSelector(m)) && m@ == issue_message(issue),
            },
    {
        let chars = chars_of(raw);
        let whole = trim_all(&chars);
        if whole.len() == 0 {
            let ls = LabelSelector { requirements: Vec::new() };
            assert(ls@ =~= Seq::<Requirement>::empty());
            return Ok(WatchFilter::LabelSelector(ls));
        }
        let segs = split_chars(&chars, ',');
        let mut reqs: Vec<LabelRequirement> = Vec::new();
        let mut k: usize = 0;
        proof {
            assert(seqs_of(segs@).take(0) =~= Seq::<Seq<char>>::empty());
            assert(reqs@.map_values(|x: LabelRequirement| x@) =~= Seq::<Requirement>::empty());
        }
        while k < segs.len()
            invariant
                0 <= k <= segs.len(),
                seqs_of(segs@) == split_on(raw@, ','),
                parse_label_selector(raw@) == parse_requirements(split_on(raw@, ',')),
                parse_requirements(seqs_of(segs@).take(k as int)) == Ok::<Seq<Requirement>, SelectorIssue>(
                    reqs@.map_values(|x: LabelRequirement| x@),
                ),
            decreases segs.len() - k,
        {
            let seg = trim_all(&segs[k]);
            let ghost prefix = seqs_of(segs@).take(k as int);
            proof {
                assert(seqs_of(segs@).take(k + 1).drop_last() =~= prefix);
                assert(seqs_of(segs@).take(k + 1).last() == segs@[k as int]@);
            }
            let ghost old_view = reqs@.map_values(|x: LabelRequirement| x@);
            match parse_one(&seg) {
                Ok(req) => {
                    reqs.push(req);
                    proof {
                        let before = reqs@.drop_last().map_values(|x: LabelRequirement| x@);
                        assert(reqs@.drop_last().map_values(|x: LabelRequirement| x@) =~= old_view);
                        assert(reqs@.map_values(|x: LabelRequirement| x@) =~= old_view.push(reqs@.last()@));
                    }
                },
                Err(m) => {
                    proof {
                        lemma_parse_requirements_err_prefix(seqs_of(segs@), k as int + 1);
                    }
                    return Err(AppError::InvalidLabelSelector(m));
                },
            }
            k = k + 1;
        }
        proof {
            assert(seqs_of(segs@).take(segs.len() as int) =~= seqs_of(segs@));
        }
        Ok(WatchFilter::LabelSelector(LabelSelector { requirements: reqs }))
    }
}

} // verus!
