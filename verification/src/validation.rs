//! Format rules for labels, annotations and finalizers.
//!
//! Label keys and finalizers are qualified names: an optional DNS-subdomain
//! prefix (at most 253 characters) and `/`, then a name of 1 to 63
//! characters that starts and ends with a letter or digit and otherwise
//! holds letters, digits, `-`, `_` and `.`. Label values are empty or follow
//! the name rule. Annotation keys hold 1 to 256 characters, and all
//! annotations together hold at most 256 KiB of UTF-8.

use vstd::prelude::*;
use crate::charseq::{first_char, find_char, copy_range};
use crate::error::{AppError, quoted};
use crate::strmap::StringMap;
use crate::text::{chars_of, push_char, str_equal};
use vstd::string::StringSliceAdditionalSpecFns;

verus! {

pub open spec fn is_alnum(c: char) -> bool {
    ('a' <= c && c <= 'z') || ('A' <= c && c <= 'Z') || ('0' <= c && c <= '9')
}

pub open spec fn is_name_char(c: char) -> bool {
    is_alnum(c) || c == '-' || c == '_' || c == '.'
}

pub open spec fn is_lower_alnum(c: char) -> bool {
    ('a' <= c && c <= 'z') || ('0' <= c && c <= '9')
}

pub open spec fn is_dns_char(c: char) -> bool {
    is_lower_alnum(c) || c == '-' || c == '.'
}

/// A name part: 1 to 63 characters, letters or digits at both ends,
/// letters, digits, `-`, `_` or `.` in between.
pub open spec fn valid_name(s: Seq<char>) -> bool {
    &&& 1 <= s.len() <= 63
    &&& is_alnum(s[0])
    &&& is_alnum(s.last())
    &&& forall|i: int| 0 <= i < s.len() ==> is_name_char(#[trigger] s[i])
}

/// A DNS-subdomain prefix: 1 to 253 lowercase letters, digits, `-` or `.`,
/// a letter or digit at both ends.
pub open spec fn valid_prefix(s: Seq<char>) -> bool {
    &&& 1 <= s.len() <= 253
    &&& is_lower_alnum(s[0])
    &&& is_lower_alnum(s.last())
    &&& forall|i: int| 0 <= i < s.len() ==> is_dns_char(#[trigger] s[i])
}

/// `name` or `prefix/name`.
pub open spec fn valid_qualified_name(k: Seq<char>) -> bool {
    match first_char(k, '/') {
        None => valid_name(k),
        Some(i) => valid_prefix(k.take(i)) && valid_name(k.skip(i + 1)),
    }
}

pub open spec fn valid_label_value(v: Seq<char>) -> bool {
    v.len() == 0 || valid_name(v)
}

pub open spec fn valid_label(k: Seq<char>, v: Seq<char>) -> bool {
    valid_qualified_name(k) && valid_label_value(v)
}

pub open spec fn valid_annotation_key(k: Seq<char>) -> bool {
    1 <= k.len() <= 256
}

/// Largest total size of an object's annotations, in bytes.
pub const MAX_ANNOTATIONS_BYTES: usize = 262144;

/// The length in bytes that `str::len` reports for a string with these characters.
pub open spec fn byte_len(s: Seq<char>) -> nat {
    (vstd::utf8::encode_utf8(s).len() as usize) as nat
}

/// UTF-8 size of all keys and values.
pub open spec fn entries_bytes(s: Seq<(String, String)>) -> nat
    decreases s.len(),
{
    if s.len() == 0 {
        0
    } else {
        entries_bytes(s.drop_last()) + byte_len(s.last().0@) + byte_len(s.last().1@)
    }
}

pub open spec fn label_message(k: Seq<char>, v: Seq<char>) -> Seq<char> {
    if !valid_qualified_name(k) {
        "key "@ + quoted(k) + " is not a valid qualified name"@
    } else {
        "value "@ + quoted(v) + " for key "@ + quoted(k) + " is not a valid label value"@
    }
}

pub open spec fn annotation_key_message(k: Seq<char>) -> Seq<char> {
    "key "@ + quoted(k) + " must hold 1 to 256 characters"@
}

pub open spec fn annotation_size_message() -> Seq<char> {
    "annotations exceed the total size limit of 262144 bytes"@
}

pub open spec fn finalizer_format_message(f: Seq<char>) -> Seq<char> {
    "finalizer "@ + quoted(f) + " is not a valid qualified name"@
}

pub open spec fn finalizer_duplicate_message(f: Seq<char>) -> Seq<char> {
    "finalizer "@ + quoted(f) + " is listed more than once"@
}

fn is_alnum_char(c: char) -> (b: bool)
    ensures
        b == is_alnum(c),
{
    ('a' <= c && c <= 'z') || ('A' <= c && c <= 'Z') || ('0' <= c && c <= '9')
}

fn is_lower_alnum_char(c: char) -> (b: bool)
    ensures
        b == is_lower_alnum(c),
{
    ('a' <= c && c <= 'z') || ('0' <= c && c <= '9')
}

fn check_name(s: &Vec<char>) -> (b: bool)
    ensures
        b == valid_name(s@),
{
    if s.len() < 1 || s.len() > 63 {
        return false;
    }
    if !is_alnum_char(s[0]) || !is_alnum_char(s[s.len() - 1]) {
        return false;
    }
    let mut i: usize = 0;
    while i < s.len()
        invariant
            0 <= i <= s.len(),
            forall|j: int| 0 <= j < i ==> is_name_char(#[trigger] s@[j]),
        decreases s.len() - i,
    {
        let c = s[i];
        if !(is_alnum_char(c) || c == '-' || c == '_' || c == '.') {
            return false;
        }
        i = i + 1;
    }
    true
}

fn check_prefix(s: &Vec<char>) -> (b: bool)
    ensures
        b == valid_prefix(s@),
{
    if s.len() < 1 || s.len() > 253 {
        return false;
    }
    if !is_lower_alnum_char(s[0]) || !is_lower_alnum_char(s[s.len() - 1]) {
        return false;
    }
    let mut i: usize = 0;
    while i < s.len()
        invariant
            0 <= i <= s.len(),
            forall|j: int| 0 <= j < i ==> is_dns_char(#[trigger] s@[j]),
        decreases s.len() - i,
    {
        let c = s[i];
        if !(is_lower_alnum_char(c) || c == '-' || c == '.') {
            return false;
        }
        i = i + 1;
    }
    true
}

/// Whether `k` is a qualified name.
pub fn is_qualified_name(k: &str) -> (b: bool)
    ensures
        b == valid_qualified_name(k@),
{
    let s = chars_of(k);
    match find_char(&s, '/') {
        None => check_name(&s),
        Some(i) => {
            let prefix = copy_range(&s, 0, i);
            let name = copy_range(&s, i + 1, s.len());
            proof {
                assert(prefix@ =~= k@.take(i as int));
                assert(name@ =~= k@.skip(i + 1));
            }
            check_prefix(&prefix) && check_name(&name)
        },
    }
}

/// Whether `v` is a valid label value.
pub fn is_label_value(v: &str) -> (b: bool)
    ensures
        b == valid_label_value(v@),
{
    let s = chars_of(v);
    s.len() == 0 || check_name(&s)
}

fn quote_into(s: &mut String, t: &str)
    ensures
        final(s)@ == old(s)@ + quoted(t@),
{
    push_char(s, '\'');
    s.append(t);
    push_char(s, '\'');
}

fn label_error(k: &str, v: &str) -> (m: String)
    ensures
        m@ == label_message(k@, v@),
{
    if !is_qualified_name(k) {
        let mut m = String::from_str("key ");
        quote_into(&mut m, k);
        m.append(" is not a valid qualified name");
        m
    } else {
        let mut m = String::from_str("value ");
        quote_into(&mut m, v);
        m.append(" for key ");
        quote_into(&mut m, k);
        m.append(" is not a valid label value");
        m
    }
}

/// Whether every label has a valid key and value.
pub open spec fn labels_ok(labels: Map<Seq<char>, Seq<char>>) -> bool {
    forall|k: Seq<char>| #[trigger] labels.contains_key(k) ==> valid_label(k, labels[k])
}

/// Whether every annotation key is valid and all annotations fit the size limit.
pub open spec fn annotations_ok(annotations: StringMap) -> bool {
    &&& forall|k: Seq<char>| #[trigger] annotations@.contains_key(k) ==> valid_annotation_key(k)
    &&& entries_bytes(annotations.entry_seq()) <= MAX_ANNOTATIONS_BYTES
}

/// Whether every finalizer is a qualified name and none repeats.
pub open spec fn finalizers_ok(finalizers: Seq<String>) -> bool {
    &&& forall|i: int| 0 <= i < finalizers.len() ==> valid_qualified_name(#[trigger] finalizers[i]@)
    &&& forall|i: int, j: int| 0 <= i < j < finalizers.len() ==> #[trigger] finalizers[i]@ != #[trigger] finalizers[j]@
}

/// Checks every label key and value.
pub fn validate_labels(labels: &StringMap) -> (r: Result<(), AppError>)
    ensures
        r is Ok <==> labels_ok(labels@),
        r matches Err(e) ==> e matches AppError::InvalidLabel(m) && exists|k: Seq<char>|
            #[trigger] labels@.contains_key(k) && !valid_label(k, labels@[k]) && m@ == label_message(k, labels@[k]),
{
    let entries = labels.entries();
    let mut i: usize = 0;
    while i < entries.len()
        invariant
            0 <= i <= entries.len(),
            labels@ == crate::strmap::entries_map(entries@),
            forall|j: int| 0 <= j < entries@.len() ==> labels@.contains_key(#[trigger] entries@[j].0@)
                && labels@[entries@[j].0@] == entries@[j].1@,
            forall|k: Seq<char>| labels@.contains_key(k) ==> exists|j: int| 0 <= j < entries@.len() && #[trigger] entries@[j].0@ == k,
            forall|j: int| 0 <= j < i ==> valid_label(#[trigger] entries@[j].0@, entries@[j].1@),
        decreases entries.len() - i,
    {
        let k = entries[i].0.as_str();
        let v = entries[i].1.as_str();
        if !(is_qualified_name(k) && is_label_value(v)) {
            let m = label_error(k, v);
            proof {
                assert(labels@.contains_key(k@));
            }
            return Err(AppError::InvalidLabel(m));
        }
        i = i + 1;
    }
    proof {
        assert forall|k: Seq<char>| #[trigger] labels@.contains_key(k) implies valid_label(k, labels@[k]) by {
            let j = choose|j: int| 0 <= j < entries@.len() && #[trigger] entries@[j].0@ == k;
        }
    }
    Ok(())
}

/// Checks every annotation key, then the total size.
pub fn validate_annotations(annotations: &StringMap) -> (r: Result<(), AppError>)
    ensures
        r is Ok <==> annotations_ok(*annotations),
        r matches Err(e) ==> e matches AppError::InvalidAnnotation(m) && (
            (exists|k: Seq<char>| #[trigger] annotations@.contains_key(k) && !valid_annotation_key(k)
                && m@ == annotation_key_message(k))
            || ((forall|k: Seq<char>| #[trigger] annotations@.contains_key(k) ==> valid_annotation_key(k))
                && m@ == annotation_size_message())),
{
    let entries = annotations.entries();
    let mut i: usize = 0;
    while i < entries.len()
        invariant
            0 <= i <= entries.len(),
            entries@ == annotations.entry_seq(),
            forall|j: int| 0 <= j < entries@.len() ==> annotations@.contains_key(#[trigger] entries@[j].0@),
            forall|k: Seq<char>| annotations@.contains_key(k) ==> exists|j: int| 0 <= j < entries@.len() && #[trigger] entries@[j].0@ == k,
            forall|j: int| 0 <= j < i ==> valid_annotation_key(#[trigger] entries@[j].0@),
        decreases entries.len() - i,
    {
        let kc = chars_of(entries[i].0.as_str());
        if kc.len() < 1 || kc.len() > 256 {
            let mut m = String::from_str("key ");
            quote_into(&mut m, entries[i].0.as_str());
            m.append(" must hold 1 to 256 characters");
            proof {
                assert(annotations@.contains_key(entries@[i as int].0@));
            }
            return Err(AppError::InvalidAnnotation(m));
        }
        i = i + 1;
    }
    proof {
        assert forall|k: Seq<char>| #[trigger] annotations@.contains_key(k) implies valid_annotation_key(k) by {
            let j = choose|j: int| 0 <= j < entries@.len() && #[trigger] entries@[j].0@ == k;
        }
    }
    let mut total: usize = 0;
    let mut i: usize = 0;
    while i < entries.len()
        invariant
            0 <= i <= entries.len(),
            total == entries_bytes(entries@.take(i as int)),
            total <= MAX_ANNOTATIONS_BYTES,
            entries@ == annotations.entry_seq(),
            forall|k: Seq<char>| #[trigger] annotations@.contains_key(k) ==> valid_annotation_key(k),
        decreases entries.len() - i,
    {
        proof {
            assert(entries@.take(i + 1).drop_last() =~= entries@.take(i as int));
        }
        let ks = entries[i].0.as_str();
        let vs = entries[i].1.as_str();
        let kl = ks.len();
        let vl = vs.len();
        proof {
            assert(kl == byte_len(ks@));
            assert(vl == byte_len(vs@));
            assert(entries@.take(i + 1).last() == entries@[i as int]);
        }
        let next = match total.checked_add(kl) {
            Some(t) => t.checked_add(vl),
            None => None,
        };
        match next {
            Some(t) if t <= MAX_ANNOTATIONS_BYTES => {
                total = t;
            },
            _ => {
                proof {
                    lemma_entries_bytes_mono(entries@, i + 1);
                }
                return Err(AppError::InvalidAnnotation(
                    String::from_str("annotations exceed the total size limit of 262144 bytes"),
                ));
            },
        }
        i = i + 1;
    }
    proof {
        assert(entries@.take(entries@.len() as int) =~= entries@);
    }
    Ok(())
}

/// The byte count of a prefix never exceeds that of the whole list.
proof fn lemma_entries_bytes_mono(s: Seq<(String, String)>, j: int)
    requires
        0 <= j <= s.len(),
    ensures
        entries_bytes(s.take(j)) <= entries_bytes(s),
    decreases s.len() - j,
{
    if j < s.len() {
        assert(s.take(j + 1).drop_last() =~= s.take(j));
        lemma_entries_bytes_mono(s, j + 1);
    } else {
        assert(s.take(j) =~= s);
    }
}

/// Checks that every finalizer is a qualified name and none repeats.
pub fn validate_finalizers(finalizers: &Vec<String>) -> (r: Result<(), AppError>)
    ensures
        r is Ok <==> finalizers_ok(finalizers@),
        r matches Err(e) ==> e matches AppError::InvalidFinalizer(m) && exists|i: int| 0 <= i < finalizers@.len() && (
            m@ == finalizer_format_message(#[trigger] finalizers@[i]@)
            || m@ == finalizer_duplicate_message(finalizers@[i]@)),
{
    let mut i: usize = 0;
    while i < finalizers.len()
        invariant
            0 <= i <= finalizers.len(),
            forall|a: int| 0 <= a < i ==> valid_qualified_name(#[trigger] finalizers@[a]@),
            forall|a: int, b: int| 0 <= a < b < i ==> #[trigger] finalizers@[a]@ != #[trigger] finalizers@[b]@,
        decreases finalizers.len() - i,
    {
        let f = finalizers[i].as_str();
        if !is_qualified_name(f) {
            let mut m = String::from_str("finalizer ");
            quote_into(&mut m, f);
            m.append(" is not a valid qualified name");
            return Err(AppError::InvalidFinalizer(m));
        }
        let mut j: usize = 0;
        while j < i
            invariant
                0 <= j <= i < finalizers.len(),
                f@ == finalizers@[i as int]@,
                forall|a: int| 0 <= a < j ==> finalizers@[a]@ != finalizers@[i as int]@,
            decreases i - j,
        {
            if str_equal(finalizers[j].as_str(), f) {
                let mut m = String::from_str("finalizer ");
                quote_into(&mut m, f);
                m.append(" is listed more than once");
                return Err(AppError::InvalidFinalizer(m));
            }
            j = j + 1;
        }
        i = i + 1;
    }
    Ok(())
}

} // verus!
