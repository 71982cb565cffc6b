//! The OpenAPI description of the API: component names of registered kinds,
//! the component schemas and the paths.

pub mod components;
pub mod paths;

use vstd::prelude::*;
use crate::charseq::{copy_range, lemma_split_pieces, seqs_of, split_chars, split_on};
use crate::keys::{ResourceKey, schema_key, spec_schema_key};
use crate::text::{chars_of, string_of};

verus! {

/// What `char::to_uppercase` yields for `c`: the full Unicode uppercase
/// mapping, which may be more than one character.
pub uninterp spec fn uppercase_of(c: char) -> Seq<char>;

/// What `str::to_lowercase` gives for the text `s`: the full Unicode
/// lowercase mapping, which depends on context (a final sigma).
pub uninterp spec fn lowercase_of(s: Seq<char>) -> Seq<char>;

/// The ASCII uppercase of `c`: `a`-`z` to `A`-`Z`, any other character
/// as it is.
pub open spec fn ascii_upper(c: char) -> char {
    if 97 <= (c as u32) <= 122 { ((c as u32) - 32) as char } else { c }
}

/// The ASCII lowercase of `c`: `A`-`Z` to `a`-`z`, any other character as
/// it is.
pub open spec fn ascii_lower(c: char) -> char {
    if 65 <= (c as u32) <= 90 { ((c as u32) + 32) as char } else { c }
}

/// `char::to_uppercase`, collected into a `String`. As its documentation
/// says, an ASCII character maps to its ASCII uppercase alone.
#[verifier::external_body]
fn char_uppercase(c: char) -> (r: String)
    ensures
        r@ == uppercase_of(c),
        (c as u32) < 128 ==> r@ == seq![ascii_upper(c)],
{
    c.to_uppercase().collect()
}

/// `str::to_lowercase`. As its documentation says, ASCII text maps
/// character by character to its ASCII lowercase.
#[verifier::external_body]
fn str_lowercase(s: &str) -> (r: String)
    ensures
        r@ == lowercase_of(s@),
        (forall|i: int| 0 <= i < s@.len() ==> (#[trigger] s@[i] as u32) < 128)
            ==> r@ == s@.map_values(|c: char| ascii_lower(c)),
{
    s.to_lowercase()
}

/// One dot-separated segment in PascalCase: its first character upper-cased,
/// the rest lower-cased; an empty segment contributes nothing.
pub open spec fn pascal_segment(seg: Seq<char>) -> Seq<char> {
    if seg.len() == 0 {
        Seq::empty()
    } else {
        uppercase_of(seg[0]) + lowercase_of(seg.skip(1))
    }
}

/// The PascalCase segments joined together.
pub open spec fn pascal_join(segs: Seq<Seq<char>>) -> Seq<char>
    decreases segs.len(),
{
    if segs.len() == 0 {
        Seq::empty()
    } else {
        pascal_join(segs.drop_last()) + pascal_segment(segs.last())
    }
}

/// Whether every character of `s` is ASCII.
pub open spec fn all_ascii(s: Seq<char>) -> bool {
    forall|i: int| 0 <= i < s.len() ==> (#[trigger] s[i] as u32) < 128
}

/// One ASCII segment in PascalCase: its first character in ASCII uppercase,
/// the rest in ASCII lowercase; an empty segment contributes nothing.
pub open spec fn ascii_pascal_segment(seg: Seq<char>) -> Seq<char> {
    if seg.len() == 0 {
        Seq::empty()
    } else {
        seq![ascii_upper(seg[0])] + seg.skip(1).map_values(|c: char| ascii_lower(c))
    }
}

/// The ASCII PascalCase segments joined together.
pub open spec fn ascii_pascal_join(segs: Seq<Seq<char>>) -> Seq<char>
    decreases segs.len(),
{
    if segs.len() == 0 {
        Seq::empty()
    } else {
        ascii_pascal_join(segs.drop_last()) + ascii_pascal_segment(segs.last())
    }
}

/// Segments without a dot join, in ASCII PascalCase, to a text without a dot.
proof fn lemma_ascii_join_no_dot(segs: Seq<Seq<char>>)
    requires
        forall|k: int, j: int| 0 <= k < segs.len() && 0 <= j < segs[k].len() ==> #[trigger] segs[k][j] != '.',
    ensures
        !ascii_pascal_join(segs).contains('.'),
    decreases segs.len(),
{
    if segs.len() > 0 {
        let init = segs.drop_last();
        assert forall|k: int, j: int| 0 <= k < init.len() && 0 <= j < init[k].len() implies #[trigger] init[k][j] != '.' by {
            assert(init[k] == segs[k]);
        }
        lemma_ascii_join_no_dot(init);
        let seg = segs.last();
        let a = ascii_pascal_join(init);
        let b = ascii_pascal_segment(seg);
        assert(segs[segs.len() - 1] == seg);
        assert forall|i: int| 0 <= i < b.len() implies b[i] != '.' by {
            if i == 0 {
                assert(seg[0] != '.');
            } else {
                assert(seg[i] != '.');
                assert(b[i] == ascii_lower(seg.skip(1)[i - 1]));
            }
        }
        if ascii_pascal_join(segs).contains('.') {
            let w = choose|w: int| 0 <= w < (a + b).len() && (a + b)[w] == '.';
            if w < a.len() {
                assert(a[w] == '.');
            } else {
                assert(b[w - a.len()] == '.');
            }
        }
    }
}

/// The component name of a schema name: its dot-separated segments, each in
/// PascalCase, concatenated.
pub open spec fn spec_component_name(schema_name: Seq<char>) -> Seq<char> {
    pascal_join(split_on(schema_name, '.'))
}

/// Converts a schema name (`{Kind}.{group}...`) into an OpenAPI component
/// name: splits on dots, PascalCases each non-empty segment and concatenates
/// them, so `Widget.example.io` becomes `WidgetExampleIo`. For an ASCII name
/// the case mapping is the ASCII one and the result holds no dot.
pub fn component_name(schema_name: &str) -> (r: String)
    ensures
        r@ == spec_component_name(schema_name@),
        all_ascii(schema_name@) ==> r@ == ascii_pascal_join(split_on(schema_name@, '.')) && !r@.contains('.'),
{
    let chars = chars_of(schema_name);
    let parts = split_chars(&chars, '.');
    let ghost segs = seqs_of(parts@);
    proof {
        lemma_split_pieces(schema_name@, '.');
    }
    let mut out = String::new();
    let mut i: usize = 0;
    while i < parts.len()
        invariant
            0 <= i <= parts.len(),
            segs == seqs_of(parts@),
            segs == split_on(schema_name@, '.'),
            out@ == pascal_join(segs.take(i as int)),
            all_ascii(schema_name@) ==> out@ == ascii_pascal_join(segs.take(i as int)),
            forall|k: int, j: int| 0 <= k < segs.len() && 0 <= j < segs[k].len()
                ==> #[trigger] segs[k][j] != '.' && schema_name@.contains(segs[k][j]),
        decreases parts.len() - i,
    {
        let seg = &parts[i];
        proof {
            assert(segs.take(i + 1).drop_last() =~= segs.take(i as int));
            assert(segs[i as int] == seg@);
        }
        if seg.len() > 0 {
            let up = char_uppercase(seg[0]);
            let rest = string_of(copy_range(seg, 1, seg.len()).as_slice());
            let low = str_lowercase(rest.as_str());
            proof {
                assert(rest@ =~= seg@.skip(1));
                if all_ascii(schema_name@) {
                    assert forall|j: int| 0 <= j < seg@.len() implies (#[trigger] seg@[j] as u32) < 128 by {
                        assert(segs[i as int][j] == seg@[j]);
                        let w = choose|w: int| 0 <= w < schema_name@.len() && schema_name@[w] == seg@[j];
                        assert((schema_name@[w] as u32) < 128);
                    }
                    assert((seg@[0] as u32) < 128);
                    assert forall|j: int| 0 <= j < rest@.len() implies (#[trigger] rest@[j] as u32) < 128 by {
                        assert(rest@[j] == seg@[j + 1]);
                    }
                    assert(up@ + low@ =~= ascii_pascal_segment(seg@));
                }
            }
            out.append(up.as_str());
            out.append(low.as_str());
        }
        i = i + 1;
    }
    proof {
        assert(segs.take(parts.len() as int) =~= segs);
        lemma_ascii_join_no_dot(segs);
    }
    out
}

/// The key under which Schema objects are stored.
pub fn schema_resource_key() -> (k: ResourceKey)
    ensures
        k@ == spec_schema_key(),
{
    schema_key()
}

} // verus!
