//! JSON text of a [`JsonValue`]: compact, members in order, strings escaped.

use vstd::prelude::*;
use crate::json::{JsonTree, JsonValue};
use crate::text::{chars_of, push_char};

verus! {

broadcast use vstd::std_specs::vec::group_vec_axioms;

/// Lower-case hexadecimal digit of `d < 16`.
pub open spec fn hex_char(d: nat) -> char {
    if d == 0 { '0' }
    else if d == 1 { '1' }
    else if d == 2 { '2' }
    else if d == 3 { '3' }
    else if d == 4 { '4' }
    else if d == 5 { '5' }
    else if d == 6 { '6' }
    else if d == 7 { '7' }
    else if d == 8 { '8' }
    else if d == 9 { '9' }
    else if d == 10 { 'a' }
    else if d == 11 { 'b' }
    else if d == 12 { 'c' }
    else if d == 13 { 'd' }
    else if d == 14 { 'e' }
    else { 'f' }
}

/// How one character is written inside a JSON string: quote and backslash
/// escaped, control characters as `\u00XX`, everything else as itself.
pub open spec fn escape_char(c: char) -> Seq<char> {
    if c == '"' {
        seq!['\\', '"']
    } else if c == '\\' {
        seq!['\\', '\\']
    } else if (c as u32) < 0x20 {
        seq!['\\', 'u', '0', '0', hex_char((c as u32 / 16) as nat), hex_char((c as u32 % 16) as nat)]
    } else {
        seq![c]
    }
}

/// The escaped characters of `s`.
pub open spec fn escaped(s: Seq<char>) -> Seq<char>
    decreases s.len(),
{
    if s.len() == 0 {
        Seq::empty()
    } else {
        escaped(s.drop_last()) + escape_char(s.last())
    }
}

/// `s` as a JSON string literal.
pub open spec fn quoted_text(s: Seq<char>) -> Seq<char> {
    seq!['"'] + escaped(s) + seq!['"']
}

/// The compact JSON text of a value.
pub open spec fn json_text(j: JsonTree) -> Seq<char>
    decreases j,
{
    match j {
        JsonTree::Null => seq!['n', 'u', 'l', 'l'],
        JsonTree::Bool(b) => if b { seq!['t', 'r', 'u', 'e'] } else { seq!['f', 'a', 'l', 's', 'e'] },
        JsonTree::Number(n) => n,
        JsonTree::Str(s) => quoted_text(s),
        JsonTree::Array(items) => seq!['['] + items_text(items) + seq![']'],
        JsonTree::Object(fields) => seq!['{'] + fields_text(fields) + seq!['}'],
    }
}

/// The texts of `items`, separated by commas.
pub open spec fn items_text(items: Seq<JsonTree>) -> Seq<char>
    decreases items,
{
    if items.len() == 0 {
        Seq::empty()
    } else if items.len() == 1 {
        json_text(items[0])
    } else {
        proof {
            assert(decreases_to!(items => items.subrange(0, items.len() - 1)));
        }
        items_text(items.drop_last()) + seq![','] + json_text(items.last())
    }
}

/// The members `"key":value`, separated by commas.
pub open spec fn fields_text(fields: Seq<(Seq<char>, JsonTree)>) -> Seq<char>
    decreases fields,
{
    if fields.len() == 0 {
        Seq::empty()
    } else if fields.len() == 1 {
        proof {
            assert(decreases_to!(fields => fields[0]));
        }
        quoted_text(fields[0].0) + seq![':'] + json_text(fields[0].1)
    } else {
        proof {
            assert(decreases_to!(fields => fields.subrange(0, fields.len() - 1)));
            assert(decreases_to!(fields => fields.last()));
        }
        fields_text(fields.drop_last()) + seq![','] + quoted_text(fields.last().0) + seq![':'] + json_text(fields.last().1)
    }
}

fn hex(d: u32) -> (c: char)
    requires
        d < 16,
    ensures
        c == hex_char(d as nat),
{
    if d == 0 { '0' }
    else if d == 1 { '1' }
    else if d == 2 { '2' }
    else if d == 3 { '3' }
    else if d == 4 { '4' }
    else if d == 5 { '5' }
    else if d == 6 { '6' }
    else if d == 7 { '7' }
    else if d == 8 { '8' }
    else if d == 9 { '9' }
    else if d == 10 { 'a' }
    else if d == 11 { 'b' }
    else if d == 12 { 'c' }
    else if d == 13 { 'd' }
    else if d == 14 { 'e' }
    else { 'f' }
}

fn push_escaped_char(out: &mut String, c: char)
    ensures
        final(out)@ == old(out)@ + escape_char(c),
{
    let code = c as u32;
    if c == '"' {
        push_char(out, '\\');
        push_char(out, '"');
    } else if c == '\\' {
        push_char(out, '\\');
        push_char(out, '\\');
    } else if code < 0x20 {
        push_char(out, '\\');
        push_char(out, 'u');
        push_char(out, '0');
        push_char(out, '0');
        push_char(out, hex(code / 16));
        push_char(out, hex(code % 16));
    } else {
        push_char(out, c);
    }
}

/// Appends `s` as a JSON string literal.
pub fn push_quoted(out: &mut String, s: &str)
    ensures
        final(out)@ == old(out)@ + quoted_text(s@),
{
    let chars = chars_of(s);
    let ghost start = out@;
    push_char(out, '"');
    let mut i: usize = 0;
    while i < chars.len()
        invariant
            0 <= i <= chars.len(),
            chars@ == s@,
            out@ == start + seq!['"'] + escaped(s@.take(i as int)),
        decreases chars.len() - i,
    {
        proof {
            assert(s@.take(i + 1).drop_last() =~= s@.take(i as int));
        }
        push_escaped_char(out, chars[i]);
        i = i + 1;
    }
    proof {
        assert(s@.take(chars.len() as int) =~= s@);
    }
    push_char(out, '"');
    assert(out@ =~= start + quoted_text(s@));
}

impl JsonValue {
    /// Appends the compact JSON text of `self`.
    pub fn write_text(&self, out: &mut String)
        ensures
            final(out)@ == old(out)@ + json_text(self@),
        decreases self,
    {
        match self {
            JsonValue::Null => {
                out.append("null");
                proof { reveal_strlit("null"); }
            },
            JsonValue::Bool(b) => {
                if *b {
                    out.append("true");
                    proof { reveal_strlit("true"); }
                } else {
                    out.append("false");
                    proof { reveal_strlit("false"); }
                }
            },
            JsonValue::Number(n) => {
                out.append(n.as_str());
            },
            JsonValue::String(s) => {
                push_quoted(out, s.as_str());
            },
            JsonValue::Array(items) => {
                let ghost start = out@;
                let ghost tree = self@->Array_0;
                push_char(out, '[');
                let mut i: usize = 0;
                while i < items.len()
                    invariant
                        0 <= i <= items.len(),
                        *self == JsonValue::Array(*items),
                        tree == self@->Array_0,
                        tree.len() == items.len(),
                        forall|j: int| 0 <= j < items.len() ==> tree[j] == #[trigger] items@[j]@,
                        out@ == start + seq!['['] + items_text(tree.take(i as int)),
                    decreases items.len() - i,
                {
                    proof {
                        assert(decreases_to!(*self => (*self)->Array_0));
                        assert(decreases_to!(*items => items[i as int]));
                        assert(decreases_to!(*self => items[i as int]));
                        assert(tree.take(i + 1).drop_last() =~= tree.take(i as int));
                        assert(tree.take(i + 1).last() == items@[i as int]@);
                        if i == 0 {
                            assert(tree.take(1)[0] == items@[0]@);
                        }
                    }
                    if i > 0 {
                        push_char(out, ',');
                    }
                    items[i].write_text(out);
                    i = i + 1;
                }
                proof {
                    assert(tree.take(items.len() as int) =~= tree);
                }
                push_char(out, ']');
            },
            JsonValue::Object(fields) => {
                let ghost start = out@;
                let ghost tree = self@->Object_0;
                push_char(out, '{');
                let mut i: usize = 0;
                while i < fields.len()
                    invariant
                        0 <= i <= fields.len(),
                        *self == JsonValue::Object(*fields),
                        tree == self@->Object_0,
                        tree.len() == fields.len(),
                        forall|j: int| 0 <= j < fields.len() ==> tree[j] == (#[trigger] fields@[j].0@, fields@[j].1@),
                        out@ == start + seq!['{'] + fields_text(tree.take(i as int)),
                    decreases fields.len() - i,
                {
                    proof {
                        assert(decreases_to!(*self => (*self)->Object_0));
                        assert(decreases_to!(*fields => fields[i as int]));
                        assert(decreases_to!(fields[i as int] => fields[i as int].1));
                        assert(decreases_to!(*self => fields[i as int].1));
                        assert(tree.take(i + 1).drop_last() =~= tree.take(i as int));
                        assert(tree.take(i + 1).last() == (fields@[i as int].0@, fields@[i as int].1@));
                        if i == 0 {
                            assert(tree.take(1)[0] == (fields@[0].0@, fields@[0].1@));
                        }
                    }
                    if i > 0 {
                        push_char(out, ',');
                    }
                    push_quoted(out, fields[i].0.as_str());
                    push_char(out, ':');
                    fields[i].1.write_text(out);
                    i = i + 1;
                }
                proof {
                    assert(tree.take(fields.len() as int) =~= tree);
                }
                push_char(out, '}');
            },
        }
    }

    /// The compact JSON text of `self`.
    pub fn to_text(&self) -> (r: String)
        ensures
            r@ == json_text(self@),
    {
        let mut out = String::new();
        self.write_text(&mut out);
        assert(out@ =~= json_text(self@));
        out
    }
}

} // verus!
