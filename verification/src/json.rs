//! JSON encoding of strings and of (nested) lists of strings, as used for
//! query parameter values.
//!
//! A string is written in double quotes with `"` and `\` escaped and control
//! characters written `\u00XX`; lists are written in square brackets with
//! comma separators.

use vstd::prelude::*;

use crate::percent::hex_upper;
use crate::strutil::push_char;

verus! {

/// How one character is written inside a JSON string literal.
pub open spec fn json_escaped_char(c: char) -> Seq<char> {
    if c == '"' {
        seq!['\\', '"']
    } else if c == '\\' {
        seq!['\\', '\\']
    } else if (c as u32) < 0x20 {
        seq!['\\', 'u', '0', '0', hex_upper((c as u32 / 16) as u8), hex_upper((c as u32 % 16) as u8)]
    } else {
        seq![c]
    }
}

/// The escaped body of a JSON string literal.
pub open spec fn json_escaped(s: Seq<char>) -> Seq<char>
    decreases s.len(),
{
    if s.len() == 0 {
        Seq::empty()
    } else {
        json_escaped_char(s[0]) + json_escaped(s.drop_first())
    }
}

/// A JSON string literal.
pub open spec fn json_string(s: Seq<char>) -> Seq<char> {
    seq!['"'] + json_escaped(s) + seq!['"']
}

/// The comma-separated items of a JSON array of strings.
pub open spec fn json_string_items(items: Seq<Seq<char>>) -> Seq<char>
    decreases items.len(),
{
    if items.len() == 0 {
        Seq::empty()
    } else if items.len() == 1 {
        json_string(items[0])
    } else {
        json_string(items[0]) + seq![','] + json_string_items(items.drop_first())
    }
}

/// A JSON array of strings.
pub open spec fn json_string_list(items: Seq<Seq<char>>) -> Seq<char> {
    seq!['['] + json_string_items(items) + seq![']']
}

/// The comma-separated items of a JSON array of arrays of strings.
pub open spec fn json_list_items(groups: Seq<Seq<Seq<char>>>) -> Seq<char>
    decreases groups.len(),
{
    if groups.len() == 0 {
        Seq::empty()
    } else if groups.len() == 1 {
        json_string_list(groups[0])
    } else {
        json_string_list(groups[0]) + seq![','] + json_list_items(groups.drop_first())
    }
}

/// A JSON array of arrays of strings.
pub open spec fn json_list_of_lists(groups: Seq<Seq<Seq<char>>>) -> Seq<char> {
    seq!['['] + json_list_items(groups) + seq![']']
}

/// The views of a list of strings.
pub open spec fn strs_view(items: Seq<&str>) -> Seq<Seq<char>> {
    items.map_values(|s: &str| s@)
}

proof fn lemma_json_escaped_concat(a: Seq<char>, b: Seq<char>)
    ensures
        json_escaped(a + b) == json_escaped(a) + json_escaped(b),
    decreases a.len(),
{
    if a.len() == 0 {
        assert(a + b =~= b);
        assert(json_escaped(a) + json_escaped(b) =~= json_escaped(b));
    } else {
        assert((a + b).drop_first() =~= a.drop_first() + b);
        lemma_json_escaped_concat(a.drop_first(), b);
        assert(json_escaped_char((a + b)[0]) + (json_escaped(a.drop_first()) + json_escaped(b))
            =~= json_escaped(a) + json_escaped(b));
    }
}

fn push_json_escaped(out: &mut String, s: &str)
    ensures
        final(out)@ == old(out)@ + json_escaped(s@),
{
    let n = s.unicode_len();
    let mut i: usize = 0;
    while i < n
        invariant
            i <= n,
            n == s@.len(),
            out@ == old(out)@ + json_escaped(s@.take(i as int)),
        decreases n - i,
    {
        let c = s.get_char(i);
        if c == '"' {
            push_char(out, '\\');
            push_char(out, '"');
        } else if c == '\\' {
            push_char(out, '\\');
            push_char(out, '\\');
        } else if (c as u32) < 0x20 {
            let code = c as u32;
            push_char(out, '\\');
            push_char(out, 'u');
            push_char(out, '0');
            push_char(out, '0');
            push_char(out, if code / 16 < 10 {
                (0x30u8 + (code / 16) as u8) as char
            } else {
                (0x41u8 + ((code / 16) as u8 - 10)) as char
            });
            push_char(out, if code % 16 < 10 {
                (0x30u8 + (code % 16) as u8) as char
            } else {
                (0x41u8 + ((code % 16) as u8 - 10)) as char
            });
        } else {
            push_char(out, c);
        }
        proof {
            let cs = seq![c];
            lemma_json_escaped_concat(s@.take(i as int), cs);
            assert(s@.take(i as int) + cs =~= s@.take(i + 1));
            assert(cs.drop_first() =~= Seq::<char>::empty());
            assert(cs[0] == c);
            assert(json_escaped(cs.drop_first()) == Seq::<char>::empty());
            assert(json_escaped(cs) =~= json_escaped_char(c));
            assert(out@ =~= old(out)@ + json_escaped(s@.take(i + 1)));
        }
        i += 1;
    }
    proof {
        assert(s@.take(n as int) =~= s@);
    }
}

/// Append the JSON string literal for `s` to `out`.
fn push_json_string(out: &mut String, s: &str)
    ensures
        final(out)@ == old(out)@ + json_string(s@),
{
    push_char(out, '"');
    push_json_escaped(out, s);
    push_char(out, '"');
    proof {
        assert(old(out)@.push('"') + json_escaped(s@) =~= old(out)@ + (seq!['"'] + json_escaped(
            s@,
        )));
        assert((old(out)@ + (seq!['"'] + json_escaped(s@))).push('"') =~= old(out)@ + json_string(
            s@,
        ));
    }
}

/// The JSON string literal for `s`.
pub fn json_encode_string(s: &str) -> (r: String)
    ensures
        r@ == json_string(s@),
{
    let mut out = String::new();
    push_json_string(&mut out, s);
    proof {
        assert(Seq::<char>::empty() + json_string(s@) =~= json_string(s@));
    }
    out
}

proof fn lemma_json_string_items_snoc(items: Seq<Seq<char>>, s: Seq<char>)
    ensures
        items.len() == 0 ==> json_string_items(items.push(s)) == json_string(s),
        items.len() > 0 ==> json_string_items(items.push(s)) == json_string_items(items) + seq![
            ',',
        ] + json_string(s),
    decreases items.len(),
{
    if items.len() == 0 {
        assert(items.push(s)[0] == s);
    } else {
        assert(items.push(s).drop_first() =~= items.drop_first().push(s));
        lemma_json_string_items_snoc(items.drop_first(), s);
        assert(json_string_items(items.push(s)) =~= json_string_items(items) + seq![',']
            + json_string(s));
    }
}

/// The JSON array of the given strings.
pub fn json_encode_str_list(items: &[&str]) -> (r: String)
    ensures
        r@ == json_string_list(strs_view(items@)),
{
    let mut out = String::new();
    push_char(&mut out, '[');
    let ghost view = strs_view(items@);
    let n = items.len();
    let mut i: usize = 0;
    while i < n
        invariant
            i <= n,
            n == items@.len(),
            view == strs_view(items@),
            out@ == seq!['['] + json_string_items(view.take(i as int)),
        decreases n - i,
    {
        if i > 0 {
            push_char(&mut out, ',');
        }
        push_json_string(&mut out, *vstd::slice::slice_index_get(items, i));
        proof {
            assert(view[i as int] == items@[i as int]@);
            lemma_json_string_items_snoc(view.take(i as int), view[i as int]);
            assert(view.take(i as int).push(view[i as int]) =~= view.take(i + 1));
            assert(out@ =~= seq!['['] + json_string_items(view.take(i + 1)));
        }
        i += 1;
    }
    push_char(&mut out, ']');
    proof {
        assert(view.take(n as int) =~= view);
        assert(out@ =~= json_string_list(view));
    }
    out
}

proof fn lemma_json_list_items_snoc(groups: Seq<Seq<Seq<char>>>, g: Seq<Seq<char>>)
    ensures
        groups.len() == 0 ==> json_list_items(groups.push(g)) == json_string_list(g),
        groups.len() > 0 ==> json_list_items(groups.push(g)) == json_list_items(groups) + seq![
            ',',
        ] + json_string_list(g),
    decreases groups.len(),
{
    if groups.len() == 0 {
        assert(groups.push(g)[0] == g);
    } else {
        assert(groups.push(g).drop_first() =~= groups.drop_first().push(g));
        lemma_json_list_items_snoc(groups.drop_first(), g);
        assert(json_list_items(groups.push(g)) =~= json_list_items(groups) + seq![',']
            + json_string_list(g));
    }
}

fn push_json_string_vec(out: &mut String, items: &Vec<String>)
    ensures
        final(out)@ == old(out)@ + json_string_list(items.deep_view()),
{
    push_char(out, '[');
    let ghost view = items.deep_view();
    let ghost start = old(out)@;
    let n = items.len();
    let mut i: usize = 0;
    while i < n
        invariant
            i <= n,
            n == items@.len(),
            view == items.deep_view(),
            start == old(out)@,
            out@ == start + seq!['['] + json_string_items(view.take(i as int)),
        decreases n - i,
    {
        if i > 0 {
            push_char(out, ',');
        }
        push_json_string(out, items[i].as_str());
        proof {
            assert(view[i as int] == items@[i as int]@);
            lemma_json_string_items_snoc(view.take(i as int), view[i as int]);
            assert(view.take(i as int).push(view[i as int]) =~= view.take(i + 1));
            assert(out@ =~= start + seq!['['] + json_string_items(view.take(i + 1)));
        }
        i += 1;
    }
    push_char(out, ']');
    proof {
        assert(view.take(n as int) =~= view);
        assert(out@ =~= start + json_string_list(view));
    }
}

/// The JSON array of arrays of the given strings.
pub fn json_encode_nested(groups: &Vec<Vec<String>>) -> (r: String)
    ensures
        r@ == json_list_of_lists(groups.deep_view()),
{
    let mut out = String::new();
    push_char(&mut out, '[');
    let ghost view = groups.deep_view();
    let n = groups.len();
    let mut i: usize = 0;
    while i < n
        invariant
            i <= n,
            n == groups@.len(),
            view == groups.deep_view(),
            out@ == seq!['['] + json_list_items(view.take(i as int)),
        decreases n - i,
    {
        if i > 0 {
            push_char(&mut out, ',');
        }
        push_json_string_vec(&mut out, &groups[i]);
        proof {
            assert(view[i as int] == groups@[i as int].deep_view());
            lemma_json_list_items_snoc(view.take(i as int), view[i as int]);
            assert(view.take(i as int).push(view[i as int]) =~= view.take(i + 1));
            assert(out@ =~= seq!['['] + json_list_items(view.take(i + 1)));
        }
        i += 1;
    }
    push_char(&mut out, ']');
    proof {
        assert(view.take(n as int) =~= view);
        assert(out@ =~= json_list_of_lists(view));
    }
    out
}

} // verus!
