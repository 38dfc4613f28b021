//! Percent-encoding of URL path segments and query strings.
//!
//! Strings are encoded byte by byte (their UTF-8 bytes): bytes of the
//! unreserved set stand for themselves, a space in a query becomes `+`, and
//! every other byte becomes `%` followed by two uppercase hexadecimal digits.
//! The decoding side defines what a well-formed query string means; the
//! round-trip law [`lemma_query_round_trip`] says that decoding gives back
//! exactly the pairs a query string was built from.

use vstd::prelude::*;

verus! {

/// A byte that stands for itself in an encoded URL: an ASCII letter or digit,
/// `-`, `.`, `_` or `~`.
pub open spec fn is_unreserved(b: u8) -> bool {
    ||| (0x41 <= b && b <= 0x5A)  // A-Z
    ||| (0x61 <= b && b <= 0x7A)  // a-z
    ||| (0x30 <= b && b <= 0x39)  // 0-9
    ||| b == 0x2D  // -
    ||| b == 0x2E  // .
    ||| b == 0x5F  // _
    ||| b == 0x7E  // ~
}

/// The uppercase hexadecimal digit for a value below 16.
pub open spec fn hex_upper(n: u8) -> char
    recommends
        n < 16,
{
    if n < 10 {
        ((0x30 + n) as u8) as char
    } else {
        ((0x41 + (n - 10)) as u8) as char
    }
}

/// The value of a hexadecimal digit character, of either case.
pub open spec fn hex_char_value(c: char) -> Option<u8> {
    if '0' <= c && c <= '9' {
        Some((c as u32 - 48) as u8)
    } else if 'A' <= c && c <= 'F' {
        Some((c as u32 - 65 + 10) as u8)
    } else if 'a' <= c && c <= 'f' {
        Some((c as u32 - 97 + 10) as u8)
    } else {
        None
    }
}

/// How one byte of a query key or value is encoded.
pub open spec fn query_encode_byte(b: u8) -> Seq<char> {
    if b == 0x20 {
        seq!['+']
    } else if is_unreserved(b) {
        seq![b as char]
    } else {
        seq!['%', hex_upper(b / 16), hex_upper(b % 16)]
    }
}

/// The query encoding of a byte string.
pub open spec fn query_encoded(bs: Seq<u8>) -> Seq<char>
    decreases bs.len(),
{
    if bs.len() == 0 {
        Seq::empty()
    } else {
        query_encode_byte(bs[0]) + query_encoded(bs.drop_first())
    }
}

/// How one byte of a path segment is encoded: as in a query, except that a
/// space is percent-encoded rather than written `+`.
pub open spec fn path_encode_byte(b: u8) -> Seq<char> {
    if is_unreserved(b) {
        seq![b as char]
    } else {
        seq!['%', hex_upper(b / 16), hex_upper(b % 16)]
    }
}

/// The path-segment encoding of a byte string.
pub open spec fn path_encoded(bs: Seq<u8>) -> Seq<char>
    decreases bs.len(),
{
    if bs.len() == 0 {
        Seq::empty()
    } else {
        path_encode_byte(bs[0]) + path_encoded(bs.drop_first())
    }
}

/// The byte string an encoded query component stands for, or `None` where the
/// component is not well formed.
pub open spec fn query_decoded(cs: Seq<char>) -> Option<Seq<u8>>
    decreases cs.len(),
{
    if cs.len() == 0 {
        Some(Seq::empty())
    } else if cs[0] == '+' {
        match query_decoded(cs.drop_first()) {
            Some(rest) => Some(seq![0x20u8] + rest),
            None => None,
        }
    } else if cs[0] == '%' {
        if cs.len() >= 3 {
            match (hex_char_value(cs[1]), hex_char_value(cs[2])) {
                (Some(hi), Some(lo)) => match query_decoded(cs.skip(3)) {
                    Some(rest) => Some(seq![(hi * 16 + lo) as u8] + rest),
                    None => None,
                },
                _ => None,
            }
        } else {
            None
        }
    } else if is_unreserved(cs[0] as u8) && cs[0] as u32 == cs[0] as u8 as u32 {
        match query_decoded(cs.drop_first()) {
            Some(rest) => Some(seq![cs[0] as u8] + rest),
            None => None,
        }
    } else {
        None
    }
}

/// Whether `c` occurs in `cs`.
pub open spec fn has_char(cs: Seq<char>, c: char) -> bool {
    exists|i: int| 0 <= i < cs.len() && cs[i] == c
}

/// Encoding distributes over concatenation of byte strings.
pub proof fn lemma_query_encoded_concat(a: Seq<u8>, b: Seq<u8>)
    ensures
        query_encoded(a + b) == query_encoded(a) + query_encoded(b),
    decreases a.len(),
{
    if a.len() == 0 {
        assert(a + b =~= b);
        assert(query_encoded(a) + query_encoded(b) =~= query_encoded(b));
    } else {
        assert((a + b).drop_first() =~= a.drop_first() + b);
        lemma_query_encoded_concat(a.drop_first(), b);
        assert(query_encode_byte((a + b)[0]) + (query_encoded(a.drop_first()) + query_encoded(b))
            =~= query_encoded(a) + query_encoded(b));
    }
}

/// Path encoding distributes over concatenation of byte strings.
pub proof fn lemma_path_encoded_concat(a: Seq<u8>, b: Seq<u8>)
    ensures
        path_encoded(a + b) == path_encoded(a) + path_encoded(b),
    decreases a.len(),
{
    if a.len() == 0 {
        assert(a + b =~= b);
        assert(path_encoded(a) + path_encoded(b) =~= path_encoded(b));
    } else {
        assert((a + b).drop_first() =~= a.drop_first() + b);
        lemma_path_encoded_concat(a.drop_first(), b);
        assert(path_encode_byte((a + b)[0]) + (path_encoded(a.drop_first()) + path_encoded(b))
            =~= path_encoded(a) + path_encoded(b));
    }
}

/// Every character of an encoded query component is drawn from the safe set:
/// in particular it is never `&`, `=`, `?` or `#`.
pub proof fn lemma_query_encoded_safe(bs: Seq<u8>)
    ensures
        forall|i: int| 0 <= i < query_encoded(bs).len() ==> {
            let c = #[trigger] query_encoded(bs)[i];
            c != '&' && c != '=' && c != '?' && c != '#'
        },
    decreases bs.len(),
{
    if bs.len() > 0 {
        lemma_query_encoded_safe(bs.drop_first());
        let head = query_encode_byte(bs[0]);
        assert forall|i: int| 0 <= i < head.len() implies {
            let c = #[trigger] head[i];
            c != '&' && c != '=' && c != '?' && c != '#'
        } by {
            if bs[0] != 0x20 && is_unreserved(bs[0]) {
                assert(head[i] == bs[0] as char);
                assert(bs[0] as char as u32 == bs[0] as u32);
            }
        }
        assert(query_encoded(bs) == head + query_encoded(bs.drop_first()));
    }
}

/// Every character of an encoded path segment is drawn from the safe set: in
/// particular it is never `/`, `?` or `#`.
pub proof fn lemma_path_encoded_safe(bs: Seq<u8>)
    ensures
        forall|i: int| 0 <= i < path_encoded(bs).len() ==> {
            let c = #[trigger] path_encoded(bs)[i];
            c != '/' && c != '?' && c != '#'
        },
    decreases bs.len(),
{
    if bs.len() > 0 {
        lemma_path_encoded_safe(bs.drop_first());
        let head = path_encode_byte(bs[0]);
        assert forall|i: int| 0 <= i < head.len() implies {
            let c = #[trigger] head[i];
            c != '/' && c != '?' && c != '#'
        } by {
            if is_unreserved(bs[0]) {
                assert(head[i] == bs[0] as char);
                assert(bs[0] as char as u32 == bs[0] as u32);
            }
        }
        assert(path_encoded(bs) == head + path_encoded(bs.drop_first()));
    }
}

/// Decoding a hexadecimal digit gives back the value it was written from.
proof fn lemma_hex_round(n: u8)
    requires
        n < 16,
    ensures
        hex_char_value(hex_upper(n)) == Some(n),
{
}

/// Decoding inverts encoding, byte string by byte string.
pub proof fn lemma_query_decode_encode(bs: Seq<u8>)
    ensures
        query_decoded(query_encoded(bs)) == Some(bs),
    decreases bs.len(),
{
    if bs.len() == 0 {
        assert(query_decoded(query_encoded(bs)) == Some(bs));
    } else {
        let b = bs[0];
        let head = query_encode_byte(b);
        let tail = query_encoded(bs.drop_first());
        let cs = query_encoded(bs);
        assert(cs == head + tail);
        lemma_query_decode_encode(bs.drop_first());
        if b == 0x20 {
            assert(cs[0] == '+');
            assert(cs.drop_first() =~= tail);
            assert(seq![0x20u8] + bs.drop_first() =~= bs);
        } else if is_unreserved(b) {
            let c = b as char;
            assert(cs[0] == c);
            assert(c as u32 == b as u32);
            assert(c != '+' && c != '%');
            assert(cs.drop_first() =~= tail);
            assert(seq![c as u8] + bs.drop_first() =~= bs);
        } else {
            assert(cs[0] == '%');
            assert(cs.len() >= 3);
            assert(cs[1] == hex_upper(b / 16));
            assert(cs[2] == hex_upper(b % 16));
            lemma_hex_round(b / 16);
            lemma_hex_round(b % 16);
            assert(cs.skip(3) =~= tail);
            assert((b / 16) * 16 + (b % 16) == b) by {
                assert(b == 16 * (b / 16) + b % 16) by (nonlinear_arith);
            }
            assert(seq![((b / 16) * 16 + (b % 16)) as u8] + bs.drop_first() =~= bs);
        }
    }
}

/// The encoded form of one `key=value` pair.
pub open spec fn pair_chars(k: Seq<u8>, v: Seq<u8>) -> Seq<char> {
    query_encoded(k) + seq!['='] + query_encoded(v)
}

/// The encoded query string of a list of key/value pairs, joined with `&`.
pub open spec fn query_string(pairs: Seq<(Seq<u8>, Seq<u8>)>) -> Seq<char>
    decreases pairs.len(),
{
    if pairs.len() == 0 {
        Seq::empty()
    } else if pairs.len() == 1 {
        pair_chars(pairs[0].0, pairs[0].1)
    } else {
        pair_chars(pairs[0].0, pairs[0].1) + seq!['&'] + query_string(pairs.drop_first())
    }
}

/// The groups of characters between occurrences of `sep`; always at least one
/// group, and empty groups are kept.
pub open spec fn split_sep(cs: Seq<char>, sep: char) -> Seq<Seq<char>>
    decreases cs.len(),
{
    if cs.len() == 0 {
        seq![Seq::empty()]
    } else if cs[0] == sep {
        seq![Seq::<char>::empty()] + split_sep(cs.drop_first(), sep)
    } else {
        let r = split_sep(cs.drop_first(), sep);
        seq![seq![cs[0]] + r[0]] + r.drop_first()
    }
}

/// The key/value pair an encoded `key=value` group stands for, or `None`
/// where the group is not well formed.
pub open spec fn parse_pair(ps: Seq<char>) -> Option<(Seq<u8>, Seq<u8>)> {
    let groups = split_sep(ps, '=');
    if groups.len() == 2 {
        match (query_decoded(groups[0]), query_decoded(groups[1])) {
            (Some(k), Some(v)) => Some((k, v)),
            _ => None,
        }
    } else {
        None
    }
}

/// The key/value pairs a list of encoded groups stands for.
pub open spec fn parse_pairs(groups: Seq<Seq<char>>) -> Option<Seq<(Seq<u8>, Seq<u8>)>>
    decreases groups.len(),
{
    if groups.len() == 0 {
        Some(Seq::empty())
    } else {
        match (parse_pair(groups[0]), parse_pairs(groups.drop_first())) {
            (Some(p), Some(rest)) => Some(seq![p] + rest),
            _ => None,
        }
    }
}

/// The key/value pairs an encoded query string stands for, or `None` where it
/// is not well formed.
pub open spec fn parse_query(cs: Seq<char>) -> Option<Seq<(Seq<u8>, Seq<u8>)>> {
    if cs.len() == 0 {
        Some(Seq::empty())
    } else {
        parse_pairs(split_sep(cs, '&'))
    }
}

pub proof fn lemma_split_no_sep(a: Seq<char>, sep: char)
    requires
        !has_char(a, sep),
    ensures
        split_sep(a, sep) == seq![a],
    decreases a.len(),
{
    if a.len() == 0 {
        assert(split_sep(a, sep) =~~= seq![a]);
    } else {
        assert(a[0] != sep);
        assert(!has_char(a.drop_first(), sep)) by {
            assert forall|i: int| 0 <= i < a.drop_first().len() implies a.drop_first()[i] != sep by {
                assert(a.drop_first()[i] == a[i + 1]);
            }
        }
        lemma_split_no_sep(a.drop_first(), sep);
        assert(split_sep(a, sep) =~~= seq![a]);
    }
}

pub proof fn lemma_split_concat(a: Seq<char>, b: Seq<char>, sep: char)
    requires
        !has_char(a, sep),
    ensures
        split_sep(a + seq![sep] + b, sep) == seq![a] + split_sep(b, sep),
    decreases a.len(),
{
    let cs = a + seq![sep] + b;
    if a.len() == 0 {
        assert(cs[0] == sep);
        assert(cs.drop_first() =~= b);
        assert(split_sep(cs, sep) =~~= seq![a] + split_sep(b, sep));
    } else {
        assert(cs[0] == a[0]);
        assert(a[0] != sep);
        assert(!has_char(a.drop_first(), sep)) by {
            assert forall|i: int| 0 <= i < a.drop_first().len() implies a.drop_first()[i] != sep by {
                assert(a.drop_first()[i] == a[i + 1]);
            }
        }
        assert(cs.drop_first() =~= a.drop_first() + seq![sep] + b);
        lemma_split_concat(a.drop_first(), b, sep);
        let r = split_sep(cs.drop_first(), sep);
        assert(r == seq![a.drop_first()] + split_sep(b, sep));
        assert(r[0] == a.drop_first());
        assert(seq![a[0]] + r[0] =~= a);
        assert(r.drop_first() =~= split_sep(b, sep));
        assert(split_sep(cs, sep) =~~= seq![a] + split_sep(b, sep));
    }
}

proof fn lemma_encoded_no_char(bs: Seq<u8>, c: char)
    requires
        c == '&' || c == '=' || c == '?' || c == '#',
    ensures
        !has_char(query_encoded(bs), c),
{
    lemma_query_encoded_safe(bs);
}

proof fn lemma_pair_chars_no_amp(k: Seq<u8>, v: Seq<u8>)
    ensures
        !has_char(pair_chars(k, v), '&'),
{
    lemma_query_encoded_safe(k);
    lemma_query_encoded_safe(v);
    let pc = pair_chars(k, v);
    assert forall|i: int| 0 <= i < pc.len() implies pc[i] != '&' by {
        let ek = query_encoded(k);
        let ev = query_encoded(v);
        if i < ek.len() {
            assert(pc[i] == ek[i]);
        } else if i == ek.len() {
            assert(pc[i] == '=');
        } else {
            assert(pc[i] == ev[i - ek.len() - 1]);
        }
    }
}

proof fn lemma_parse_pair_round(k: Seq<u8>, v: Seq<u8>)
    ensures
        parse_pair(pair_chars(k, v)) == Some((k, v)),
{
    let ek = query_encoded(k);
    let ev = query_encoded(v);
    lemma_encoded_no_char(k, '=');
    lemma_encoded_no_char(v, '=');
    assert(pair_chars(k, v) =~= ek + seq!['='] + ev);
    lemma_split_concat(ek, ev, '=');
    lemma_split_no_sep(ev, '=');
    let groups = split_sep(pair_chars(k, v), '=');
    assert(groups =~~= seq![ek, ev]);
    lemma_query_decode_encode(k);
    lemma_query_decode_encode(v);
}

/// The round-trip law: decoding the query string constructed from any list of
/// key/value pairs gives back exactly those pairs.
#[verifier::rlimit(60)]
pub proof fn lemma_query_round_trip(pairs: Seq<(Seq<u8>, Seq<u8>)>)
    ensures
        parse_query(query_string(pairs)) == Some(pairs),
    decreases pairs.len(),
{
    if pairs.len() == 0 {
        assert(parse_query(query_string(pairs)) =~~= Some(pairs));
    } else if pairs.len() == 1 {
        let p = pairs[0];
        let pc = pair_chars(p.0, p.1);
        assert(pc.len() > 0) by {
            assert(pc[query_encoded(p.0).len() as int] == '=');
        }
        lemma_pair_chars_no_amp(p.0, p.1);
        lemma_split_no_sep(pc, '&');
        lemma_parse_pair_round(p.0, p.1);
        assert(split_sep(pc, '&') == seq![pc]);
        assert(seq![pc].drop_first() =~= Seq::<Seq<char>>::empty());
        assert(parse_pairs(Seq::<Seq<char>>::empty()) == Some(Seq::<(Seq<u8>, Seq<u8>)>::empty()));
        assert(parse_pairs(seq![pc]) == Some(
            seq![(p.0, p.1)] + Seq::<(Seq<u8>, Seq<u8>)>::empty(),
        ));
        assert(seq![(p.0, p.1)] + Seq::<(Seq<u8>, Seq<u8>)>::empty() =~= pairs);
    } else {
        let p = pairs[0];
        let rest = pairs.drop_first();
        let pc = pair_chars(p.0, p.1);
        let qs_rest = query_string(rest);
        assert(query_string(pairs) == pc + seq!['&'] + qs_rest);
        lemma_pair_chars_no_amp(p.0, p.1);
        lemma_split_concat(pc, qs_rest, '&');
        lemma_query_round_trip(rest);
        assert(qs_rest.len() > 0) by {
            let pr = rest[0];
            let pcr = pair_chars(pr.0, pr.1);
            assert(pcr[query_encoded(pr.0).len() as int] == '=');
            if rest.len() == 1 {
                assert(qs_rest == pcr);
            } else {
                assert(qs_rest == pcr + seq!['&'] + query_string(rest.drop_first()));
            }
        }
        assert(parse_pairs(split_sep(qs_rest, '&')) == Some(rest));
        let groups = split_sep(query_string(pairs), '&');
        assert(groups == seq![pc] + split_sep(qs_rest, '&'));
        assert(groups[0] == pc);
        assert(groups.drop_first() =~= split_sep(qs_rest, '&'));
        lemma_parse_pair_round(p.0, p.1);
        assert(parse_pairs(groups) == Some(seq![(p.0, p.1)] + rest));
        assert(seq![(p.0, p.1)] + rest =~= pairs);
    }
}

/// The groups of characters between occurrences of `sep`, as strings.
fn split_str(s: &str, sep: char) -> (r: Vec<String>)
    ensures
        r.deep_view() == split_sep(s@, sep),
    decreases s@.len(),
{
    let n = s.unicode_len();
    let mut j: usize = 0;
    while j < n && s.get_char(j) != sep
        invariant
            j <= n,
            n == s@.len(),
            forall|k: int| 0 <= k < j ==> s@[k] != sep,
        decreases n - j,
    {
        j += 1;
    }
    if j == n {
        proof {
            assert(!has_char(s@, sep));
            lemma_split_no_sep(s@, sep);
        }
        let r = vec![s.to_owned()];
        proof {
            assert(r.deep_view() =~= seq![s@]);
        }
        r
    } else {
        let head = s.substring_char(0, j);
        let rest = s.substring_char(j + 1, n);
        proof {
            assert(head@ =~= s@.take(j as int));
            assert(rest@ =~= s@.skip(j + 1));
            assert(rest@.len() < s@.len());
        }
        let mut r = split_str(rest, sep);
        let ghost pre = r@;
        let ghost tail_groups = r.deep_view();
        r.insert(0, head.to_owned());
        proof {
            assert(s@ =~= s@.take(j as int) + seq![sep] + s@.skip(j + 1));
            assert(!has_char(s@.take(j as int), sep)) by {
                assert forall|k: int| 0 <= k < s@.take(j as int).len() implies s@.take(
                    j as int,
                )[k] != sep by {
                    assert(s@.take(j as int)[k] == s@[k]);
                }
            }
            lemma_split_concat(s@.take(j as int), s@.skip(j + 1), sep);
            assert(r@ =~= seq![r@[0]] + pre);
            assert forall|k: int| 0 <= k < r@.len() implies r.deep_view()[k] == (seq![head@]
                + tail_groups)[k] by {
                assert(r.deep_view()[k] == r@[k]@);
                if k > 0 {
                    assert(r@[k] == pre[k - 1]);
                    assert(tail_groups[k - 1] == pre[k - 1]@);
                }
            }
            assert(r.deep_view() =~= seq![head@] + tail_groups);
            assert(r.deep_view() =~= split_sep(s@, sep));
        }
        r
    }
}

fn hex_value(c: char) -> (r: Option<u8>)
    ensures
        r == hex_char_value(c),
{
    if '0' <= c && c <= '9' {
        Some((c as u32 - 48) as u8)
    } else if 'A' <= c && c <= 'F' {
        Some((c as u32 - 65 + 10) as u8)
    } else if 'a' <= c && c <= 'f' {
        Some((c as u32 - 97 + 10) as u8)
    } else {
        None
    }
}

/// Decode one percent-encoded query component into its bytes.
fn decode_component(s: &str) -> (r: Option<Vec<u8>>)
    ensures
        match r {
            Some(v) => query_decoded(s@) == Some(v@),
            None => query_decoded(s@) is None,
        },
{
    let n = s.unicode_len();
    let mut out: Vec<u8> = Vec::new();
    let mut i: usize = 0;
    proof {
        assert(s@.skip(0) =~= s@);
        assert(match query_decoded(s@) {
            Some(t) => Seq::<u8>::empty() + t =~= t,
            None => true,
        });
    }
    while i < n
        invariant
            i <= n,
            n == s@.len(),
            query_decoded(s@) == (match query_decoded(s@.skip(i as int)) {
                Some(t) => Some(out@ + t),
                None => None::<Seq<u8>>,
            }),
        decreases n - i,
    {
        let ghost pre = out@;
        let c = s.get_char(i);
        proof {
            assert(s@.skip(i as int)[0] == s@[i as int]);
            assert(s@.skip(i as int).drop_first() =~= s@.skip(i + 1));
        }
        if c == '+' {
            out.push(0x20);
            proof {
                assert(match query_decoded(s@.skip(i + 1)) {
                    Some(t) => out@ + t =~= pre + (seq![0x20u8] + t),
                    None => true,
                });
            }
            i += 1;
        } else if c == '%' {
            if n - i < 3 {
                proof {
                    assert(s@.skip(i as int).len() < 3);
                }
                return None;
            }
            let hi = hex_value(s.get_char(i + 1));
            let lo = hex_value(s.get_char(i + 2));
            proof {
                assert(s@.skip(i as int)[1] == s@[i + 1]);
                assert(s@.skip(i as int)[2] == s@[i + 2]);
            }
            match (hi, lo) {
                (Some(h), Some(l)) => {
                    out.push(h * 16 + l);
                    proof {
                        assert(s@.skip(i as int).skip(3) =~= s@.skip(i + 3));
                        assert(match query_decoded(s@.skip(i + 3)) {
                            Some(t) => out@ + t =~= pre + (seq![(h * 16 + l) as u8] + t),
                            None => true,
                        });
                    }
                    i += 3;
                },
                _ => {
                    return None;
                },
            }
        } else {
            let code = c as u32;
            if code < 0x80 && unreserved(code as u8) {
                out.push(code as u8);
                proof {
                    assert(c as u32 == c as u8 as u32);
                    assert(match query_decoded(s@.skip(i + 1)) {
                        Some(t) => out@ + t =~= pre + (seq![c as u8] + t),
                        None => true,
                    });
                }
                i += 1;
            } else {
                proof {
                    if (c as u32) < 0x100 {
                        assert(c as u8 as u32 == c as u32);
                        assert(!is_unreserved(c as u8));
                    } else {
                        assert((c as u8 as u32) < 0x100);
                    }
                }
                return None;
            }
        }
    }
    proof {
        assert(s@.skip(n as int) =~= Seq::<char>::empty());
        assert(query_decoded(Seq::<char>::empty()) == Some(Seq::<u8>::empty()));
        assert(out@ + Seq::<u8>::empty() =~= out@);
    }
    Some(out)
}

/// Decode one `key=value` group.
fn decode_pair_str(s: &str) -> (r: Option<(Vec<u8>, Vec<u8>)>)
    ensures
        match r {
            Some(p) => parse_pair(s@) == Some((p.0@, p.1@)),
            None => parse_pair(s@) is None,
        },
{
    let groups = split_str(s, '=');
    proof {
        assert(groups@.len() == split_sep(s@, '=').len());
    }
    if groups.len() != 2 {
        return None;
    }
    proof {
        assert(groups@[0]@ == split_sep(s@, '=')[0]);
        assert(groups@[1]@ == split_sep(s@, '=')[1]);
    }
    let k = match decode_component(groups[0].as_str()) {
        Some(k) => k,
        None => {
            return None;
        },
    };
    let v = match decode_component(groups[1].as_str()) {
        Some(v) => v,
        None => {
            return None;
        },
    };
    Some((k, v))
}

/// Parse a whole query string back into its key/value byte pairs, or `None`
/// where it is not well formed; the executable counterpart of
/// [`parse_query`].
pub fn parse_query_str(s: &str) -> (r: Option<Vec<(Vec<u8>, Vec<u8>)>>)
    ensures
        match r {
            Some(v) => parse_query(s@) == Some(v.deep_view()),
            None => parse_query(s@) is None,
        },
{
    if s.is_empty() {
        let r: Vec<(Vec<u8>, Vec<u8>)> = Vec::new();
        proof {
            assert(r.deep_view() =~= Seq::<(Seq<u8>, Seq<u8>)>::empty());
        }
        return Some(r);
    }
    let groups = split_str(s, '&');
    let ghost gv = split_sep(s@, '&');
    let mut out: Vec<(Vec<u8>, Vec<u8>)> = Vec::new();
    let n = groups.len();
    let mut i: usize = 0;
    proof {
        assert(gv.skip(0) =~= gv);
        assert(out.deep_view() =~= Seq::<(Seq<u8>, Seq<u8>)>::empty());
        assert(match parse_pairs(gv) {
            Some(t) => Seq::<(Seq<u8>, Seq<u8>)>::empty() + t =~= t,
            None => true,
        });
    }
    while i < n
        invariant
            i <= n,
            n == groups@.len(),
            s@.len() > 0,
            gv == split_sep(s@, '&'),
            groups.deep_view() == gv,
            parse_pairs(gv) == (match parse_pairs(gv.skip(i as int)) {
                Some(t) => Some(out.deep_view() + t),
                None => None::<Seq<(Seq<u8>, Seq<u8>)>>,
            }),
        decreases n - i,
    {
        let ghost pre_deep = out.deep_view();
        proof {
            assert(gv.skip(i as int)[0] == gv[i as int]);
            assert(gv[i as int] == groups@[i as int]@);
            assert(gv.skip(i as int).drop_first() =~= gv.skip(i + 1));
        }
        match decode_pair_str(groups[i].as_str()) {
            None => {
                proof {
                    assert(gv.skip(i as int).len() > 0);
                    assert(parse_pairs(gv.skip(i as int)) is None);
                    assert(parse_pairs(gv) is None);
                    assert(parse_query(s@) == parse_pairs(gv));
                }
                return None;
            },
            Some(p) => {
                let ghost pv = (p.0@, p.1@);
                out.push(p);
                proof {
                    assert forall|k: int| 0 <= k < out@.len() implies out.deep_view()[k]
                        == pre_deep.push(pv)[k] by {
                        assert(out.deep_view()[k] == out@[k].deep_view());
                        if k < pre_deep.len() {
                            assert(out@[k].deep_view() == pre_deep[k]);
                        } else {
                            let last = out@[k];
                            assert(last.deep_view() == (last.0.deep_view(), last.1.deep_view()));
                            assert(last.0.deep_view() =~= pv.0);
                            assert(last.1.deep_view() =~= pv.1);
                        }
                    }
                    assert(out.deep_view() =~= pre_deep.push(pv));
                    assert(match parse_pairs(gv.skip(i + 1)) {
                        Some(t) => out.deep_view() + t =~= pre_deep + (seq![pv] + t),
                        None => true,
                    });
                }
            },
        }
        i += 1;
    }
    proof {
        assert(gv.skip(n as int) =~= Seq::<Seq<char>>::empty());
        assert(parse_pairs(Seq::<Seq<char>>::empty()) == Some(Seq::<(Seq<u8>, Seq<u8>)>::empty()));
        assert(out.deep_view() + Seq::<(Seq<u8>, Seq<u8>)>::empty() =~= out.deep_view());
        assert(s@.len() > 0);
        assert(parse_query(s@) == parse_pairs(gv));
    }
    Some(out)
}

fn unreserved(b: u8) -> (r: bool)
    ensures
        r == is_unreserved(b),
{
    (0x41 <= b && b <= 0x5A) || (0x61 <= b && b <= 0x7A) || (0x30 <= b && b <= 0x39) || b == 0x2D
        || b == 0x2E || b == 0x5F || b == 0x7E
}

fn hex_digit(n: u8) -> (c: char)
    requires
        n < 16,
    ensures
        c == hex_upper(n),
{
    if n < 10 {
        (0x30u8 + n) as char
    } else {
        (0x41u8 + (n - 10)) as char
    }
}

proof fn lemma_encoded_take_step(bs: Seq<u8>, i: int)
    requires
        0 <= i < bs.len(),
    ensures
        query_encoded(bs.take(i + 1)) == query_encoded(bs.take(i)) + query_encode_byte(bs[i]),
        path_encoded(bs.take(i + 1)) == path_encoded(bs.take(i)) + path_encode_byte(bs[i]),
{
    let s = seq![bs[i]];
    lemma_query_encoded_concat(bs.take(i), s);
    lemma_path_encoded_concat(bs.take(i), s);
    assert(bs.take(i) + s =~= bs.take(i + 1));
    assert(s.drop_first() =~= Seq::<u8>::empty());
    assert(s[0] == bs[i]);
    assert(query_encoded(s.drop_first()) == Seq::<char>::empty());
    assert(query_encoded(s) == query_encode_byte(bs[i]) + Seq::<char>::empty());
    assert(query_encode_byte(bs[i]) + Seq::<char>::empty() =~= query_encode_byte(bs[i]));
    assert(path_encoded(s.drop_first()) == Seq::<char>::empty());
    assert(path_encoded(s) == path_encode_byte(bs[i]) + Seq::<char>::empty());
    assert(path_encode_byte(bs[i]) + Seq::<char>::empty() =~= path_encode_byte(bs[i]));
}

/// Append the query encoding of `bytes` to `out`.
pub fn push_query_encoded(out: &mut String, bytes: &[u8])
    ensures
        final(out)@ == old(out)@ + query_encoded(bytes@),
{
    let n = bytes.len();
    let mut i: usize = 0;
    while i < n
        invariant
            i <= n,
            n == bytes@.len(),
            out@ == old(out)@ + query_encoded(bytes@.take(i as int)),
        decreases n - i,
    {
        let b = *vstd::slice::slice_index_get(bytes, i);
        if b == 0x20 {
            crate::strutil::push_char(out, '+');
        } else if unreserved(b) {
            crate::strutil::push_char(out, b as char);
        } else {
            crate::strutil::push_char(out, '%');
            crate::strutil::push_char(out, hex_digit(b / 16));
            crate::strutil::push_char(out, hex_digit(b % 16));
        }
        proof {
            lemma_encoded_take_step(bytes@, i as int);
            assert(out@ =~= old(out)@ + query_encoded(bytes@.take(i + 1)));
        }
        i += 1;
    }
    proof {
        assert(bytes@.take(n as int) =~= bytes@);
    }
}

/// Append the path-segment encoding of `bytes` to `out`.
pub fn push_path_encoded(out: &mut String, bytes: &[u8])
    ensures
        final(out)@ == old(out)@ + path_encoded(bytes@),
{
    let n = bytes.len();
    let mut i: usize = 0;
    while i < n
        invariant
            i <= n,
            n == bytes@.len(),
            out@ == old(out)@ + path_encoded(bytes@.take(i as int)),
        decreases n - i,
    {
        let b = *vstd::slice::slice_index_get(bytes, i);
        if unreserved(b) {
            crate::strutil::push_char(out, b as char);
        } else {
            crate::strutil::push_char(out, '%');
            crate::strutil::push_char(out, hex_digit(b / 16));
            crate::strutil::push_char(out, hex_digit(b % 16));
        }
        proof {
            lemma_encoded_take_step(bytes@, i as int);
            assert(out@ =~= old(out)@ + path_encoded(bytes@.take(i + 1)));
        }
        i += 1;
    }
    proof {
        assert(bytes@.take(n as int) =~= bytes@);
    }
}

} // verus!
