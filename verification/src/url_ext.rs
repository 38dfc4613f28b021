//! URL construction: a base address, joined path segments, and encoded query
//! parameters.
//!
//! A [`Url`] keeps its parts separate; [`Url::render`] produces the textual
//! URL, percent-encoding each path segment and each query key and value.

use vstd::prelude::*;

use crate::percent::{
    pair_chars, path_encoded, push_path_encoded, push_query_encoded, query_string,
};
use crate::strutil::push_char;
use vstd::utf8::encode_utf8;

verus! {

/// A URL under construction: the base address, the path segments appended to
/// it, and the query parameters.
#[derive(Debug)]
pub struct Url {
    pub base: String,
    pub segments: Vec<String>,
    pub query: Vec<(String, String)>,
}

/// The rendered path: each segment percent-encoded and preceded by `/`.
pub open spec fn path_part(segs: Seq<Seq<char>>) -> Seq<char>
    decreases segs.len(),
{
    if segs.len() == 0 {
        Seq::empty()
    } else {
        seq!['/'] + path_encoded(encode_utf8(segs[0])) + path_part(segs.drop_first())
    }
}

/// The rendered query: empty without parameters, else `?` followed by the
/// encoded pairs.
pub open spec fn query_part(pairs: Seq<(Seq<u8>, Seq<u8>)>) -> Seq<char> {
    if pairs.len() == 0 {
        Seq::empty()
    } else {
        seq!['?'] + query_string(pairs)
    }
}

impl Url {
    /// The path segments, as character sequences.
    pub open spec fn path_view(self) -> Seq<Seq<char>> {
        self.segments.deep_view()
    }

    /// The query pairs, as character sequences.
    pub open spec fn query_view(self) -> Seq<(Seq<char>, Seq<char>)> {
        self.query.deep_view()
    }

    /// The query pairs, as the UTF-8 bytes the encoder works on.
    pub open spec fn query_byte_pairs(self) -> Seq<(Seq<u8>, Seq<u8>)> {
        self.query_view().map_values(
            |p: (Seq<char>, Seq<char>)| (encode_utf8(p.0), encode_utf8(p.1)),
        )
    }

    /// The characters of the rendered URL.
    pub open spec fn rendered(self) -> Seq<char> {
        self.base@ + path_part(self.path_view()) + query_part(self.query_byte_pairs())
    }

    /// A URL that is just the base address.
    pub fn new(base: String) -> (r: Url)
        ensures
            r.base@ == base@,
            r.path_view() == Seq::<Seq<char>>::empty(),
            r.query_view() == Seq::<(Seq<char>, Seq<char>)>::empty(),
    {
        let r = Url { base, segments: Vec::new(), query: Vec::new() };
        proof {
            assert(r.path_view() =~= Seq::<Seq<char>>::empty());
            assert(r.query_view() =~= Seq::<(Seq<char>, Seq<char>)>::empty());
        }
        r
    }

    /// Append all the given path segments.
    pub fn join_all(self, segments: Vec<String>) -> (r: Url)
        requires
            segments@.len() >= 1,
        ensures
            r.base@ == self.base@,
            r.path_view() == self.path_view() + segments.deep_view(),
            r.query_view() == self.query_view(),
    {
        let ghost old_self = self;
        let ghost given = segments;
        let mut u = self;
        let mut segs = segments;
        u.segments.append(&mut segs);
        proof {
            assert(u.path_view() =~= old_self.path_view() + given.deep_view());
        }
        u
    }

    /// Append one query parameter.
    pub fn with_query(self, name: &str, value: &str) -> (r: Url)
        ensures
            r.base@ == self.base@,
            r.path_view() == self.path_view(),
            r.query_view() == self.query_view().push((name@, value@)),
    {
        let ghost old_self = self;
        let mut u = self;
        u.query.push((name.to_owned(), value.to_owned()));
        proof {
            assert(u.query_view() =~= old_self.query_view().push((name@, value@)));
        }
        u
    }
}

proof fn lemma_path_part_snoc(segs: Seq<Seq<char>>, s: Seq<char>)
    ensures
        path_part(segs.push(s)) == path_part(segs) + seq!['/'] + path_encoded(encode_utf8(s)),
    decreases segs.len(),
{
    if segs.len() == 0 {
        assert(segs.push(s).drop_first() =~= segs);
        assert(segs.push(s)[0] == s);
        assert(path_part(segs.push(s)) =~= path_part(segs) + seq!['/'] + path_encoded(
            encode_utf8(s),
        ));
    } else {
        assert(segs.push(s).drop_first() =~= segs.drop_first().push(s));
        lemma_path_part_snoc(segs.drop_first(), s);
        assert(path_part(segs.push(s)) =~= path_part(segs) + seq!['/'] + path_encoded(
            encode_utf8(s),
        ));
    }
}

proof fn lemma_query_string_snoc(ps: Seq<(Seq<u8>, Seq<u8>)>, p: (Seq<u8>, Seq<u8>))
    ensures
        ps.len() == 0 ==> query_string(ps.push(p)) == pair_chars(p.0, p.1),
        ps.len() > 0 ==> query_string(ps.push(p)) == query_string(ps) + seq!['&'] + pair_chars(
            p.0,
            p.1,
        ),
    decreases ps.len(),
{
    if ps.len() == 0 {
        assert(ps.push(p)[0] == p);
    } else {
        assert(ps.push(p).drop_first() =~= ps.drop_first().push(p));
        lemma_query_string_snoc(ps.drop_first(), p);
        if ps.len() == 1 {
            assert(query_string(ps.push(p)) =~= query_string(ps) + seq!['&'] + pair_chars(
                p.0,
                p.1,
            ));
        } else {
            assert(query_string(ps.push(p)) =~= query_string(ps) + seq!['&'] + pair_chars(
                p.0,
                p.1,
            ));
        }
    }
}

impl Url {
    /// Render the URL as text.
    pub fn render(&self) -> (r: String)
        ensures
            r@ == self.rendered(),
    {
        let mut out = self.base.clone();
        let n = self.segments.len();
        let mut i: usize = 0;
        while i < n
            invariant
                i <= n,
                n == self.segments.len(),
                out@ == self.base@ + path_part(self.path_view().take(i as int)),
            decreases n - i,
        {
            push_char(&mut out, '/');
            push_path_encoded(&mut out, self.segments[i].as_str().as_bytes());
            proof {
                let pv = self.path_view();
                assert(pv[i as int] == self.segments@[i as int]@);
                lemma_path_part_snoc(pv.take(i as int), pv[i as int]);
                assert(pv.take(i as int).push(pv[i as int]) =~= pv.take(i + 1));
                assert(out@ =~= self.base@ + path_part(pv.take(i + 1)));
            }
            i += 1;
        }
        proof {
            assert(self.path_view().take(n as int) =~= self.path_view());
        }
        let m = self.query.len();
        if m == 0 {
            proof {
                assert(self.query_byte_pairs().len() == 0);
                assert(out@ =~= self.rendered());
            }
            return out;
        }
        push_char(&mut out, '?');
        let ghost prefix = self.base@ + path_part(self.path_view()) + seq!['?'];
        let mut j: usize = 0;
        while j < m
            invariant
                j <= m,
                m == self.query.len(),
                m > 0,
                prefix == self.base@ + path_part(self.path_view()) + seq!['?'],
                out@ == prefix + query_string(self.query_byte_pairs().take(j as int)),
            decreases m - j,
        {
            if j > 0 {
                push_char(&mut out, '&');
            }
            push_query_encoded(&mut out, self.query[j].0.as_str().as_bytes());
            push_char(&mut out, '=');
            push_query_encoded(&mut out, self.query[j].1.as_str().as_bytes());
            proof {
                let qbp = self.query_byte_pairs();
                assert(self.query_view()[j as int] == self.query@[j as int].deep_view());
                assert(qbp[j as int] == (
                    encode_utf8(self.query@[j as int].0@),
                    encode_utf8(self.query@[j as int].1@),
                ));
                lemma_query_string_snoc(qbp.take(j as int), qbp[j as int]);
                assert(qbp.take(j as int).push(qbp[j as int]) =~= qbp.take(j + 1));
                assert(out@ =~= prefix + query_string(qbp.take(j + 1)));
            }
            j += 1;
        }
        proof {
            assert(self.query_byte_pairs().take(m as int) =~= self.query_byte_pairs());
            assert(out@ =~= self.rendered());
        }
        out
    }
}

proof fn lemma_path_part_no_qmark(segs: Seq<Seq<char>>)
    ensures
        forall|i: int| 0 <= i < path_part(segs).len() ==> {
            let c = #[trigger] path_part(segs)[i];
            c != '?' && c != '#'
        },
    decreases segs.len(),
{
    if segs.len() > 0 {
        lemma_path_part_no_qmark(segs.drop_first());
        crate::percent::lemma_path_encoded_safe(encode_utf8(segs[0]));
        let enc = path_encoded(encode_utf8(segs[0]));
        let rest = path_part(segs.drop_first());
        assert(path_part(segs) == seq!['/'] + enc + rest);
        assert forall|i: int| 0 <= i < path_part(segs).len() implies {
            let c = #[trigger] path_part(segs)[i];
            c != '?' && c != '#'
        } by {
            if i == 0 {
                assert(path_part(segs)[i] == '/');
            } else if i < 1 + enc.len() {
                assert(path_part(segs)[i] == enc[i - 1]);
            } else {
                assert(path_part(segs)[i] == rest[i - 1 - enc.len()]);
            }
        }
    }
}

proof fn lemma_query_string_no_qmark(pairs: Seq<(Seq<u8>, Seq<u8>)>)
    ensures
        forall|i: int| 0 <= i < query_string(pairs).len() ==> #[trigger] query_string(pairs)[i]
            != '?',
    decreases pairs.len(),
{
    if pairs.len() > 0 {
        let pc = pair_chars(pairs[0].0, pairs[0].1);
        let ek = crate::percent::query_encoded(pairs[0].0);
        let ev = crate::percent::query_encoded(pairs[0].1);
        crate::percent::lemma_query_encoded_safe(pairs[0].0);
        crate::percent::lemma_query_encoded_safe(pairs[0].1);
        assert forall|i: int| 0 <= i < pc.len() implies pc[i] != '?' by {
            if i < ek.len() {
                assert(pc[i] == ek[i]);
            } else if i == ek.len() {
                assert(pc[i] == '=');
            } else {
                assert(pc[i] == ev[i - ek.len() - 1]);
            }
        }
        if pairs.len() > 1 {
            lemma_query_string_no_qmark(pairs.drop_first());
            let rest = query_string(pairs.drop_first());
            assert(query_string(pairs) == pc + seq!['&'] + rest);
            assert forall|i: int| 0 <= i < query_string(pairs).len() implies query_string(
                pairs,
            )[i] != '?' by {
                if i < pc.len() {
                    assert(query_string(pairs)[i] == pc[i]);
                } else if i == pc.len() {
                    assert(query_string(pairs)[i] == '&');
                } else {
                    assert(query_string(pairs)[i] == rest[i - pc.len() - 1]);
                }
            }
        }
    }
}

/// The whole-URL law: in a rendered URL whose base address holds no `?`,
/// everything before the one `?` is the base and the encoded path, everything
/// after it is the query string, and decoding the query string gives back
/// exactly the key/value pairs the URL was built with.
pub proof fn lemma_rendered_round_trip(u: Url)
    requires
        !crate::percent::has_char(u.base@, '?'),
    ensures
        u.query_view().len() == 0 ==> crate::percent::split_sep(u.rendered(), '?') == seq![
            u.rendered(),
        ],
        u.query_view().len() > 0 ==> crate::percent::split_sep(u.rendered(), '?') == seq![
            u.base@ + path_part(u.path_view()),
            query_string(u.query_byte_pairs()),
        ],
        crate::percent::parse_query(query_string(u.query_byte_pairs())) == Some(
            u.query_byte_pairs(),
        ),
{
    let head = u.base@ + path_part(u.path_view());
    lemma_path_part_no_qmark(u.path_view());
    assert(!crate::percent::has_char(head, '?')) by {
        let pp = path_part(u.path_view());
        assert forall|i: int| 0 <= i < head.len() implies head[i] != '?' by {
            if i < u.base@.len() {
                assert(head[i] == u.base@[i]);
            } else {
                assert(head[i] == pp[i - u.base@.len()]);
            }
        }
    }
    assert(u.query_byte_pairs().len() == u.query_view().len());
    if u.query_view().len() == 0 {
        assert(u.rendered() =~= head);
        crate::percent::lemma_split_no_sep(head, '?');
        assert(crate::percent::parse_query(query_string(u.query_byte_pairs())) == Some(
            u.query_byte_pairs(),
        )) by {
            crate::percent::lemma_query_round_trip(u.query_byte_pairs());
        }
    } else {
        let qs = query_string(u.query_byte_pairs());
        assert(u.rendered() =~= head + seq!['?'] + qs);
        crate::percent::lemma_split_concat(head, qs, '?');
        lemma_query_string_no_qmark(u.query_byte_pairs());
        assert(!crate::percent::has_char(qs, '?'));
        crate::percent::lemma_split_no_sep(qs, '?');
        assert(crate::percent::split_sep(u.rendered(), '?') =~~= seq![head, qs]);
        crate::percent::lemma_query_round_trip(u.query_byte_pairs());
    }
}

} // verus!
