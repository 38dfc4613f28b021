//! Requests for the search endpoint.

use vstd::prelude::*;

use crate::api_calls::{is_request, Api, Method, Request};
use crate::json::json_list_of_lists;
use crate::strutil::{dec_chars, usize_string};
use crate::structures::search::{Facet, Sort};

verus! {

/// The rendered text of one facet group.
pub open spec fn group_rendered(g: Vec<Facet>) -> Seq<Seq<char>> {
    g@.map_values(|f: Facet| f.query_value())
}

/// The rendered non-empty facet groups, in order; empty groups are dropped.
pub open spec fn rendered_facet_groups(groups: Seq<Vec<Facet>>) -> Seq<Seq<Seq<char>>>
    decreases groups.len(),
{
    if groups.len() == 0 {
        Seq::empty()
    } else {
        let rest = rendered_facet_groups(groups.drop_first());
        if groups[0]@.len() > 0 {
            seq![group_rendered(groups[0])] + rest
        } else {
            rest
        }
    }
}

proof fn lemma_rendered_groups_snoc(groups: Seq<Vec<Facet>>, g: Vec<Facet>)
    ensures
        g@.len() > 0 ==> rendered_facet_groups(groups.push(g)) == rendered_facet_groups(
            groups,
        ).push(group_rendered(g)),
        g@.len() == 0 ==> rendered_facet_groups(groups.push(g)) == rendered_facet_groups(groups),
    decreases groups.len(),
{
    if groups.len() == 0 {
        assert(groups.push(g)[0] == g);
        assert(groups.push(g).drop_first() =~= Seq::<Vec<Facet>>::empty());
        assert(rendered_facet_groups(Seq::<Vec<Facet>>::empty())
            == Seq::<Seq<Seq<char>>>::empty());
        assert(rendered_facet_groups(groups) == Seq::<Seq<Seq<char>>>::empty());
        if g@.len() > 0 {
            assert(rendered_facet_groups(groups.push(g)) =~= rendered_facet_groups(groups).push(
                group_rendered(g),
            ));
        } else {
            assert(rendered_facet_groups(groups.push(g)) =~= rendered_facet_groups(groups));
        }
    } else {
        assert(groups.push(g).drop_first() =~= groups.drop_first().push(g));
        lemma_rendered_groups_snoc(groups.drop_first(), g);
        assert(groups.push(g)[0] == groups[0]);
        if g@.len() > 0 {
            assert(rendered_facet_groups(groups.push(g)) =~= rendered_facet_groups(groups).push(
                group_rendered(g),
            ));
        } else {
            assert(rendered_facet_groups(groups.push(g)) =~= rendered_facet_groups(groups));
        }
    }
}

/// The query of a search without pagination: the facets parameter appears
/// only where a non-empty group remains.
pub open spec fn search_query(query: Seq<char>, sort: Sort, facets: Seq<Vec<Facet>>) -> Seq<
    (Seq<char>, Seq<char>),
> {
    let q = seq![("query"@, query), ("index"@, sort.spec_str())];
    if rendered_facet_groups(facets).len() > 0 {
        q.push(("facets"@, json_list_of_lists(rendered_facet_groups(facets))))
    } else {
        q
    }
}

/// The query of a paged search.
pub open spec fn search_paged_query(
    query: Seq<char>,
    sort: Sort,
    limit: nat,
    offset: nat,
    facets: Seq<Vec<Facet>>,
) -> Seq<(Seq<char>, Seq<char>)> {
    let q = seq![
        ("query"@, query),
        ("index"@, sort.spec_str()),
        ("limit"@, dec_chars(limit)),
        ("offset"@, dec_chars(offset)),
    ];
    if rendered_facet_groups(facets).len() > 0 {
        q.push(("facets"@, json_list_of_lists(rendered_facet_groups(facets))))
    } else {
        q
    }
}

/// Render the non-empty facet groups.
fn rendered_groups(facets: &Vec<Vec<Facet>>) -> (r: Vec<Vec<String>>)
    ensures
        r.deep_view() == rendered_facet_groups(facets@),
{
    let mut out: Vec<Vec<String>> = Vec::new();
    let n = facets.len();
    let mut i: usize = 0;
    while i < n
        invariant
            i <= n,
            n == facets@.len(),
            out.deep_view() =~= rendered_facet_groups(facets@.take(i as int)),
        decreases n - i,
    {
        let group = &facets[i];
        let m = group.len();
        proof {
            lemma_rendered_groups_snoc(facets@.take(i as int), facets@[i as int]);
            assert(facets@.take(i as int).push(facets@[i as int]) =~= facets@.take(i + 1));
        }
        if m > 0 {
            let mut rendered: Vec<String> = Vec::new();
            let mut j: usize = 0;
            while j < m
                invariant
                    j <= m,
                    m == group@.len(),
                    group == &facets[i as int],
                    rendered@.len() == j,
                    forall|k: int| 0 <= k < j ==> (#[trigger] rendered@[k])@
                        == group@[k].query_value(),
                decreases m - j,
            {
                rendered.push(group[j].to_query_value());
                j += 1;
            }
            proof {
                assert(rendered.deep_view() =~= group_rendered(facets@[i as int]));
            }
            let ghost old_deep = out.deep_view();
            out.push(rendered);
            proof {
                assert forall|k: int| 0 <= k < out@.len() implies out.deep_view()[k] == old_deep.push(
                    group_rendered(facets@[i as int]),
                )[k] by {
                    assert(out.deep_view()[k] == out@[k].deep_view());
                }
                assert(out.deep_view() =~= old_deep.push(group_rendered(facets@[i as int])));
                assert(out.deep_view() =~= rendered_facet_groups(facets@.take(i + 1)));
            }
        }
        i += 1;
    }
    proof {
        assert(facets@.take(n as int) =~= facets@);
    }
    out
}

impl Api {
    /// Search for projects with `query`, sorted by `sort` and filtered by
    /// `facets`; only non-empty facet groups are sent.
    pub fn search(&self, query: &str, sort: &Sort, facets: &Vec<Vec<Facet>>) -> (r: Request)
        ensures
            is_request(
                Ok(r),
                Method::Get,
                self.base@,
                seq!["search"@],
                search_query(query@, *sort, facets@),
            ),
    {
        let req = self.seg_request(Method::Get, vec!["search".to_owned()]);
        let mut url = req.url.with_query("query", query).with_query("index", sort.as_str());
        let groups = rendered_groups(facets);
        if groups.len() > 0 {
            let v = crate::json::json_encode_nested(&groups);
            url = url.with_query("facets", v.as_str());
        }
        let req = Request { method: Method::Get, url };
        proof {
            assert(groups@.len() == rendered_facet_groups(facets@).len());
            assert(req.url.path_view() =~= seq!["search"@]);
            assert(req.url.query_view() =~= search_query(query@, *sort, facets@));
        }
        req
    }

    /// Search for projects with `query` and pagination: at most `limit` hits
    /// (valid 0-100), skipping the first `offset`.
    pub fn search_paged(
        &self,
        query: &str,
        sort: &Sort,
        limit: usize,
        offset: usize,
        facets: &Vec<Vec<Facet>>,
    ) -> (r: Request)
        ensures
            is_request(
                Ok(r),
                Method::Get,
                self.base@,
                seq!["search"@],
                search_paged_query(query@, *sort, limit as nat, offset as nat, facets@),
            ),
    {
        let req = self.seg_request(Method::Get, vec!["search".to_owned()]);
        let limit_s = usize_string(limit);
        let offset_s = usize_string(offset);
        let mut url = req.url.with_query("query", query).with_query("index", sort.as_str())
            .with_query("limit", limit_s.as_str()).with_query("offset", offset_s.as_str());
        let groups = rendered_groups(facets);
        if groups.len() > 0 {
            let v = crate::json::json_encode_nested(&groups);
            url = url.with_query("facets", v.as_str());
        }
        let req = Request { method: Method::Get, url };
        proof {
            assert(groups@.len() == rendered_facet_groups(facets@).len());
            assert(req.url.path_view() =~= seq!["search"@]);
            assert(req.url.query_view() =~= search_paged_query(
                query@,
                *sort,
                limit as nat,
                offset as nat,
                facets@,
            ));
        }
        req
    }
}

} // verus!
