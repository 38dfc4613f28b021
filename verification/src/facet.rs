//! A builder for search filter expressions: facets combined into AND groups
//! joined by OR, in the nested-list form the search endpoint takes.

use vstd::prelude::*;
use vstd::string::StringExecFns;

use crate::strutil::push_char;
use crate::structures::project::ProjectType;

verus! {

/// The `key:value` text of a facet.
pub open spec fn facet_str(key: Seq<char>, value: Seq<char>) -> Seq<char> {
    key + seq![':'] + value
}

/// A single `key:value` search filter.
#[derive(Debug, Clone, PartialEq)]
pub struct Facet {
    pub key: String,
    pub value: String,
}

impl Facet {
    pub fn new(key: String, value: String) -> (r: Facet)
        ensures
            r.key == key,
            r.value == value,
    {
        Facet { key, value }
    }

    /// The `key:value` text this facet is sent as.
    pub fn render(&self) -> (r: String)
        ensures
            r@ == facet_str(self.key@, self.value@),
    {
        let mut s = self.key.clone();
        push_char(&mut s, ':');
        s.append(self.value.as_str());
        proof {
            assert(self.key@.push(':') + self.value@ =~= facet_str(self.key@, self.value@));
        }
        s
    }
}

/// The rendered facet groups a builder stands for: every stacked group
/// followed by the group under construction.
pub open spec fn built_groups(stack: Seq<Vec<Facet>>, cur: Vec<Facet>) -> Seq<Seq<Seq<char>>> {
    stack.push(cur).map_values(
        |g: Vec<Facet>| g@.map_values(|f: Facet| facet_str(f.key@, f.value@)),
    )
}

/// Builds a facet expression: [`FacetBuilder::and`] adds to the current
/// group, [`FacetBuilder::or`] starts a new group.
#[derive(Debug, Clone, PartialEq)]
pub struct FacetBuilder {
    pub stack: Vec<Vec<Facet>>,
    pub cur: Vec<Facet>,
}

impl FacetBuilder {
    /// Start an expression from one facet.
    pub fn new(facet: Facet) -> (r: FacetBuilder)
        ensures
            r.stack@ == Seq::<Vec<Facet>>::empty(),
            r.cur@ == seq![facet],
    {
        let r = FacetBuilder { stack: Vec::new(), cur: vec![facet] };
        r
    }

    /// Add an AND term to the current group.
    pub fn and(self, facet: Facet) -> (r: FacetBuilder)
        ensures
            r.stack@ == self.stack@,
            r.cur@ == self.cur@.push(facet),
    {
        let mut b = self;
        b.cur.push(facet);
        b
    }

    /// Close the current group and start a new one: an OR term.
    pub fn or(self, facet: Facet) -> (r: FacetBuilder)
        ensures
            r.stack@ == self.stack@.push(self.cur),
            r.cur@ == seq![facet],
    {
        let FacetBuilder { mut stack, cur } = self;
        stack.push(cur);
        FacetBuilder { stack, cur: vec![facet] }
    }

    /// Render the expression into the nested-list form the search endpoint
    /// takes: the stacked groups, then the current group, each facet as its
    /// `key:value` text.
    pub fn build(self) -> (r: Vec<Vec<String>>)
        ensures
            r.deep_view() == built_groups(self.stack@, self.cur),
    {
        let ghost orig = self;
        let mut all = self.stack;
        all.push(self.cur);
        let mut out: Vec<Vec<String>> = Vec::new();
        let n = all.len();
        let mut i: usize = 0;
        while i < n
            invariant
                i <= n,
                n == all@.len(),
                all@ == orig.stack@.push(orig.cur),
                out@.len() == i,
                forall|k: int| 0 <= k < i ==> (#[trigger] out@[k]).deep_view() == all@[k]@.map_values(
                    |f: Facet| facet_str(f.key@, f.value@),
                ),
            decreases n - i,
        {
            let group = &all[i];
            let mut rendered: Vec<String> = Vec::new();
            let m = group.len();
            let mut j: usize = 0;
            while j < m
                invariant
                    j <= m,
                    m == group@.len(),
                    group == &all[i as int],
                    rendered@.len() == j,
                    forall|k: int| 0 <= k < j ==> (#[trigger] rendered@[k])@ == facet_str(
                        group@[k].key@,
                        group@[k].value@,
                    ),
                decreases m - j,
            {
                rendered.push(group[j].render());
                j += 1;
            }
            proof {
                let gv = group@.map_values(|f: Facet| facet_str(f.key@, f.value@));
                assert(rendered.deep_view() =~= gv);
            }
            out.push(rendered);
            i += 1;
        }
        proof {
            let bg = built_groups(orig.stack@, orig.cur);
            assert forall|k: int| 0 <= k < n implies out.deep_view()[k] == bg[k] by {
                assert(out.deep_view()[k] == out@[k].deep_view());
            }
            assert(out.deep_view() =~= bg);
        }
        out
    }
}

/// Ready-made facets for the platform's standard filter keys.
pub struct ModrinthFacet {}

impl ModrinthFacet {
    /// A facet filtering by game version.
    pub fn version(version: String) -> (r: Facet)
        ensures
            r.key@ == "versions"@,
            r.value == version,
    {
        Facet { key: "versions".to_owned(), value: version }
    }

    /// A facet filtering by project type.
    pub fn project_type(project_type: ProjectType) -> (r: Facet)
        ensures
            r.key@ == "project_type"@,
            r.value@ == project_type.spec_str(),
    {
        Facet { key: "project_type".to_owned(), value: project_type.as_str().to_owned() }
    }

    /// A facet filtering by license ID (e.g. mit, arr).
    pub fn license(license: String) -> (r: Facet)
        ensures
            r.key@ == "license"@,
            r.value == license,
    {
        Facet { key: "license".to_owned(), value: license }
    }

    /// A facet filtering by loader or category.
    pub fn category(category: String) -> (r: Facet)
        ensures
            r.key@ == "categories"@,
            r.value == category,
    {
        Facet { key: "categories".to_owned(), value: category }
    }
}

} // verus!
