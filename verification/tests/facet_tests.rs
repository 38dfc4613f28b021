//! Tests for facet rendering and the facet builder.

use ferinth::facet::{Facet, FacetBuilder, ModrinthFacet};
use ferinth::structures::project::ProjectType;
use ferinth::structures::search;

#[test]
fn facet_renders_key_and_value() {
    let f = Facet::new("versions".to_owned(), "1.18.2".to_owned());
    assert_eq!(f.render(), "versions:1.18.2");
}

#[test]
fn modrinth_facets_use_the_platform_keys() {
    assert_eq!(
        ModrinthFacet::version("1.18.2".to_owned()).render(),
        "versions:1.18.2"
    );
    assert_eq!(
        ModrinthFacet::project_type(ProjectType::Mod).render(),
        "project_type:mod"
    );
    assert_eq!(
        ModrinthFacet::project_type(ProjectType::ResourcePack).render(),
        "project_type:resourcepack"
    );
    assert_eq!(ModrinthFacet::license("mit".to_owned()).render(), "license:mit");
    assert_eq!(
        ModrinthFacet::category("quilt".to_owned()).render(),
        "categories:quilt"
    );
}

#[test]
fn builder_groups_and_terms_with_or() {
    let built = FacetBuilder::new(ModrinthFacet::version("1.18.2".to_owned()))
        .and(ModrinthFacet::category("quilt".to_owned()))
        .or(ModrinthFacet::category("fabric".to_owned()))
        .build();
    assert_eq!(
        built,
        vec![
            vec!["versions:1.18.2".to_string(), "categories:quilt".to_string()],
            vec!["categories:fabric".to_string()],
        ]
    );
}

#[test]
fn builder_single_facet() {
    let built = FacetBuilder::new(ModrinthFacet::version("1.18.2".to_owned())).build();
    assert_eq!(built, vec![vec!["versions:1.18.2".to_string()]]);
}

#[test]
fn search_facets_render_their_query_text() {
    assert_eq!(
        search::Facet::ProjectType(ProjectType::Mod).to_query_value(),
        "project_type:Mod"
    );
    assert_eq!(
        search::Facet::Categories("neoforge".to_owned()).to_query_value(),
        "categories: neoforge"
    );
    assert_eq!(
        search::Facet::Versions("1.20.1".to_owned()).to_query_value(),
        "versions: 1.20.1"
    );
    assert_eq!(
        search::Facet::OpenSource(true).to_query_value(),
        "open_source: true"
    );
    assert_eq!(
        search::Facet::License("mit".to_owned()).to_query_value(),
        "license: mit"
    );
    assert_eq!(
        search::Facet::Custom {
            _type: "downloads".to_owned(),
            operation: ">".to_owned(),
            value: "100".to_owned(),
        }
        .to_query_value(),
        "downloads > 100"
    );
}
