//! Tests for the endpoint request builders.

use ferinth::api_calls::{Api, Method};
use ferinth::structures::project::ImageFileExt;
use ferinth::structures::project::RequestedStatus;
use ferinth::structures::search::{Facet, Sort};
use ferinth::Error;

fn api() -> Api {
    Api::modrinth()
}

fn pairs_of(rendered: &str) -> Vec<(String, String)> {
    url::Url::parse(rendered)
        .expect("rendered URL must parse")
        .query_pairs()
        .map(|(k, v)| (k.into_owned(), v.into_owned()))
        .collect()
}

#[test]
fn project_get_builds_the_project_path() {
    let req = api().project_get("AANobbMI").unwrap();
    assert_eq!(req.method, Method::Get);
    assert_eq!(
        req.url.render(),
        "https://api.modrinth.com/v2/project/AANobbMI"
    );
}

#[test]
fn project_get_rejects_bad_identifiers_before_any_request_exists() {
    assert_eq!(
        api().project_get("bad id").unwrap_err(),
        Error::InvalidIDorSlug
    );
    assert_eq!(api().project_get("ab").unwrap_err(), Error::InvalidIDorSlug);
}

#[test]
fn project_get_multiple_sends_the_ids_as_json() {
    let req = api().project_get_multiple(&["sodium", "P7dR8mSH"]).unwrap();
    let rendered = req.url.render();
    assert!(rendered.starts_with("https://api.modrinth.com/v2/projects?ids="));
    let pairs = pairs_of(&rendered);
    assert_eq!(pairs.len(), 1);
    assert_eq!(pairs[0].0, "ids");
    let ids: Vec<String> = serde_json::from_str(&pairs[0].1).unwrap();
    assert_eq!(ids, vec!["sodium".to_string(), "P7dR8mSH".to_string()]);
}

#[test]
fn project_get_random_counts_in_decimal() {
    let req = api().project_get_random(5);
    assert_eq!(
        req.url.render(),
        "https://api.modrinth.com/v2/projects_random?count=5"
    );
}

#[test]
fn project_routes_use_the_documented_paths() {
    assert_eq!(
        api().project_check_validity("sodium").unwrap().url.render(),
        "https://api.modrinth.com/v2/project/sodium/check"
    );
    assert_eq!(
        api().project_get_dependencies("fabric-api").unwrap().url.render(),
        "https://api.modrinth.com/v2/project/fabric-api/dependencies"
    );
    let del = api().project_delete("sodium").unwrap();
    assert_eq!(del.method, Method::Delete);
    assert_eq!(del.url.render(), "https://api.modrinth.com/v2/project/sodium");
    let follow = api().project_follow("sodium").unwrap();
    assert_eq!(follow.method, Method::Post);
    assert_eq!(
        follow.url.render(),
        "https://api.modrinth.com/v2/project/sodium/follow"
    );
    let icon = api().project_edit_icon("sodium", ImageFileExt::PNG).unwrap();
    assert_eq!(icon.method, Method::Patch);
    assert_eq!(
        icon.url.render(),
        "https://api.modrinth.com/v2/project/sodium/icon?ext=png"
    );
}

#[test]
fn gallery_routes_append_only_present_options() {
    let req = api()
        .project_add_gallery_image("sodium", ImageFileExt::PNG, true, Some("A title"), None)
        .unwrap();
    let pairs = pairs_of(&req.url.render());
    assert_eq!(
        pairs,
        vec![
            ("ext".to_string(), "png".to_string()),
            ("featured".to_string(), "true".to_string()),
            ("title".to_string(), "A title".to_string()),
        ]
    );

    let req = api()
        .project_edit_gallery_image(
            "sodium",
            "https://cdn.example.com/image.png",
            Some(false),
            None,
            None,
            Some(3),
        )
        .unwrap();
    let pairs = pairs_of(&req.url.render());
    assert_eq!(
        pairs,
        vec![
            (
                "url".to_string(),
                "https://cdn.example.com/image.png".to_string()
            ),
            ("featured".to_string(), "false".to_string()),
            ("ordering".to_string(), "3".to_string()),
        ]
    );
}

#[test]
fn schedule_routes_wrap_values_as_json_strings() {
    let req = api()
        .project_schedule(
            "sodium",
            "2024-05-01T12:00:00Z",
            &RequestedStatus::Approved,
        )
        .unwrap();
    let pairs = pairs_of(&req.url.render());
    assert_eq!(
        pairs,
        vec![
            ("time".to_string(), "\"2024-05-01T12:00:00Z\"".to_string()),
            ("requested_status".to_string(), "\"approved\"".to_string()),
        ]
    );
}

#[test]
fn search_sends_only_non_empty_facet_groups() {
    let facets = vec![
        vec![Facet::Categories("neoforge".to_owned())],
        vec![],
    ];
    let req = api().search("sodium", &Sort::Downloads, &facets);
    let pairs = pairs_of(&req.url.render());
    assert_eq!(pairs[0], ("query".to_string(), "sodium".to_string()));
    assert_eq!(pairs[1], ("index".to_string(), "downloads".to_string()));
    assert_eq!(pairs[2].0, "facets");
    let decoded: Vec<Vec<String>> = serde_json::from_str(&pairs[2].1).unwrap();
    assert_eq!(decoded, vec![vec!["categories: neoforge".to_string()]]);
}

#[test]
fn search_without_facets_has_no_facets_parameter() {
    let req = api().search("sodium", &Sort::Relevance, &vec![vec![], vec![]]);
    let pairs = pairs_of(&req.url.render());
    assert_eq!(
        pairs,
        vec![
            ("query".to_string(), "sodium".to_string()),
            ("index".to_string(), "relevance".to_string()),
        ]
    );
}

#[test]
fn search_paged_appends_limit_and_offset() {
    let req = api().search_paged("sodium", &Sort::Newest, 12, 24, &vec![]);
    let pairs = pairs_of(&req.url.render());
    assert_eq!(
        pairs,
        vec![
            ("query".to_string(), "sodium".to_string()),
            ("index".to_string(), "newest".to_string()),
            ("limit".to_string(), "12".to_string()),
            ("offset".to_string(), "24".to_string()),
        ]
    );
}

#[test]
fn tag_routes_use_the_documented_paths() {
    assert_eq!(
        api().tag_list_categories().url.render(),
        "https://api.modrinth.com/v2/tag/category"
    );
    assert_eq!(
        api().tag_list_game_versions().url.render(),
        "https://api.modrinth.com/v2/tag/game_version"
    );
    assert_eq!(
        api().tag_license_text_and_title("MIT").url.render(),
        "https://api.modrinth.com/v2/tag/license/MIT"
    );
}

#[test]
fn team_routes_use_the_documented_paths() {
    assert_eq!(
        api().team_list_project_members("sodium").unwrap().url.render(),
        "https://api.modrinth.com/v2/project/sodium/members"
    );
    assert_eq!(
        api().team_list_members("zftNHDXi").unwrap().url.render(),
        "https://api.modrinth.com/v2/team/zftNHDXi/members"
    );
    assert_eq!(
        api().team_remove_member("zftNHDXi", "7Azq6eD8").url.render(),
        "https://api.modrinth.com/v2/team/zftNHDXi/members/7Azq6eD8"
    );
    let join = api().team_join("zftNHDXi");
    assert_eq!(join.method, Method::Post);
    assert_eq!(
        join.url.render(),
        "https://api.modrinth.com/v2/team/zftNHDXi/join"
    );
}

#[test]
fn user_routes_use_the_documented_paths() {
    assert_eq!(
        api().user_get("7Azq6eD8").unwrap().url.render(),
        "https://api.modrinth.com/v2/user/7Azq6eD8"
    );
    assert_eq!(
        api().user_list_projects("TEZXhE2U").unwrap().url.render(),
        "https://api.modrinth.com/v2/user/TEZXhE2U/projects"
    );
    assert_eq!(
        api().user_get_current().url.render(),
        "https://api.modrinth.com/v2/user"
    );
    assert_eq!(
        api().user_get("no").unwrap_err(),
        Error::InvalidIDorSlug
    );
}

#[test]
fn version_routes_use_the_documented_paths() {
    assert_eq!(
        api().version_list("AANobbMI").unwrap().url.render(),
        "https://api.modrinth.com/v2/project/AANobbMI/version"
    );
    assert_eq!(
        api().version_get("xuWxRZPd").unwrap().url.render(),
        "https://api.modrinth.com/v2/version/xuWxRZPd"
    );
    assert_eq!(
        api()
            .version_get_from_number("sodium", "mc1.17.1-0.3.2")
            .unwrap()
            .url
            .render(),
        "https://api.modrinth.com/v2/project/sodium/version/mc1.17.1-0.3.2"
    );
}

#[test]
fn version_list_filtered_appends_only_present_filters() {
    let req = api()
        .version_list_filtered("AANobbMI", Some(&["forge"]), None, Some(true))
        .unwrap();
    let pairs = pairs_of(&req.url.render());
    assert_eq!(pairs.len(), 2);
    assert_eq!(pairs[0].0, "loaders");
    let loaders: Vec<String> = serde_json::from_str(&pairs[0].1).unwrap();
    assert_eq!(loaders, vec!["forge".to_string()]);
    assert_eq!(pairs[1], ("featured".to_string(), "true".to_string()));
}

#[test]
fn version_file_routes_validate_their_hashes() {
    let hash = "795d4c12bffdb1b21eed5ff87c07ce5ca3c0dcbf";
    assert_eq!(
        api().version_get_from_hash(hash).unwrap().url.render(),
        format!("https://api.modrinth.com/v2/version_file/{}", hash)
    );
    assert_eq!(
        api().version_get_from_hash("SHOUTING").unwrap_err(),
        Error::InvalidSHA1
    );
    let req = api()
        .version_file_delete_from_hash(hash, Some("xuWxRZPd"))
        .unwrap();
    assert_eq!(req.method, Method::Delete);
    assert_eq!(
        req.url.render(),
        format!(
            "https://api.modrinth.com/v2/version_file/{}?version_id=xuWxRZPd",
            hash
        )
    );
    assert_eq!(
        api()
            .version_file_delete_from_hash(hash, Some("x"))
            .unwrap_err(),
        Error::InvalidIDorSlug
    );
    let latest = api().version_get_latest_from_hash(hash).unwrap();
    assert_eq!(
        latest.url.render(),
        format!(
            "https://api.modrinth.com/v2/version_file/{}/update?algorithm=%22sha1%22",
            hash
        )
    );
}

#[test]
fn misc_routes_use_the_documented_paths() {
    assert_eq!(
        api().instance_statistics().url.render(),
        "https://api.modrinth.com/v2/statistics"
    );
    assert_eq!(api().welcome().url.render(), "https://api.modrinth.com");
}
