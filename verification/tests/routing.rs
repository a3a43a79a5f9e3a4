//! Tests of the route grammar, the slug derivation, the decimal parser,
//! and the outcome-to-status translation.

use coffee_catalog::http::{
    health_body, internal_error, not_found_body, reply_of_row, route, status_of, ApiRequest, Reply,
};
use coffee_catalog::slugs::derive_slug;
use coffee_catalog::strutil::{contains_str, parse_i32, split_path, str_eq};

#[test]
fn slug_of_plain_title() {
    assert_eq!(derive_slug("The Future"), "the-future");
}

#[test]
fn slug_folds_accents_to_ascii() {
    assert_eq!(derive_slug("Café Roast!!"), "cafe-roast");
}

#[test]
fn slug_collapses_separator_runs_and_trims() {
    assert_eq!(derive_slug("  Black & White  Coffee  "), "black-white-coffee");
    assert_eq!(derive_slug("--Already--Sluggy--"), "already-sluggy");
    assert_eq!(derive_slug("MiXeD CaSe 123"), "mixed-case-123");
    assert_eq!(derive_slug(""), "");
    assert_eq!(derive_slug("!!!"), "");
}

#[test]
fn routes_resolve_to_their_operations() {
    assert!(matches!(route("GET", "/"), ApiRequest::Health));
    assert!(matches!(route("GET", "/api/roasts"), ApiRequest::ListRoasts));
    assert!(matches!(route("GET", "/api/roast/3"), ApiRequest::RoastById(3)));
    assert!(matches!(route("GET", "/api/brewers"), ApiRequest::ListBrewers));
    assert!(matches!(route("GET", "/api/brewer/2"), ApiRequest::BrewerById(2)));
    assert!(matches!(route("GET", "/api/users"), ApiRequest::ListUsers));
    assert!(matches!(route("GET", "/api/user/1"), ApiRequest::UserById(1)));
    assert!(matches!(route("GET", "/api/recipes"), ApiRequest::ListRecipes));
    assert!(matches!(route("GET", "/api/recipe/id/14"), ApiRequest::RecipeById(14)));
    assert!(matches!(route("POST", "/api/recipe/create"), ApiRequest::CreateRecipe));
}

#[test]
fn route_slug_carries_the_segment() {
    match route("GET", "/api/recipe/the-future") {
        ApiRequest::RecipeBySlug(s) => assert_eq!(s, "the-future"),
        other => panic!("unexpected request: {:?}", status_name(&other)),
    }
    match route("GET", "/api/recipe/title/Future") {
        ApiRequest::RecipesByTitle(s) => assert_eq!(s, "Future"),
        other => panic!("unexpected request: {:?}", status_name(&other)),
    }
    match route("GET", "/api/recipes/roaster/Black and White") {
        ApiRequest::RecipesByRoaster(s) => assert_eq!(s, "Black and White"),
        other => panic!("unexpected request: {:?}", status_name(&other)),
    }
    match route("GET", "/api/recipes/machine/Studio") {
        ApiRequest::RecipesByMachine(s) => assert_eq!(s, "Studio"),
        other => panic!("unexpected request: {:?}", status_name(&other)),
    }
}

fn status_name(r: &ApiRequest) -> &'static str {
    match r {
        ApiRequest::Health => "health",
        ApiRequest::ListRoasts => "list-roasts",
        ApiRequest::RoastById(_) => "roast-by-id",
        ApiRequest::ListBrewers => "list-brewers",
        ApiRequest::BrewerById(_) => "brewer-by-id",
        ApiRequest::ListUsers => "list-users",
        ApiRequest::UserById(_) => "user-by-id",
        ApiRequest::ListRecipes => "list-recipes",
        ApiRequest::RecipeById(_) => "recipe-by-id",
        ApiRequest::RecipeBySlug(_) => "recipe-by-slug",
        ApiRequest::RecipesByTitle(_) => "recipes-by-title",
        ApiRequest::RecipesByRoaster(_) => "recipes-by-roaster",
        ApiRequest::RecipesByMachine(_) => "recipes-by-machine",
        ApiRequest::CreateRecipe => "create-recipe",
        ApiRequest::NoRoute => "no-route",
    }
}

#[test]
fn unmatched_paths_and_methods_find_no_route() {
    assert!(matches!(route("GET", "/api/unknown"), ApiRequest::NoRoute));
    assert!(matches!(route("GET", "/api/roast/not-a-number"), ApiRequest::NoRoute));
    assert!(matches!(route("GET", "/api/roasts/"), ApiRequest::NoRoute));
    assert!(matches!(route("DELETE", "/api/roasts"), ApiRequest::NoRoute));
    assert!(matches!(route("POST", "/api/roasts"), ApiRequest::NoRoute));
    // The create path accepts POST alone.
    assert!(matches!(route("GET", "/api/recipe/create"), ApiRequest::NoRoute));
    assert!(matches!(route("GET", ""), ApiRequest::NoRoute));
    assert!(matches!(route("POST", "/"), ApiRequest::NoRoute));
}

#[test]
fn negative_ids_parse_and_route() {
    assert!(matches!(route("GET", "/api/roast/-1"), ApiRequest::RoastById(-1)));
}

#[test]
fn statuses_map_one_tag_to_one_code() {
    assert_eq!(status_of(&Reply::Payload(5u8)), 200);
    assert_eq!(status_of(&Reply::<u8>::Absent), 200);
    assert_eq!(
        status_of(&Reply::<u8>::Fault(coffee_catalog::http::StoreFault {
            message: "connection lost".to_string(),
        })),
        500,
    );
    assert_eq!(status_of(&Reply::<u8>::TimedOut), 408);
    assert_eq!(status_of(&Reply::<u8>::NoRoute), 404);
}

#[test]
fn absent_rows_reply_absent() {
    let r: Reply<u8> = reply_of_row(None);
    assert!(matches!(r, Reply::Absent));
    let r = reply_of_row(Some(7u8));
    assert!(matches!(r, Reply::Payload(7)));
}

#[test]
fn internal_error_is_500_with_the_raw_description() {
    let (code, body) = internal_error("relation does not exist".to_string());
    assert_eq!(code, 500);
    assert_eq!(body, "relation does not exist");
}

#[test]
fn fixed_bodies() {
    assert_eq!(health_body(), "{\"status\":\"ok\"}");
    assert_eq!(not_found_body(), "nothing to see here");
}

#[test]
fn parse_i32_accepts_what_a_path_id_accepts() {
    assert_eq!(parse_i32("0"), Some(0));
    assert_eq!(parse_i32("42"), Some(42));
    assert_eq!(parse_i32("-7"), Some(-7));
    assert_eq!(parse_i32("+8"), Some(8));
    assert_eq!(parse_i32("007"), Some(7));
    assert_eq!(parse_i32("2147483647"), Some(i32::MAX));
    assert_eq!(parse_i32("-2147483648"), Some(i32::MIN));
    assert_eq!(parse_i32("2147483648"), None);
    assert_eq!(parse_i32("-2147483649"), None);
    assert_eq!(parse_i32("99999999999999999999"), None);
    assert_eq!(parse_i32(""), None);
    assert_eq!(parse_i32("-"), None);
    assert_eq!(parse_i32("+"), None);
    assert_eq!(parse_i32("1x"), None);
    assert_eq!(parse_i32(" 1"), None);
    assert_eq!(parse_i32("1 "), None);
}

#[test]
fn split_path_separates_on_every_slash() {
    let segs = split_path("/api/roasts");
    assert_eq!(segs, vec!["".to_string(), "api".to_string(), "roasts".to_string()]);
    assert_eq!(split_path(""), vec!["".to_string()]);
    assert_eq!(split_path("/"), vec!["".to_string(), "".to_string()]);
    assert_eq!(split_path("a//b"), vec!["a".to_string(), "".to_string(), "b".to_string()]);
}

#[test]
fn string_helpers_match_std_semantics() {
    assert!(str_eq("abc", "abc"));
    assert!(!str_eq("abc", "abd"));
    assert!(!str_eq("abc", "ab"));
    assert!(str_eq("", ""));
    assert!(contains_str("The Future", "Futu"));
    assert!(contains_str("The Future", ""));
    assert!(!contains_str("The Future", "future"));
    assert!(!contains_str("ab", "abc"));
}
