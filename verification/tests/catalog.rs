//! Scenario tests over the in-memory catalog: the seeded state, the
//! lookups, the filters, and recipe creation.

use coffee_catalog::handlers::{
    create_recipe, get_brewer_id, get_brewers, get_recipe_id, get_recipe_slug, get_recipe_title,
    get_recipes, get_recipes_machine, get_recipes_roaster, get_roast_id, get_roasts, get_user_id,
    get_users,
};
use coffee_catalog::http::{reply_of_created, reply_of_row, status_of};
use coffee_catalog::model::{PartialUser, RecipeForm};
use coffee_catalog::store::Catalog;

fn form(title: &str, user_id: i32, brewer_id: i32, roast_id: i32) -> RecipeForm {
    RecipeForm {
        title: title.to_string(),
        roaster: "Black and White".to_string(),
        temp: "hot".to_string(),
        link: "https://example.com/r".to_string(),
        shop_link: "https://example.com/s".to_string(),
        machine: "Studio".to_string(),
        creator: "xbloom".to_string(),
        oauth_user: None,
        user_id,
        brewer_id,
        roast_id,
        created_at: None,
    }
}

#[test]
fn seeded_roasts_are_the_six_levels() {
    let store = Catalog::seed();
    let roasts = get_roasts(&store);
    let mut levels: Vec<String> = roasts.iter().map(|r| r.level.clone()).collect();
    levels.sort();
    let mut expected = vec![
        "Light".to_string(),
        "Dark".to_string(),
        "Medium".to_string(),
        "Medium-Dark".to_string(),
        "Extra-Dark".to_string(),
        "Extra-light".to_string(),
    ];
    expected.sort();
    assert_eq!(levels, expected);
}

#[test]
fn seeded_brewers_are_the_five_types() {
    let store = Catalog::seed();
    let brewers = get_brewers(&store);
    let mut types: Vec<String> = brewers.iter().map(|b| b.brewer_type.clone()).collect();
    types.sort();
    let mut expected = vec![
        "Omni Dripper v2".to_string(),
        "xPod".to_string(),
        "Aeropress".to_string(),
        "Omni Dripper v1".to_string(),
        "Other".to_string(),
    ];
    expected.sort();
    assert_eq!(types, expected);
}

#[test]
fn roast_lookup_finds_the_seeded_row() {
    let store = Catalog::seed();
    let row = get_roast_id(&store, 1).expect("seeded roast");
    assert_eq!(row.id, 1);
    assert_eq!(row.level, "Light");
    let row = get_roast_id(&store, 6).expect("seeded roast");
    assert_eq!(row.level, "Extra-light");
}

#[test]
fn missing_id_is_absent_with_success_status() {
    let store = Catalog::seed();
    let row = get_roast_id(&store, 99);
    assert!(row.is_none());
    assert_eq!(status_of(&reply_of_row(row)), 200);
    let row = get_brewer_id(&store, 42);
    assert!(row.is_none());
    assert_eq!(status_of(&reply_of_row(row)), 200);
    let row = get_recipe_id(&store, 7);
    assert!(row.is_none());
    assert_eq!(status_of(&reply_of_row(row)), 200);
    let row = get_user_id(&store, -3);
    assert!(row.is_none());
    assert_eq!(status_of(&reply_of_row(row)), 200);
}

#[test]
fn list_all_twice_returns_the_same_rows() {
    let store = Catalog::seed();
    let first = get_roasts(&store);
    let second = get_roasts(&store);
    assert_eq!(first, second);
    let first = get_recipes(&store);
    let second = get_recipes(&store);
    assert_eq!(first, second);
}

#[test]
fn users_are_narrowed_to_id_and_username() {
    let store = Catalog::seed();
    // The seeded user row carries an email in the store...
    assert_eq!(store.users[0].email, "admin@localhost.com");
    // ...but the listed projection holds id and username, nothing else.
    let users = get_users(&store);
    assert_eq!(users, vec![PartialUser { id: 1, username: "admin".to_string() }]);
    let one = get_user_id(&store, 1).expect("seeded user");
    assert_eq!(one, PartialUser { id: 1, username: "admin".to_string() });
}

#[test]
fn recipe_slug_lookup_finds_the_seeded_row() {
    let store = Catalog::seed();
    let row = get_recipe_slug(&store, "the-future").expect("seeded recipe");
    assert_eq!(row.id, 1);
    assert_eq!(row.title, "The Future");
    assert_eq!(row.roaster, "Black and White");
}

#[test]
fn nonexistent_slug_is_absent_with_success_status() {
    let store = Catalog::seed();
    let row = get_recipe_slug(&store, "nonexistent-slug");
    assert!(row.is_none());
    assert_eq!(status_of(&reply_of_row(row)), 200);
}

#[test]
fn title_filter_is_a_substring_match() {
    let store = Catalog::seed();
    assert_eq!(get_recipe_title(&store, "Future").len(), 1);
    assert_eq!(get_recipe_title(&store, "The Future").len(), 1);
    assert_eq!(get_recipe_title(&store, "utur").len(), 1);
    assert_eq!(get_recipe_title(&store, "Past").len(), 0);
    // The match follows the store's collation, taken here as exact.
    assert_eq!(get_recipe_title(&store, "future").len(), 0);
    // An empty needle matches every row.
    assert_eq!(get_recipe_title(&store, "").len(), 1);
}

#[test]
fn roaster_and_machine_filters_are_exact() {
    let store = Catalog::seed();
    assert_eq!(get_recipes_roaster(&store, "Black and White").len(), 1);
    assert_eq!(get_recipes_roaster(&store, "Black").len(), 0);
    assert_eq!(get_recipes_machine(&store, "Studio").len(), 1);
    assert_eq!(get_recipes_machine(&store, "studio").len(), 0);
}

#[test]
fn create_returns_the_inserted_row_with_derived_slug() {
    let mut store = Catalog::seed();
    let r = create_recipe(&mut store, form("The Future", 1, 1, 1)).expect("valid references");
    assert_eq!(r.id, 2);
    assert_eq!(r.title, "The Future");
    assert_eq!(r.slug, "the-future");
    assert_eq!(r.roaster, "Black and White");
    assert_eq!(store.recipes.len(), 2);
    // The created row is findable right away.
    let found = get_recipe_id(&store, 2).expect("created row");
    assert_eq!(found, r);
}

#[test]
fn create_stamps_ids_in_sequence() {
    let mut store = Catalog::seed();
    let first = create_recipe(&mut store, form("One", 1, 2, 3)).expect("valid references");
    let second = create_recipe(&mut store, form("Two", 1, 3, 4)).expect("valid references");
    assert_eq!(first.id, 2);
    assert_eq!(second.id, 3);
    assert_eq!(store.recipes.len(), 3);
}

#[test]
fn create_keeps_a_supplied_creation_time() {
    let mut store = Catalog::seed();
    let mut f = form("Dated", 1, 1, 1);
    f.created_at = Some(1_700_000_000);
    let r = create_recipe(&mut store, f).expect("valid references");
    assert_eq!(r.created_at, 1_700_000_000);
}

#[test]
fn create_with_missing_reference_faults_and_persists_nothing() {
    let mut store = Catalog::seed();
    let r = create_recipe(&mut store, form("Orphan", 99, 1, 1));
    assert!(r.is_err());
    assert_eq!(status_of(&reply_of_created(r)), 500);
    assert_eq!(store.recipes.len(), 1);
    assert_eq!(store.next_recipe_id, 2);

    let r = create_recipe(&mut store, form("Orphan", 1, 99, 1));
    assert!(r.is_err());
    assert_eq!(store.recipes.len(), 1);

    let r = create_recipe(&mut store, form("Orphan", 1, 1, 99));
    assert!(r.is_err());
    assert_eq!(store.recipes.len(), 1);
}

#[test]
fn duplicate_slugs_resolve_to_the_first_in_store_order() {
    let mut store = Catalog::seed();
    let created = create_recipe(&mut store, form("The Future", 1, 1, 1)).expect("valid");
    assert_eq!(created.slug, "the-future");
    // Two rows now share the slug; the lookup returns the older one.
    let row = get_recipe_slug(&store, "the-future").expect("some row");
    assert_eq!(row.id, 1);
}

#[test]
fn empty_catalog_has_no_rows() {
    let store = Catalog::empty();
    assert!(get_roasts(&store).is_empty());
    assert!(get_brewers(&store).is_empty());
    assert!(get_users(&store).is_empty());
    assert!(get_recipes(&store).is_empty());
}

#[test]
fn create_in_empty_catalog_faults() {
    let mut store = Catalog::empty();
    let r = create_recipe(&mut store, form("Anything", 1, 1, 1));
    assert!(r.is_err());
    assert_eq!(store.recipes.len(), 0);
}
