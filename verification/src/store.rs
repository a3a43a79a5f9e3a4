//! The relational state of the catalog and its invariant.
//!
//! A [`Catalog`] holds the rows of every table in store order. Its
//! well-formedness mirrors what the schema enforces: ids are unique within a
//! table, every recipe references an existing user, brewer and roast, every
//! tag-recipe association references an existing tag and recipe, and the id
//! counter for recipes is ahead of every stored recipe id.
//!
//! [`Catalog::seed`] builds the state that the ordered migrations leave
//! behind: the admin user, the six roast levels, the five brewer types, and
//! one seeded recipe.

use vstd::prelude::*;

use crate::clock::now_timestamp;
use crate::model::{
    Brewer, BrewerView, Recipe, RecipeView, Roast, RoastView, Tag, TagRecipe, TagRecipeView,
    TagView, User, UserView,
};

verus! {

/// The first row satisfying `pred`, in store order, if any.
pub open spec fn first_where<R>(rows: Seq<R>, pred: spec_fn(R) -> bool) -> Option<R>
    decreases rows.len(),
{
    if rows.len() == 0 {
        None
    } else if pred(rows[0]) {
        Some(rows[0])
    } else {
        first_where(rows.drop_first(), pred)
    }
}

/// Selects the row carrying `id`, with `id_of` reading a row's id.
pub open spec fn id_is<R>(id_of: spec_fn(R) -> int, id: int) -> spec_fn(R) -> bool {
    |r: R| id_of(r) == id
}

/// The first row carrying `id`, if any.
pub open spec fn by_id<R>(rows: Seq<R>, id_of: spec_fn(R) -> int, id: int) -> Option<R> {
    first_where(rows, id_is(id_of, id))
}

/// Whether some row carries `id`.
pub open spec fn has_id<R>(rows: Seq<R>, id_of: spec_fn(R) -> int, id: int) -> bool {
    exists|i: int| 0 <= i < rows.len() && id_of(#[trigger] rows[i]) == id
}

/// Whether no two rows carry the same id.
pub open spec fn unique_ids<R>(rows: Seq<R>, id_of: spec_fn(R) -> int) -> bool {
    forall|i: int, j: int|
        0 <= i < j < rows.len() ==> id_of(#[trigger] rows[i]) != id_of(#[trigger] rows[j])
}

/// If a prefix of `rows` has no match and row `i` matches, the first match
/// is row `i`.
pub proof fn lemma_first_where_found<R>(rows: Seq<R>, pred: spec_fn(R) -> bool, i: int)
    requires
        0 <= i < rows.len(),
        pred(rows[i]),
        forall|j: int| 0 <= j < i ==> !pred(#[trigger] rows[j]),
    ensures
        first_where(rows, pred) == Some(rows[i]),
    decreases i,
{
    if i > 0 {
        let rest = rows.drop_first();
        assert forall|j: int| 0 <= j < i - 1 implies !pred(#[trigger] rest[j]) by {
            assert(rest[j] == rows[j + 1]);
        }
        assert(rest[i - 1] == rows[i]);
        lemma_first_where_found(rest, pred, i - 1);
    }
}

/// A row that is present stays present when a row is appended.
pub proof fn lemma_has_id_push<R>(rows: Seq<R>, id_of: spec_fn(R) -> int, id: int, x: R)
    requires
        has_id(rows, id_of, id),
    ensures
        has_id(rows.push(x), id_of, id),
{
    let i = choose|i: int| 0 <= i < rows.len() && id_of(#[trigger] rows[i]) == id;
    assert(rows.push(x)[i] == rows[i]);
}

/// If no row matches, there is no first match.
pub proof fn lemma_first_where_none<R>(rows: Seq<R>, pred: spec_fn(R) -> bool)
    requires
        forall|j: int| 0 <= j < rows.len() ==> !pred(#[trigger] rows[j]),
    ensures
        first_where(rows, pred) is None,
    decreases rows.len(),
{
    if rows.len() > 0 {
        let rest = rows.drop_first();
        assert forall|j: int| 0 <= j < rest.len() implies !pred(#[trigger] rest[j]) by {
            assert(rest[j] == rows[j + 1]);
        }
        lemma_first_where_none(rest, pred);
    }
}

/// Reads a roast row's id.
pub open spec fn roast_id_of() -> spec_fn(RoastView) -> int {
    |x: RoastView| x.id
}

/// Reads a brewer row's id.
pub open spec fn brewer_id_of() -> spec_fn(BrewerView) -> int {
    |x: BrewerView| x.id
}

/// Reads a user row's id.
pub open spec fn user_id_of() -> spec_fn(UserView) -> int {
    |x: UserView| x.id
}

/// Reads a recipe row's id.
pub open spec fn recipe_id_of() -> spec_fn(RecipeView) -> int {
    |x: RecipeView| x.id
}

/// Reads a tag row's id.
pub open spec fn tag_id_of() -> spec_fn(TagView) -> int {
    |x: TagView| x.id
}

/// Reads a tag-recipe row's id.
pub open spec fn tag_recipe_id_of() -> spec_fn(TagRecipeView) -> int {
    |x: TagRecipeView| x.id
}

/// Selects the recipes whose slug is exactly `slug`.
pub open spec fn recipe_slug_pred(slug: Seq<char>) -> spec_fn(RecipeView) -> bool {
    |x: RecipeView| x.slug == slug
}

/// Selects the recipes whose title contains `title`.
pub open spec fn recipe_title_pred(title: Seq<char>) -> spec_fn(RecipeView) -> bool {
    |x: RecipeView| crate::strutil::contains_seq(x.title, title)
}

/// Selects the recipes whose roaster is exactly `roaster`.
pub open spec fn recipe_roaster_pred(roaster: Seq<char>) -> spec_fn(RecipeView) -> bool {
    |x: RecipeView| x.roaster == roaster
}

/// Selects the recipes whose machine is exactly `machine`.
pub open spec fn recipe_machine_pred(machine: Seq<char>) -> spec_fn(RecipeView) -> bool {
    |x: RecipeView| x.machine == machine
}

/// The whole relational state: every table's rows in store order, plus the
/// id that the next inserted recipe receives.
pub struct Catalog {
    pub users: Vec<User>,
    pub roasts: Vec<Roast>,
    pub brewers: Vec<Brewer>,
    pub recipes: Vec<Recipe>,
    pub tags: Vec<Tag>,
    pub tag_recipes: Vec<TagRecipe>,
    pub next_recipe_id: i32,
}

/// The mathematical value of a [`Catalog`].
pub struct CatalogView {
    pub users: Seq<UserView>,
    pub roasts: Seq<RoastView>,
    pub brewers: Seq<BrewerView>,
    pub recipes: Seq<RecipeView>,
    pub tags: Seq<TagView>,
    pub tag_recipes: Seq<TagRecipeView>,
    pub next_recipe_id: int,
}

impl View for Catalog {
    type V = CatalogView;

    open spec fn view(&self) -> CatalogView {
        CatalogView {
            users: self.users.deep_view(),
            roasts: self.roasts.deep_view(),
            brewers: self.brewers.deep_view(),
            recipes: self.recipes.deep_view(),
            tags: self.tags.deep_view(),
            tag_recipes: self.tag_recipes.deep_view(),
            next_recipe_id: self.next_recipe_id as int,
        }
    }
}

/// The roast row an id lookup yields.
pub open spec fn roast_by_id(v: CatalogView, id: int) -> Option<RoastView> {
    by_id(v.roasts, roast_id_of(), id)
}

/// The brewer row an id lookup yields.
pub open spec fn brewer_by_id(v: CatalogView, id: int) -> Option<BrewerView> {
    by_id(v.brewers, brewer_id_of(), id)
}

/// The user row an id lookup yields, before projection.
pub open spec fn user_by_id(v: CatalogView, id: int) -> Option<UserView> {
    by_id(v.users, user_id_of(), id)
}

/// The recipe row an id lookup yields.
pub open spec fn recipe_by_id(v: CatalogView, id: int) -> Option<RecipeView> {
    by_id(v.recipes, recipe_id_of(), id)
}

/// The recipe row a slug lookup yields: the first match in store order.
/// Slugs carry no uniqueness constraint, so which of several equal slugs
/// wins is store order, nothing better.
pub open spec fn recipe_by_slug(v: CatalogView, slug: Seq<char>) -> Option<RecipeView> {
    first_where(v.recipes, recipe_slug_pred(slug))
}

/// The recipes whose title contains `title`, in store order.
pub open spec fn recipes_with_title(v: CatalogView, title: Seq<char>) -> Seq<RecipeView> {
    v.recipes.filter(recipe_title_pred(title))
}

/// The recipes of a roaster, in store order.
pub open spec fn recipes_with_roaster(v: CatalogView, roaster: Seq<char>) -> Seq<RecipeView> {
    v.recipes.filter(recipe_roaster_pred(roaster))
}

/// The recipes for a machine, in store order.
pub open spec fn recipes_with_machine(v: CatalogView, machine: Seq<char>) -> Seq<RecipeView> {
    v.recipes.filter(recipe_machine_pred(machine))
}

/// A recipe row references an existing user, brewer and roast.
pub open spec fn recipe_refs_ok(v: CatalogView, r: RecipeView) -> bool {
    &&& has_id(v.users, user_id_of(), r.user_id)
    &&& has_id(v.brewers, brewer_id_of(), r.brewer_id)
    &&& has_id(v.roasts, roast_id_of(), r.roast_id)
}

/// What the schema enforces of the whole state.
pub open spec fn wf_catalog(v: CatalogView) -> bool {
    &&& unique_ids(v.users, user_id_of())
    &&& unique_ids(v.roasts, roast_id_of())
    &&& unique_ids(v.brewers, brewer_id_of())
    &&& unique_ids(v.recipes, recipe_id_of())
    &&& unique_ids(v.tags, tag_id_of())
    &&& unique_ids(v.tag_recipes, tag_recipe_id_of())
    &&& forall|i: int|
        0 <= i < v.recipes.len() ==> recipe_refs_ok(v, #[trigger] v.recipes[i])
    &&& forall|i: int|
        0 <= i < v.tag_recipes.len() ==> has_id(
            v.tags,
            tag_id_of(),
            (#[trigger] v.tag_recipes[i]).tag_id,
        ) && has_id(v.recipes, recipe_id_of(), v.tag_recipes[i].recipe_id)
    &&& forall|i: int| 0 <= i < v.recipes.len() ==> (#[trigger] v.recipes[i]).id < v.next_recipe_id
}

/// The six roast levels the migrations seed, in insertion order.
pub open spec fn seed_roast_levels() -> Seq<Seq<char>> {
    seq!["Light"@, "Dark"@, "Medium"@, "Medium-Dark"@, "Extra-Dark"@, "Extra-light"@]
}

/// The five brewer types the migrations seed, in insertion order.
pub open spec fn seed_brewer_types() -> Seq<Seq<char>> {
    seq!["Omni Dripper v2"@, "xPod"@, "Aeropress"@, "Omni Dripper v1"@, "Other"@]
}

/// The roast rows right after migration.
pub open spec fn seed_roasts() -> Seq<RoastView> {
    Seq::new(6, |i: int| RoastView { id: i + 1, level: seed_roast_levels()[i] })
}

/// The brewer rows right after migration.
pub open spec fn seed_brewers() -> Seq<BrewerView> {
    Seq::new(5, |i: int| BrewerView { id: i + 1, brewer_type: seed_brewer_types()[i] })
}

impl Catalog {
    /// Well-formedness: what the schema's constraints guarantee.
    pub open spec fn wf(&self) -> bool {
        wf_catalog(self@)
    }

    /// An empty catalog: the state before any migration has run.
    pub fn empty() -> (r: Catalog)
        ensures
            r.wf(),
            r@.users == Seq::<UserView>::empty(),
            r@.roasts == Seq::<RoastView>::empty(),
            r@.brewers == Seq::<BrewerView>::empty(),
            r@.recipes == Seq::<RecipeView>::empty(),
            r@.tags == Seq::<TagView>::empty(),
            r@.tag_recipes == Seq::<TagRecipeView>::empty(),
            r@.next_recipe_id == 1,
    {
        let r = Catalog {
            users: Vec::new(),
            roasts: Vec::new(),
            brewers: Vec::new(),
            recipes: Vec::new(),
            tags: Vec::new(),
            tag_recipes: Vec::new(),
            next_recipe_id: 1,
        };
        proof {
            assert(r@.users =~= Seq::<UserView>::empty());
            assert(r@.roasts =~= Seq::<RoastView>::empty());
            assert(r@.brewers =~= Seq::<BrewerView>::empty());
            assert(r@.recipes =~= Seq::<RecipeView>::empty());
            assert(r@.tags =~= Seq::<TagView>::empty());
            assert(r@.tag_recipes =~= Seq::<TagRecipeView>::empty());
        }
        r
    }

    /// The state the ordered migrations leave behind: one admin user, the
    /// six roast levels, the five brewer types, no tags, and one seeded
    /// recipe ("The Future") referencing user 1, brewer 1 and roast 1. The
    /// seeded timestamps are the time the migration runs, so they are not
    /// pinned here.
    pub fn seed() -> (r: Catalog)
        ensures
            r.wf(),
            r@.roasts == seed_roasts(),
            r@.brewers == seed_brewers(),
            r@.users.len() == 1,
            r@.users[0].id == 1,
            r@.users[0].email == "admin@localhost.com"@,
            r@.users[0].username == "admin"@,
            r@.recipes.len() == 1,
            r@.recipes[0].id == 1,
            r@.recipes[0].title == "The Future"@,
            r@.recipes[0].slug == "the-future"@,
            r@.recipes[0].roaster == "Black and White"@,
            r@.recipes[0].temp == "hot"@,
            r@.recipes[0].link == "https://share-h5.xbloom.com/?id=8yAUAWJktyHNIpo3vjZ6pA=="@,
            r@.recipes[0].shop_link == "https://xbloom.com/products/the-future-xbloom-exclusive"@,
            r@.recipes[0].machine == "Studio"@,
            r@.recipes[0].creator == "xbloom"@,
            r@.recipes[0].oauth_user is None,
            r@.recipes[0].user_id == 1,
            r@.recipes[0].brewer_id == 1,
            r@.recipes[0].roast_id == 1,
            r@.tags == Seq::<TagView>::empty(),
            r@.tag_recipes == Seq::<TagRecipeView>::empty(),
            r@.next_recipe_id == 2,
    {
        let now = now_timestamp();
        let mut users: Vec<User> = Vec::new();
        users.push(
            User {
                id: 1,
                email: "admin@localhost.com".to_owned(),
                username: "admin".to_owned(),
                created_at: now,
            },
        );
        let mut roasts: Vec<Roast> = Vec::new();
        roasts.push(Roast { id: 1, level: "Light".to_owned() });
        roasts.push(Roast { id: 2, level: "Dark".to_owned() });
        roasts.push(Roast { id: 3, level: "Medium".to_owned() });
        roasts.push(Roast { id: 4, level: "Medium-Dark".to_owned() });
        roasts.push(Roast { id: 5, level: "Extra-Dark".to_owned() });
        roasts.push(Roast { id: 6, level: "Extra-light".to_owned() });
        let mut brewers: Vec<Brewer> = Vec::new();
        brewers.push(Brewer { id: 1, brewer_type: "Omni Dripper v2".to_owned() });
        brewers.push(Brewer { id: 2, brewer_type: "xPod".to_owned() });
        brewers.push(Brewer { id: 3, brewer_type: "Aeropress".to_owned() });
        brewers.push(Brewer { id: 4, brewer_type: "Omni Dripper v1".to_owned() });
        brewers.push(Brewer { id: 5, brewer_type: "Other".to_owned() });
        let mut recipes: Vec<Recipe> = Vec::new();
        recipes.push(
            Recipe {
                id: 1,
                title: "The Future".to_owned(),
                slug: "the-future".to_owned(),
                roaster: "Black and White".to_owned(),
                temp: "hot".to_owned(),
                link: "https://share-h5.xbloom.com/?id=8yAUAWJktyHNIpo3vjZ6pA==".to_owned(),
                shop_link: "https://xbloom.com/products/the-future-xbloom-exclusive".to_owned(),
                machine: "Studio".to_owned(),
                creator: "xbloom".to_owned(),
                oauth_user: None,
                user_id: 1,
                brewer_id: 1,
                roast_id: 1,
                created_at: now,
            },
        );
        let r = Catalog {
            users,
            roasts,
            brewers,
            recipes,
            tags: Vec::new(),
            tag_recipes: Vec::new(),
            next_recipe_id: 2,
        };
        proof {
            assert(r@.roasts =~= seed_roasts());
            assert(r@.brewers =~= seed_brewers());
            assert(r@.tags =~= Seq::<TagView>::empty());
            assert(r@.tag_recipes =~= Seq::<TagRecipeView>::empty());
            assert(has_id(r@.users, user_id_of(), 1)) by {
                assert(r@.users[0].id == 1);
            }
            assert(has_id(r@.brewers, brewer_id_of(), 1)) by {
                assert(r@.brewers[0].id == 1);
            }
            assert(has_id(r@.roasts, roast_id_of(), 1)) by {
                assert(r@.roasts[0].id == 1);
            }
        }
        r
    }
}

} // verus!
