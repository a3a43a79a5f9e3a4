//! The query and insert operations, one per route.
//!
//! Every read takes the catalog by shared reference — it cannot write — and
//! its contract pins the returned rows exactly to a spec-level query over
//! the catalog's view. The one write, [`create_recipe`], says when it
//! succeeds, what row it appends, and that a failed insert leaves the state
//! untouched.

use vstd::prelude::*;
use vstd::utf8::is_ascii_chars;

use crate::model::{
    Brewer, PartialUser, PartialUserView, Recipe, RecipeForm, RecipeView, Roast, User, UserView,
    spec_partial_of,
};
use crate::slugs::{ascii_slug_of, derive_slug, slug_of};
use crate::store::{
    brewer_by_id, brewer_id_of, has_id, lemma_first_where_found, lemma_first_where_none,
    lemma_has_id_push, recipe_by_id, recipe_by_slug, recipe_id_of, recipe_machine_pred,
    recipe_refs_ok, recipe_roaster_pred, recipe_slug_pred, recipe_title_pred, recipes_with_machine,
    recipes_with_roaster, recipes_with_title, roast_by_id, roast_id_of, user_by_id, user_id_of,
    wf_catalog, Catalog, CatalogView,
};
use crate::strutil::{contains_str, str_eq};
use crate::clock::now_timestamp;
use crate::http::StoreFault;

verus! {

/// Lists every roast row, in store order.
pub fn get_roasts(store: &Catalog) -> (r: Vec<Roast>)
    ensures
        r.deep_view() == store@.roasts,
{
    let mut out: Vec<Roast> = Vec::new();
    let mut i: usize = 0;
    while i < store.roasts.len()
        invariant
            i <= store.roasts.len(),
            out.deep_view() == store@.roasts.take(i as int),
        decreases store.roasts.len() - i,
    {
        let ghost dv0 = out.deep_view();
        out.push(store.roasts[i].clone());
        proof {
            assert(out.deep_view() =~= dv0.push(store@.roasts[i as int]));
            assert(store@.roasts.take(i as int + 1) =~= store@.roasts.take(i as int).push(
                store@.roasts[i as int],
            ));
        }
        i += 1;
    }
    proof {
        assert(store@.roasts.take(store@.roasts.len() as int) =~= store@.roasts);
    }
    out
}

/// Fetches one roast by id; `None` is the absent marker, not an error.
pub fn get_roast_id(store: &Catalog, id: i32) -> (r: Option<Roast>)
    ensures
        r.deep_view() == roast_by_id(store@, id as int),
{
    let n = store.roasts.len();
    let mut i: usize = 0;
    while i < n
        invariant
            i <= n,
            n == store@.roasts.len(),
            forall|j: int| 0 <= j < i ==> (#[trigger] store@.roasts[j]).id != id as int,
        decreases n - i,
    {
        if store.roasts[i].id == id {
            let row = store.roasts[i].clone();
            proof {
                lemma_first_where_found(store@.roasts, crate::store::id_is(roast_id_of(), id as int), i as int);
            }
            return Some(row);
        }
        i += 1;
    }
    proof {
        lemma_first_where_none(store@.roasts, crate::store::id_is(roast_id_of(), id as int));
    }
    None
}

/// Lists every brewer row, in store order.
pub fn get_brewers(store: &Catalog) -> (r: Vec<Brewer>)
    ensures
        r.deep_view() == store@.brewers,
{
    let mut out: Vec<Brewer> = Vec::new();
    let mut i: usize = 0;
    while i < store.brewers.len()
        invariant
            i <= store.brewers.len(),
            out.deep_view() == store@.brewers.take(i as int),
        decreases store.brewers.len() - i,
    {
        let ghost dv0 = out.deep_view();
        out.push(store.brewers[i].clone());
        proof {
            assert(out.deep_view() =~= dv0.push(store@.brewers[i as int]));
            assert(store@.brewers.take(i as int + 1) =~= store@.brewers.take(i as int).push(
                store@.brewers[i as int],
            ));
        }
        i += 1;
    }
    proof {
        assert(store@.brewers.take(store@.brewers.len() as int) =~= store@.brewers);
    }
    out
}

/// Fetches one brewer by id; `None` is the absent marker, not an error.
pub fn get_brewer_id(store: &Catalog, id: i32) -> (r: Option<Brewer>)
    ensures
        r.deep_view() == brewer_by_id(store@, id as int),
{
    let n = store.brewers.len();
    let mut i: usize = 0;
    while i < n
        invariant
            i <= n,
            n == store@.brewers.len(),
            forall|j: int| 0 <= j < i ==> (#[trigger] store@.brewers[j]).id != id as int,
        decreases n - i,
    {
        if store.brewers[i].id == id {
            let row = store.brewers[i].clone();
            proof {
                lemma_first_where_found(store@.brewers, crate::store::id_is(brewer_id_of(), id as int), i as int);
            }
            return Some(row);
        }
        i += 1;
    }
    proof {
        lemma_first_where_none(store@.brewers, crate::store::id_is(brewer_id_of(), id as int));
    }
    None
}

/// Lists every user, already narrowed to the public projection. The
/// narrowing happens here, before anything is serialized, so no caller ever
/// holds a payload with an email in it.
pub fn get_users(store: &Catalog) -> (r: Vec<PartialUser>)
    ensures
        r.deep_view() == store@.users.map_values(|u: UserView| spec_partial_of(u)),
{
    let mut out: Vec<PartialUser> = Vec::new();
    let mut i: usize = 0;
    while i < store.users.len()
        invariant
            i <= store.users.len(),
            out.deep_view() == store@.users.take(i as int).map_values(
                |u: UserView| spec_partial_of(u),
            ),
        decreases store.users.len() - i,
    {
        let ghost dv0 = out.deep_view();
        out.push(PartialUser::from_user(&store.users[i]));
        proof {
            assert(out.deep_view() =~= dv0.push(spec_partial_of(store@.users[i as int])));
            assert(store@.users.take(i as int + 1).map_values(
                |u: UserView| spec_partial_of(u),
            ) =~= store@.users.take(i as int).map_values(|u: UserView| spec_partial_of(u)).push(
                spec_partial_of(store@.users[i as int]),
            ));
        }
        i += 1;
    }
    proof {
        assert(store@.users.take(store@.users.len() as int) =~= store@.users);
    }
    out
}

/// Fetches one user by id, already narrowed to the public projection;
/// `None` is the absent marker, not an error.
pub fn get_user_id(store: &Catalog, id: i32) -> (r: Option<PartialUser>)
    ensures
        r.deep_view() == match user_by_id(store@, id as int) {
            Some(u) => Some(spec_partial_of(u)),
            None => None::<PartialUserView>,
        },
{
    let n = store.users.len();
    let mut i: usize = 0;
    while i < n
        invariant
            i <= n,
            n == store@.users.len(),
            forall|j: int| 0 <= j < i ==> (#[trigger] store@.users[j]).id != id as int,
        decreases n - i,
    {
        if store.users[i].id == id {
            let row = PartialUser::from_user(&store.users[i]);
            proof {
                lemma_first_where_found(store@.users, crate::store::id_is(user_id_of(), id as int), i as int);
            }
            return Some(row);
        }
        i += 1;
    }
    proof {
        lemma_first_where_none(store@.users, crate::store::id_is(user_id_of(), id as int));
    }
    None
}

/// Lists every recipe row, in store order.
pub fn get_recipes(store: &Catalog) -> (r: Vec<Recipe>)
    ensures
        r.deep_view() == store@.recipes,
{
    let mut out: Vec<Recipe> = Vec::new();
    let mut i: usize = 0;
    while i < store.recipes.len()
        invariant
            i <= store.recipes.len(),
            out.deep_view() == store@.recipes.take(i as int),
        decreases store.recipes.len() - i,
    {
        let ghost dv0 = out.deep_view();
        out.push(store.recipes[i].clone());
        proof {
            assert(out.deep_view() =~= dv0.push(store@.recipes[i as int]));
            assert(store@.recipes.take(i as int + 1) =~= store@.recipes.take(i as int).push(
                store@.recipes[i as int],
            ));
        }
        i += 1;
    }
    proof {
        assert(store@.recipes.take(store@.recipes.len() as int) =~= store@.recipes);
    }
    out
}

/// Fetches one recipe by id; `None` is the absent marker, not an error.
pub fn get_recipe_id(store: &Catalog, id: i32) -> (r: Option<Recipe>)
    ensures
        r.deep_view() == recipe_by_id(store@, id as int),
{
    let n = store.recipes.len();
    let mut i: usize = 0;
    while i < n
        invariant
            i <= n,
            n == store@.recipes.len(),
            forall|j: int| 0 <= j < i ==> (#[trigger] store@.recipes[j]).id != id as int,
        decreases n - i,
    {
        if store.recipes[i].id == id {
            let row = store.recipes[i].clone();
            proof {
                lemma_first_where_found(
                    store@.recipes,
                    crate::store::id_is(recipe_id_of(), id as int),
                    i as int,
                );
            }
            return Some(row);
        }
        i += 1;
    }
    proof {
        lemma_first_where_none(store@.recipes, crate::store::id_is(recipe_id_of(), id as int));
    }
    None
}

/// Fetches the first recipe whose slug matches exactly, in store order.
/// Slugs are not unique, so with duplicates the store-order first row wins;
/// `None` is the absent marker, not an error.
pub fn get_recipe_slug(store: &Catalog, slug: &str) -> (r: Option<Recipe>)
    ensures
        r.deep_view() == recipe_by_slug(store@, slug@),
{
    let n = store.recipes.len();
    let mut i: usize = 0;
    while i < n
        invariant
            i <= n,
            n == store@.recipes.len(),
            forall|j: int| 0 <= j < i ==> (#[trigger] store@.recipes[j]).slug != slug@,
        decreases n - i,
    {
        if str_eq(store.recipes[i].slug.as_str(), slug) {
            let row = store.recipes[i].clone();
            proof {
                lemma_first_where_found(store@.recipes, recipe_slug_pred(slug@), i as int);
            }
            return Some(row);
        }
        i += 1;
    }
    proof {
        lemma_first_where_none(store@.recipes, recipe_slug_pred(slug@));
    }
    None
}

/// Lists the recipes whose title contains `title`, in store order.
pub fn get_recipe_title(store: &Catalog, title: &str) -> (r: Vec<Recipe>)
    ensures
        r.deep_view() == recipes_with_title(store@, title@),
{
    let ghost p = recipe_title_pred(title@);
    let mut out: Vec<Recipe> = Vec::new();
    let mut i: usize = 0;
    proof {
        assert(store@.recipes.take(0) =~= Seq::<RecipeView>::empty());
        assert(out.deep_view() =~= Seq::<RecipeView>::empty());
        assert(store@.recipes.take(0).filter(p) =~= Seq::<RecipeView>::empty()) by {
            reveal(Seq::filter);
        }
    }
    while i < store.recipes.len()
        invariant
            i <= store.recipes.len(),
            p == recipe_title_pred(title@),
            out.deep_view() == store@.recipes.take(i as int).filter(p),
        decreases store.recipes.len() - i,
    {
        let ghost pre = store@.recipes.take(i as int);
        let ghost cur = store@.recipes.take(i as int + 1);
        proof {
            reveal(Seq::filter);
            assert(cur.drop_last() =~= pre);
            assert(cur.last() == store@.recipes[i as int]);
        }
        if contains_str(store.recipes[i].title.as_str(), title) {
            let ghost dv0 = out.deep_view();
            out.push(store.recipes[i].clone());
            proof {
                assert(out.deep_view() =~= dv0.push(store@.recipes[i as int]));
                assert(cur.filter(p) == pre.filter(p).push(cur.last()));
            }
        } else {
            proof {
                assert(cur.filter(p) == pre.filter(p));
            }
        }
        i += 1;
    }
    proof {
        assert(store@.recipes.take(store@.recipes.len() as int) =~= store@.recipes);
    }
    out
}

/// Lists the recipes whose roaster matches exactly, in store order.
pub fn get_recipes_roaster(store: &Catalog, roaster: &str) -> (r: Vec<Recipe>)
    ensures
        r.deep_view() == recipes_with_roaster(store@, roaster@),
{
    let ghost p = recipe_roaster_pred(roaster@);
    let mut out: Vec<Recipe> = Vec::new();
    let mut i: usize = 0;
    proof {
        assert(store@.recipes.take(0) =~= Seq::<RecipeView>::empty());
        assert(out.deep_view() =~= Seq::<RecipeView>::empty());
        assert(store@.recipes.take(0).filter(p) =~= Seq::<RecipeView>::empty()) by {
            reveal(Seq::filter);
        }
    }
    while i < store.recipes.len()
        invariant
            i <= store.recipes.len(),
            p == recipe_roaster_pred(roaster@),
            out.deep_view() == store@.recipes.take(i as int).filter(p),
        decreases store.recipes.len() - i,
    {
        let ghost pre = store@.recipes.take(i as int);
        let ghost cur = store@.recipes.take(i as int + 1);
        proof {
            reveal(Seq::filter);
            assert(cur.drop_last() =~= pre);
            assert(cur.last() == store@.recipes[i as int]);
        }
        if str_eq(store.recipes[i].roaster.as_str(), roaster) {
            let ghost dv0 = out.deep_view();
            out.push(store.recipes[i].clone());
            proof {
                assert(out.deep_view() =~= dv0.push(store@.recipes[i as int]));
                assert(cur.filter(p) == pre.filter(p).push(cur.last()));
            }
        } else {
            proof {
                assert(cur.filter(p) == pre.filter(p));
            }
        }
        i += 1;
    }
    proof {
        assert(store@.recipes.take(store@.recipes.len() as int) =~= store@.recipes);
    }
    out
}

/// Lists the recipes whose machine matches exactly, in store order.
pub fn get_recipes_machine(store: &Catalog, machine: &str) -> (r: Vec<Recipe>)
    ensures
        r.deep_view() == recipes_with_machine(store@, machine@),
{
    let ghost p = recipe_machine_pred(machine@);
    let mut out: Vec<Recipe> = Vec::new();
    let mut i: usize = 0;
    proof {
        assert(store@.recipes.take(0) =~= Seq::<RecipeView>::empty());
        assert(out.deep_view() =~= Seq::<RecipeView>::empty());
        assert(store@.recipes.take(0).filter(p) =~= Seq::<RecipeView>::empty()) by {
            reveal(Seq::filter);
        }
    }
    while i < store.recipes.len()
        invariant
            i <= store.recipes.len(),
            p == recipe_machine_pred(machine@),
            out.deep_view() == store@.recipes.take(i as int).filter(p),
        decreases store.recipes.len() - i,
    {
        let ghost pre = store@.recipes.take(i as int);
        let ghost cur = store@.recipes.take(i as int + 1);
        proof {
            reveal(Seq::filter);
            assert(cur.drop_last() =~= pre);
            assert(cur.last() == store@.recipes[i as int]);
        }
        if str_eq(store.recipes[i].machine.as_str(), machine) {
            let ghost dv0 = out.deep_view();
            out.push(store.recipes[i].clone());
            proof {
                assert(out.deep_view() =~= dv0.push(store@.recipes[i as int]));
                assert(cur.filter(p) == pre.filter(p).push(cur.last()));
            }
        } else {
            proof {
                assert(cur.filter(p) == pre.filter(p));
            }
        }
        i += 1;
    }
    proof {
        assert(store@.recipes.take(store@.recipes.len() as int) =~= store@.recipes);
    }
    out
}

/// Whether some user row carries `id`.
fn user_exists(rows: &Vec<User>, id: i32) -> (r: bool)
    ensures
        r == has_id(rows.deep_view(), user_id_of(), id as int),
{
    let n = rows.len();
    let mut i: usize = 0;
    while i < n
        invariant
            i <= n,
            n == rows.deep_view().len(),
            forall|j: int| 0 <= j < i ==> (#[trigger] rows.deep_view()[j]).id != id as int,
        decreases n - i,
    {
        if rows[i].id == id {
            proof {
                assert(rows.deep_view()[i as int].id == id as int);
            }
            return true;
        }
        i += 1;
    }
    false
}

/// Whether some brewer row carries `id`.
fn brewer_exists(rows: &Vec<Brewer>, id: i32) -> (r: bool)
    ensures
        r == has_id(rows.deep_view(), brewer_id_of(), id as int),
{
    let n = rows.len();
    let mut i: usize = 0;
    while i < n
        invariant
            i <= n,
            n == rows.deep_view().len(),
            forall|j: int| 0 <= j < i ==> (#[trigger] rows.deep_view()[j]).id != id as int,
        decreases n - i,
    {
        if rows[i].id == id {
            proof {
                assert(rows.deep_view()[i as int].id == id as int);
            }
            return true;
        }
        i += 1;
    }
    false
}

/// Whether some roast row carries `id`.
fn roast_exists(rows: &Vec<Roast>, id: i32) -> (r: bool)
    ensures
        r == has_id(rows.deep_view(), roast_id_of(), id as int),
{
    let n = rows.len();
    let mut i: usize = 0;
    while i < n
        invariant
            i <= n,
            n == rows.deep_view().len(),
            forall|j: int| 0 <= j < i ==> (#[trigger] rows.deep_view()[j]).id != id as int,
        decreases n - i,
    {
        if rows[i].id == id {
            proof {
                assert(rows.deep_view()[i as int].id == id as int);
            }
            return true;
        }
        i += 1;
    }
    false
}

/// When an insert succeeds: the referenced user, brewer and roast exist,
/// and an id is left for the new row. On anything else the store refuses
/// the insert.
pub open spec fn create_ok(v: CatalogView, form: crate::model::RecipeFormView) -> bool {
    &&& has_id(v.users, user_id_of(), form.user_id)
    &&& has_id(v.brewers, brewer_id_of(), form.brewer_id)
    &&& has_id(v.roasts, roast_id_of(), form.roast_id)
    &&& v.next_recipe_id < 0x7fff_ffff
}

/// Creates one recipe: derives the slug from the title, stamps the
/// creation time when the caller left it out, and appends the new row.
/// Succeeds exactly when [`create_ok`] holds of the state and the form; a
/// refused insert is a store fault and leaves the state untouched.
pub fn create_recipe(store: &mut Catalog, form: RecipeForm) -> (r: Result<Recipe, StoreFault>)
    requires
        old(store).wf(),
    ensures
        final(store).wf(),
        r is Ok <==> create_ok(old(store)@, form@),
        match r {
            Ok(rec) => {
                &&& rec@.id == old(store)@.next_recipe_id
                &&& rec@.title == form@.title
                &&& rec@.slug == slug_of(form@.title)
                &&& (is_ascii_chars(form@.title) ==> rec@.slug == ascii_slug_of(form@.title))
                &&& rec@.roaster == form@.roaster
                &&& rec@.temp == form@.temp
                &&& rec@.link == form@.link
                &&& rec@.shop_link == form@.shop_link
                &&& rec@.machine == form@.machine
                &&& rec@.creator == form@.creator
                &&& rec@.oauth_user == form@.oauth_user
                &&& rec@.user_id == form@.user_id
                &&& rec@.brewer_id == form@.brewer_id
                &&& rec@.roast_id == form@.roast_id
                &&& (form@.created_at matches Some(t) ==> rec@.created_at == t)
                &&& final(store)@.recipes == old(store)@.recipes.push(rec@)
                &&& final(store)@.users == old(store)@.users
                &&& final(store)@.roasts == old(store)@.roasts
                &&& final(store)@.brewers == old(store)@.brewers
                &&& final(store)@.tags == old(store)@.tags
                &&& final(store)@.tag_recipes == old(store)@.tag_recipes
                &&& final(store)@.next_recipe_id == old(store)@.next_recipe_id + 1
            },
            Err(_) => final(store)@ == old(store)@,
        },
{
    let ok_user = user_exists(&store.users, form.user_id);
    let ok_brewer = brewer_exists(&store.brewers, form.brewer_id);
    let ok_roast = roast_exists(&store.roasts, form.roast_id);
    if !ok_user || !ok_brewer || !ok_roast {
        return Err(
            StoreFault { message: "insert refused: foreign key constraint violated".to_owned() },
        );
    }
    if store.next_recipe_id >= 0x7fff_ffff {
        return Err(StoreFault { message: "insert refused: recipe id space exhausted".to_owned() });
    }
    let slug = derive_slug(form.title.as_str());
    let created_at = match form.created_at {
        Some(t) => t,
        None => now_timestamp(),
    };
    let id = store.next_recipe_id;
    let rec = Recipe {
        id,
        title: form.title,
        slug,
        roaster: form.roaster,
        temp: form.temp,
        link: form.link,
        shop_link: form.shop_link,
        machine: form.machine,
        creator: form.creator,
        oauth_user: form.oauth_user,
        user_id: form.user_id,
        brewer_id: form.brewer_id,
        roast_id: form.roast_id,
        created_at,
    };
    let row = rec.clone();
    let ghost v0 = store@;
    store.recipes.push(rec);
    store.next_recipe_id = id + 1;
    proof {
        let v1 = store@;
        assert(v1.recipes =~= v0.recipes.push(row@));
        assert(v1.users =~= v0.users);
        assert(v1.roasts =~= v0.roasts);
        assert(v1.brewers =~= v0.brewers);
        assert(v1.tags =~= v0.tags);
        assert(v1.tag_recipes =~= v0.tag_recipes);
        lemma_create_preserves_wf(v0, v1, row@);
    }
    Ok(row)
}

/// Appending a well-referenced recipe row under the next id, and advancing
/// the id counter, keeps the catalog well-formed.
proof fn lemma_create_preserves_wf(v0: CatalogView, v1: CatalogView, rec: RecipeView)
    requires
        wf_catalog(v0),
        recipe_refs_ok(v0, rec),
        rec.id == v0.next_recipe_id,
        v1.recipes == v0.recipes.push(rec),
        v1.users == v0.users,
        v1.roasts == v0.roasts,
        v1.brewers == v0.brewers,
        v1.tags == v0.tags,
        v1.tag_recipes == v0.tag_recipes,
        v1.next_recipe_id == v0.next_recipe_id + 1,
    ensures
        wf_catalog(v1),
{
    let n = v0.recipes.len() as int;
    assert forall|i: int, j: int|
        0 <= i < j < v1.recipes.len() implies recipe_id_of()(#[trigger] v1.recipes[i])
        != recipe_id_of()(#[trigger] v1.recipes[j]) by {
        assert(v1.recipes[i] == v0.recipes[i]);
        if j < n {
            assert(v1.recipes[j] == v0.recipes[j]);
        } else {
            assert(v1.recipes[j] == rec);
            assert(v0.recipes[i].id < v0.next_recipe_id);
        }
    }
    assert forall|i: int| 0 <= i < v1.recipes.len() implies recipe_refs_ok(
        v1,
        #[trigger] v1.recipes[i],
    ) by {
        if i < n {
            assert(v1.recipes[i] == v0.recipes[i]);
            assert(recipe_refs_ok(v0, v0.recipes[i]));
        } else {
            assert(v1.recipes[i] == rec);
        }
    }
    assert forall|i: int| 0 <= i < v1.tag_recipes.len() implies has_id(
        v1.tags,
        crate::store::tag_id_of(),
        (#[trigger] v1.tag_recipes[i]).tag_id,
    ) && has_id(v1.recipes, recipe_id_of(), v1.tag_recipes[i].recipe_id) by {
        assert(v1.tag_recipes[i] == v0.tag_recipes[i]);
        lemma_has_id_push(v0.recipes, recipe_id_of(), v0.tag_recipes[i].recipe_id, rec);
    }
    assert forall|i: int|
        0 <= i < v1.recipes.len() implies (#[trigger] v1.recipes[i]).id < v1.next_recipe_id by {
        if i < n {
            assert(v1.recipes[i] == v0.recipes[i]);
        } else {
            assert(v1.recipes[i] == rec);
        }
    }
}

/// Law: listing is deterministic in the catalog state, so two list-alls
/// with no intervening write return the same rows. Each call's contract
/// pins its result to the state's rows; reads take the catalog by shared
/// reference and cannot write.
pub proof fn lemma_list_all_idempotent<R>(rows: Seq<R>, r1: Seq<R>, r2: Seq<R>)
    requires
        r1 == rows,
        r2 == rows,
    ensures
        r1 == r2,
{
}

} // verus!
