//! The entity rows of the catalog, as plain data.
//!
//! Each executable struct mirrors one table row. Timestamps are held as
//! seconds since the Unix epoch; the process that speaks to a real store
//! converts them to its own date-time type at the boundary. Every struct has
//! a mathematical view that the contracts of the query layer speak of.

use vstd::prelude::*;

verus! {

/// A roast level, e.g. "Light" or "Medium-Dark".
#[derive(Debug, PartialEq, Eq)]
pub struct Roast {
    pub id: i32,
    pub level: String,
}

/// The mathematical value of a [`Roast`].
pub struct RoastView {
    pub id: int,
    pub level: Seq<char>,
}

/// A brewing device, e.g. "Aeropress".
#[derive(Debug, PartialEq, Eq)]
pub struct Brewer {
    pub id: i32,
    pub brewer_type: String,
}

/// The mathematical value of a [`Brewer`].
pub struct BrewerView {
    pub id: int,
    pub brewer_type: Seq<char>,
}

/// A registered user, as the store holds it. The email is never serialized
/// to a client; see [`PartialUser`].
#[derive(Debug, PartialEq, Eq)]
pub struct User {
    pub id: i32,
    pub email: String,
    pub username: String,
    pub created_at: i64,
}

/// The mathematical value of a [`User`].
pub struct UserView {
    pub id: int,
    pub email: Seq<char>,
    pub username: Seq<char>,
    pub created_at: int,
}

/// The only representation of a user that leaves the service: id and
/// username, nothing else. Holding no email field, it cannot carry one.
#[derive(Debug, PartialEq, Eq)]
pub struct PartialUser {
    pub id: i32,
    pub username: String,
}

/// The mathematical value of a [`PartialUser`].
pub struct PartialUserView {
    pub id: int,
    pub username: Seq<char>,
}

/// A free-form tag.
#[derive(Debug, PartialEq, Eq)]
pub struct Tag {
    pub id: i32,
    pub name: String,
}

/// The mathematical value of a [`Tag`].
pub struct TagView {
    pub id: int,
    pub name: Seq<char>,
}

/// One association between a tag and a recipe.
#[derive(Debug, PartialEq, Eq, Clone, Copy)]
pub struct TagRecipe {
    pub id: i32,
    pub tag_id: i32,
    pub recipe_id: i32,
}

/// The mathematical value of a [`TagRecipe`].
pub struct TagRecipeView {
    pub id: int,
    pub tag_id: int,
    pub recipe_id: int,
}

/// A brewing recipe row. `slug` is derived from `title` at creation and is
/// not settable by callers; `creator` is the provenance label of the recipe
/// (the column the schema calls "type"); `oauth_user` identifies an
/// externally authenticated creator, when there is one.
#[derive(Debug, PartialEq, Eq)]
pub struct Recipe {
    pub id: i32,
    pub title: String,
    pub slug: String,
    pub roaster: String,
    pub temp: String,
    pub link: String,
    pub shop_link: String,
    pub machine: String,
    pub creator: String,
    pub oauth_user: Option<String>,
    pub user_id: i32,
    pub brewer_id: i32,
    pub roast_id: i32,
    pub created_at: i64,
}

/// The mathematical value of a [`Recipe`].
pub struct RecipeView {
    pub id: int,
    pub title: Seq<char>,
    pub slug: Seq<char>,
    pub roaster: Seq<char>,
    pub temp: Seq<char>,
    pub link: Seq<char>,
    pub shop_link: Seq<char>,
    pub machine: Seq<char>,
    pub creator: Seq<char>,
    pub oauth_user: Option<Seq<char>>,
    pub user_id: int,
    pub brewer_id: int,
    pub roast_id: int,
    pub created_at: int,
}

/// What a caller supplies to create a recipe: every recipe attribute except
/// the generated id and the derived slug. A missing `created_at` is stamped
/// with the current time at creation.
#[derive(Debug, PartialEq, Eq)]
pub struct RecipeForm {
    pub title: String,
    pub roaster: String,
    pub temp: String,
    pub link: String,
    pub shop_link: String,
    pub machine: String,
    pub creator: String,
    pub oauth_user: Option<String>,
    pub user_id: i32,
    pub brewer_id: i32,
    pub roast_id: i32,
    pub created_at: Option<i64>,
}

/// The mathematical value of a [`RecipeForm`].
pub struct RecipeFormView {
    pub title: Seq<char>,
    pub roaster: Seq<char>,
    pub temp: Seq<char>,
    pub link: Seq<char>,
    pub shop_link: Seq<char>,
    pub machine: Seq<char>,
    pub creator: Seq<char>,
    pub oauth_user: Option<Seq<char>>,
    pub user_id: int,
    pub brewer_id: int,
    pub roast_id: int,
    pub created_at: Option<int>,
}

impl View for Roast {
    type V = RoastView;

    open spec fn view(&self) -> RoastView {
        RoastView { id: self.id as int, level: self.level@ }
    }
}

impl DeepView for Roast {
    type V = RoastView;

    open spec fn deep_view(&self) -> RoastView {
        self@
    }
}

impl Clone for Roast {
    fn clone(&self) -> (r: Self)
        ensures
            r@ == self@,
    {
        Roast { id: self.id, level: self.level.clone() }
    }
}

impl View for Brewer {
    type V = BrewerView;

    open spec fn view(&self) -> BrewerView {
        BrewerView { id: self.id as int, brewer_type: self.brewer_type@ }
    }
}

impl DeepView for Brewer {
    type V = BrewerView;

    open spec fn deep_view(&self) -> BrewerView {
        self@
    }
}

impl Clone for Brewer {
    fn clone(&self) -> (r: Self)
        ensures
            r@ == self@,
    {
        Brewer { id: self.id, brewer_type: self.brewer_type.clone() }
    }
}

impl View for User {
    type V = UserView;

    open spec fn view(&self) -> UserView {
        UserView {
            id: self.id as int,
            email: self.email@,
            username: self.username@,
            created_at: self.created_at as int,
        }
    }
}

impl DeepView for User {
    type V = UserView;

    open spec fn deep_view(&self) -> UserView {
        self@
    }
}

impl Clone for User {
    fn clone(&self) -> (r: Self)
        ensures
            r@ == self@,
    {
        User {
            id: self.id,
            email: self.email.clone(),
            username: self.username.clone(),
            created_at: self.created_at,
        }
    }
}

impl View for PartialUser {
    type V = PartialUserView;

    open spec fn view(&self) -> PartialUserView {
        PartialUserView { id: self.id as int, username: self.username@ }
    }
}

impl DeepView for PartialUser {
    type V = PartialUserView;

    open spec fn deep_view(&self) -> PartialUserView {
        self@
    }
}

impl Clone for PartialUser {
    fn clone(&self) -> (r: Self)
        ensures
            r@ == self@,
    {
        PartialUser { id: self.id, username: self.username.clone() }
    }
}

impl View for Tag {
    type V = TagView;

    open spec fn view(&self) -> TagView {
        TagView { id: self.id as int, name: self.name@ }
    }
}

impl DeepView for Tag {
    type V = TagView;

    open spec fn deep_view(&self) -> TagView {
        self@
    }
}

impl Clone for Tag {
    fn clone(&self) -> (r: Self)
        ensures
            r@ == self@,
    {
        Tag { id: self.id, name: self.name.clone() }
    }
}

impl View for TagRecipe {
    type V = TagRecipeView;

    open spec fn view(&self) -> TagRecipeView {
        TagRecipeView {
            id: self.id as int,
            tag_id: self.tag_id as int,
            recipe_id: self.recipe_id as int,
        }
    }
}

impl DeepView for TagRecipe {
    type V = TagRecipeView;

    open spec fn deep_view(&self) -> TagRecipeView {
        self@
    }
}

impl View for Recipe {
    type V = RecipeView;

    open spec fn view(&self) -> RecipeView {
        RecipeView {
            id: self.id as int,
            title: self.title@,
            slug: self.slug@,
            roaster: self.roaster@,
            temp: self.temp@,
            link: self.link@,
            shop_link: self.shop_link@,
            machine: self.machine@,
            creator: self.creator@,
            oauth_user: self.oauth_user.deep_view(),
            user_id: self.user_id as int,
            brewer_id: self.brewer_id as int,
            roast_id: self.roast_id as int,
            created_at: self.created_at as int,
        }
    }
}

impl DeepView for Recipe {
    type V = RecipeView;

    open spec fn deep_view(&self) -> RecipeView {
        self@
    }
}

impl Clone for Recipe {
    fn clone(&self) -> (r: Self)
        ensures
            r@ == self@,
    {
        let oauth_user = match &self.oauth_user {
            Some(s) => Some(s.clone()),
            None => None,
        };
        let r = Recipe {
            id: self.id,
            title: self.title.clone(),
            slug: self.slug.clone(),
            roaster: self.roaster.clone(),
            temp: self.temp.clone(),
            link: self.link.clone(),
            shop_link: self.shop_link.clone(),
            machine: self.machine.clone(),
            creator: self.creator.clone(),
            oauth_user,
            user_id: self.user_id,
            brewer_id: self.brewer_id,
            roast_id: self.roast_id,
            created_at: self.created_at,
        };
        r
    }
}

impl View for RecipeForm {
    type V = RecipeFormView;

    open spec fn view(&self) -> RecipeFormView {
        RecipeFormView {
            title: self.title@,
            roaster: self.roaster@,
            temp: self.temp@,
            link: self.link@,
            shop_link: self.shop_link@,
            machine: self.machine@,
            creator: self.creator@,
            oauth_user: self.oauth_user.deep_view(),
            user_id: self.user_id as int,
            brewer_id: self.brewer_id as int,
            roast_id: self.roast_id as int,
            created_at: match self.created_at {
                Some(t) => Some(t as int),
                None => None,
            },
        }
    }
}

impl DeepView for RecipeForm {
    type V = RecipeFormView;

    open spec fn deep_view(&self) -> RecipeFormView {
        self@
    }
}

/// The projection that the user endpoints apply before anything is
/// serialized: id and username survive, the email does not.
pub open spec fn spec_partial_of(u: UserView) -> PartialUserView {
    PartialUserView { id: u.id, username: u.username }
}

impl PartialUser {
    /// Narrows a stored user row to its public projection.
    pub fn from_user(u: &User) -> (r: PartialUser)
        ensures
            r@ == spec_partial_of(u@),
    {
        PartialUser { id: u.id, username: u.username.clone() }
    }
}

/// Law: the public projection of a user is oblivious to the email column.
/// Two rows that agree on id and username project to the same value,
/// whatever their emails (or creation times) are — so no input can make an
/// email reach the projected payload.
pub proof fn lemma_partial_user_hides_email(u1: UserView, u2: UserView)
    requires
        u1.id == u2.id,
        u1.username == u2.username,
    ensures
        spec_partial_of(u1) == spec_partial_of(u2),
{
}

} // verus!
