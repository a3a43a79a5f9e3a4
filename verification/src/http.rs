//! The transport boundary: request routing, reply tags, and the one place
//! where a tag becomes a status code.

use vstd::prelude::*;

use crate::store::{by_id, lemma_first_where_none};
use crate::strutil::{int_of_str, is_i32_str, parse_i32, split_path, split_slash, str_eq};

verus! {

/// A failure raised by the store: connectivity, a constraint violation, a
/// malformed query. It carries the raw description and nothing finer.
#[derive(Debug, PartialEq, Eq)]
pub struct StoreFault {
    pub message: String,
}

impl View for StoreFault {
    type V = Seq<char>;

    open spec fn view(&self) -> Seq<char> {
        self.message@
    }
}

impl Clone for StoreFault {
    fn clone(&self) -> (r: Self)
        ensures
            r@ == self@,
    {
        StoreFault { message: self.message.clone() }
    }
}

/// What one operation came to, tagged: a payload, the absent marker for a
/// lookup that found no row, a store fault, an elapsed deadline, or no
/// matching route. The mapping of tags to status codes lives in
/// [`status_of`] alone.
pub enum Reply<T> {
    Payload(T),
    Absent,
    Fault(StoreFault),
    TimedOut,
    NoRoute,
}

/// The status code each tag maps to: a payload and the absent marker are
/// both a success, a store fault is a server fault, an elapsed deadline is
/// a request timeout, and an unmatched route is not-found.
pub open spec fn spec_status<T>(r: Reply<T>) -> u16 {
    match r {
        Reply::Payload(_) => 200,
        Reply::Absent => 200,
        Reply::Fault(_) => 500,
        Reply::TimedOut => 408,
        Reply::NoRoute => 404,
    }
}

/// The boundary translator: the one place a reply tag becomes a
/// transport-level status code.
pub fn status_of<T>(r: &Reply<T>) -> (s: u16)
    ensures
        s == spec_status(*r),
{
    match r {
        Reply::Payload(_) => 200,
        Reply::Absent => 200,
        Reply::Fault(_) => 500,
        Reply::TimedOut => 408,
        Reply::NoRoute => 404,
    }
}

/// Tags a lookup's result: a found row is a payload, a missing row is the
/// absent marker — never a fault.
pub fn reply_of_row<T>(row: Option<T>) -> (r: Reply<T>)
    ensures
        match row {
            Some(t) => r == Reply::Payload(t),
            None => r == Reply::<T>::Absent,
        },
{
    match row {
        Some(t) => Reply::Payload(t),
        None => Reply::Absent,
    }
}

/// Tags an insert's result: the created row, or the store's fault.
pub fn reply_of_created<T>(res: Result<T, StoreFault>) -> (r: Reply<T>)
    ensures
        match res {
            Ok(t) => r == Reply::Payload(t),
            Err(f) => r == Reply::<T>::Fault(f),
        },
{
    match res {
        Ok(t) => Reply::Payload(t),
        Err(f) => Reply::Fault(f),
    }
}

/// Turns a store failure's description into the uniform server-fault
/// response: status 500 and the raw description as the body.
pub fn internal_error(err: String) -> (r: (u16, String))
    ensures
        r.0 == 500,
        r.1@ == err@,
{
    (500, err)
}

/// Law: an id lookup on rows none of which carries the id yields the
/// absent marker, and the absent marker maps to a success status — a
/// missing row is never an error.
pub proof fn lemma_missing_id_is_success<R>(rows: Seq<R>, id_of: spec_fn(R) -> int, id: int)
    requires
        forall|i: int| 0 <= i < rows.len() ==> id_of(#[trigger] rows[i]) != id,
    ensures
        by_id(rows, id_of, id) is None,
        spec_status(Reply::<R>::Absent) == 200,
{
    let pred = crate::store::id_is(id_of, id);
    assert forall|i: int| 0 <= i < rows.len() implies !pred(#[trigger] rows[i]) by {
        assert(id_of(rows[i]) != id);
    }
    lemma_first_where_none(rows, pred);
}

/// One parsed request: which operation a method and path resolve to, with
/// its typed parameters.
pub enum ApiRequest {
    Health,
    ListRoasts,
    RoastById(i32),
    ListBrewers,
    BrewerById(i32),
    ListUsers,
    UserById(i32),
    ListRecipes,
    RecipeById(i32),
    RecipeBySlug(String),
    RecipesByTitle(String),
    RecipesByRoaster(String),
    RecipesByMachine(String),
    CreateRecipe,
    NoRoute,
}

/// The mathematical value of an [`ApiRequest`].
pub enum ApiRequestView {
    Health,
    ListRoasts,
    RoastById(int),
    ListBrewers,
    BrewerById(int),
    ListUsers,
    UserById(int),
    ListRecipes,
    RecipeById(int),
    RecipeBySlug(Seq<char>),
    RecipesByTitle(Seq<char>),
    RecipesByRoaster(Seq<char>),
    RecipesByMachine(Seq<char>),
    CreateRecipe,
    NoRoute,
}

impl View for ApiRequest {
    type V = ApiRequestView;

    open spec fn view(&self) -> ApiRequestView {
        match self {
            ApiRequest::Health => ApiRequestView::Health,
            ApiRequest::ListRoasts => ApiRequestView::ListRoasts,
            ApiRequest::RoastById(id) => ApiRequestView::RoastById(*id as int),
            ApiRequest::ListBrewers => ApiRequestView::ListBrewers,
            ApiRequest::BrewerById(id) => ApiRequestView::BrewerById(*id as int),
            ApiRequest::ListUsers => ApiRequestView::ListUsers,
            ApiRequest::UserById(id) => ApiRequestView::UserById(*id as int),
            ApiRequest::ListRecipes => ApiRequestView::ListRecipes,
            ApiRequest::RecipeById(id) => ApiRequestView::RecipeById(*id as int),
            ApiRequest::RecipeBySlug(s) => ApiRequestView::RecipeBySlug(s@),
            ApiRequest::RecipesByTitle(s) => ApiRequestView::RecipesByTitle(s@),
            ApiRequest::RecipesByRoaster(s) => ApiRequestView::RecipesByRoaster(s@),
            ApiRequest::RecipesByMachine(s) => ApiRequestView::RecipesByMachine(s@),
            ApiRequest::CreateRecipe => ApiRequestView::CreateRecipe,
            ApiRequest::NoRoute => ApiRequestView::NoRoute,
        }
    }
}

/// The route grammar: which request a method and path resolve to. A path
/// is read as its `/`-separated segments; an id segment must be a decimal
/// that fits an `i32` or the path matches nothing; a GET of the
/// create-recipe path matches nothing, as the router accepts only POST
/// there; anything unmatched is [`ApiRequestView::NoRoute`], answered with
/// the not-found status.
pub open spec fn spec_route(method: Seq<char>, path: Seq<char>) -> ApiRequestView {
    let segs = split_slash(path);
    if method == "GET"@ {
        if path == "/"@ {
            ApiRequestView::Health
        } else if segs.len() == 3 && segs[0] == ""@ && segs[1] == "api"@ {
            if segs[2] == "roasts"@ {
                ApiRequestView::ListRoasts
            } else if segs[2] == "brewers"@ {
                ApiRequestView::ListBrewers
            } else if segs[2] == "users"@ {
                ApiRequestView::ListUsers
            } else if segs[2] == "recipes"@ {
                ApiRequestView::ListRecipes
            } else {
                ApiRequestView::NoRoute
            }
        } else if segs.len() == 4 && segs[0] == ""@ && segs[1] == "api"@ {
            if segs[2] == "roast"@ {
                if is_i32_str(segs[3]) {
                    ApiRequestView::RoastById(int_of_str(segs[3]))
                } else {
                    ApiRequestView::NoRoute
                }
            } else if segs[2] == "brewer"@ {
                if is_i32_str(segs[3]) {
                    ApiRequestView::BrewerById(int_of_str(segs[3]))
                } else {
                    ApiRequestView::NoRoute
                }
            } else if segs[2] == "user"@ {
                if is_i32_str(segs[3]) {
                    ApiRequestView::UserById(int_of_str(segs[3]))
                } else {
                    ApiRequestView::NoRoute
                }
            } else if segs[2] == "recipe"@ {
                if segs[3] == "create"@ {
                    ApiRequestView::NoRoute
                } else {
                    ApiRequestView::RecipeBySlug(segs[3])
                }
            } else {
                ApiRequestView::NoRoute
            }
        } else if segs.len() == 5 && segs[0] == ""@ && segs[1] == "api"@ {
            if segs[2] == "recipe"@ && segs[3] == "id"@ {
                if is_i32_str(segs[4]) {
                    ApiRequestView::RecipeById(int_of_str(segs[4]))
                } else {
                    ApiRequestView::NoRoute
                }
            } else if segs[2] == "recipe"@ && segs[3] == "title"@ {
                ApiRequestView::RecipesByTitle(segs[4])
            } else if segs[2] == "recipes"@ && segs[3] == "roaster"@ {
                ApiRequestView::RecipesByRoaster(segs[4])
            } else if segs[2] == "recipes"@ && segs[3] == "machine"@ {
                ApiRequestView::RecipesByMachine(segs[4])
            } else {
                ApiRequestView::NoRoute
            }
        } else {
            ApiRequestView::NoRoute
        }
    } else if method == "POST"@ {
        if segs.len() == 4 && segs[0] == ""@ && segs[1] == "api"@ && segs[2] == "recipe"@
            && segs[3] == "create"@ {
            ApiRequestView::CreateRecipe
        } else {
            ApiRequestView::NoRoute
        }
    } else {
        ApiRequestView::NoRoute
    }
}

/// Resolves a method and path to the request they denote, per
/// [`spec_route`].
pub fn route(method: &str, path: &str) -> (r: ApiRequest)
    ensures
        r@ == spec_route(method@, path@),
{
    let is_get = str_eq(method, "GET");
    let is_post = str_eq(method, "POST");
    if !is_get && !is_post {
        return ApiRequest::NoRoute;
    }
    if is_get && str_eq(path, "/") {
        return ApiRequest::Health;
    }
    let segs = split_path(path);
    if is_get {
        if segs.len() == 3 && str_eq(segs[0].as_str(), "") && str_eq(segs[1].as_str(), "api") {
            if str_eq(segs[2].as_str(), "roasts") {
                ApiRequest::ListRoasts
            } else if str_eq(segs[2].as_str(), "brewers") {
                ApiRequest::ListBrewers
            } else if str_eq(segs[2].as_str(), "users") {
                ApiRequest::ListUsers
            } else if str_eq(segs[2].as_str(), "recipes") {
                ApiRequest::ListRecipes
            } else {
                ApiRequest::NoRoute
            }
        } else if segs.len() == 4 && str_eq(segs[0].as_str(), "") && str_eq(
            segs[1].as_str(),
            "api",
        ) {
            if str_eq(segs[2].as_str(), "roast") {
                match parse_i32(segs[3].as_str()) {
                    Some(id) => ApiRequest::RoastById(id),
                    None => ApiRequest::NoRoute,
                }
            } else if str_eq(segs[2].as_str(), "brewer") {
                match parse_i32(segs[3].as_str()) {
                    Some(id) => ApiRequest::BrewerById(id),
                    None => ApiRequest::NoRoute,
                }
            } else if str_eq(segs[2].as_str(), "user") {
                match parse_i32(segs[3].as_str()) {
                    Some(id) => ApiRequest::UserById(id),
                    None => ApiRequest::NoRoute,
                }
            } else if str_eq(segs[2].as_str(), "recipe") {
                if str_eq(segs[3].as_str(), "create") {
                    ApiRequest::NoRoute
                } else {
                    ApiRequest::RecipeBySlug(segs[3].clone())
                }
            } else {
                ApiRequest::NoRoute
            }
        } else if segs.len() == 5 && str_eq(segs[0].as_str(), "") && str_eq(
            segs[1].as_str(),
            "api",
        ) {
            if str_eq(segs[2].as_str(), "recipe") && str_eq(segs[3].as_str(), "id") {
                match parse_i32(segs[4].as_str()) {
                    Some(id) => ApiRequest::RecipeById(id),
                    None => ApiRequest::NoRoute,
                }
            } else if str_eq(segs[2].as_str(), "recipe") && str_eq(segs[3].as_str(), "title") {
                ApiRequest::RecipesByTitle(segs[4].clone())
            } else if str_eq(segs[2].as_str(), "recipes") && str_eq(segs[3].as_str(), "roaster") {
                ApiRequest::RecipesByRoaster(segs[4].clone())
            } else if str_eq(segs[2].as_str(), "recipes") && str_eq(segs[3].as_str(), "machine") {
                ApiRequest::RecipesByMachine(segs[4].clone())
            } else {
                ApiRequest::NoRoute
            }
        } else {
            ApiRequest::NoRoute
        }
    } else {
        if segs.len() == 4 && str_eq(segs[0].as_str(), "") && str_eq(segs[1].as_str(), "api")
            && str_eq(segs[2].as_str(), "recipe") && str_eq(segs[3].as_str(), "create") {
            ApiRequest::CreateRecipe
        } else {
            ApiRequest::NoRoute
        }
    }
}

/// The body of the health route.
pub fn health_body() -> (s: String)
    ensures
        s@ == "{\"status\":\"ok\"}"@,
{
    "{\"status\":\"ok\"}".to_owned()
}

/// The fixed body of the not-found fallback.
pub fn not_found_body() -> (s: String)
    ensures
        s@ == "nothing to see here"@,
{
    "nothing to see here".to_owned()
}

} // verus!
