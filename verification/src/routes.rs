//! The route table: which method and path reach which operation, and which
//! single database call each route demands.

use vstd::prelude::*;
use vstd::string::*;
use crate::text::{digits_val, is_u32_decimal, parse_u32, str_eq, str_starts_with};

verus! {

/// The three kinds of record the service stores.
#[derive(Clone, Copy, PartialEq, Eq, Structural, Debug)]
pub enum Entity {
    City,
    Country,
    River,
}

/// The request methods the service answers.
#[derive(Clone, Copy, PartialEq, Eq, Structural, Debug)]
pub enum Method {
    Get,
    Post,
    Delete,
}

/// A recognised route: the greeting, or one operation on one collection.
#[derive(Clone, Copy, PartialEq, Eq, Structural, Debug)]
pub enum Route {
    Hello,
    FetchOne(Entity, u32),
    FetchAll(Entity),
    Create(Entity),
    Remove(Entity, u32),
}

/// The singular noun for an entity, as the response texts use it.
pub open spec fn entity_word(e: Entity) -> Seq<char> {
    match e {
        Entity::City => "city"@,
        Entity::Country => "country"@,
        Entity::River => "river"@,
    }
}

/// The name of the database collection that holds an entity's records.
pub open spec fn collection_word(e: Entity) -> Seq<char> {
    match e {
        Entity::City => "cities"@,
        Entity::Country => "countries"@,
        Entity::River => "rivers"@,
    }
}

/// The singular noun for an entity.
pub fn entity_name(e: Entity) -> (r: &'static str)
    ensures
        r@ == entity_word(e),
{
    match e {
        Entity::City => "city",
        Entity::Country => "country",
        Entity::River => "river",
    }
}

/// The collection an entity's records live in.
pub fn collection_name(e: Entity) -> (r: &'static str)
    ensures
        r@ == collection_word(e),
{
    match e {
        Entity::City => "cities",
        Entity::Country => "countries",
        Entity::River => "rivers",
    }
}

/// The path consists of `prefix` and then the decimal digits of an id
/// that fits in `u32`.
pub open spec fn id_route_matches(prefix: Seq<char>, p: Seq<char>) -> bool {
    &&& p.len() > prefix.len()
    &&& p.subrange(0, prefix.len() as int) == prefix
    &&& is_u32_decimal(p.skip(prefix.len() as int))
}

/// The id carried by a path that `id_route_matches` accepts.
pub open spec fn id_route_value(prefix: Seq<char>, p: Seq<char>) -> nat {
    digits_val(p.skip(prefix.len() as int))
}

/// The route table. Each method recognises its fixed paths; an id segment
/// must be decimal digits within `u32`, and any other path has no route.
pub open spec fn route_of(m: Method, p: Seq<char>) -> Option<Route> {
    match m {
        Method::Get => if p == "/"@ {
            Some(Route::Hello)
        } else if p == "/cities"@ {
            Some(Route::FetchAll(Entity::City))
        } else if p == "/countries"@ {
            Some(Route::FetchAll(Entity::Country))
        } else if p == "/rivers"@ {
            Some(Route::FetchAll(Entity::River))
        } else if id_route_matches("/city/"@, p) {
            Some(Route::FetchOne(Entity::City, id_route_value("/city/"@, p) as u32))
        } else if id_route_matches("/country/"@, p) {
            Some(Route::FetchOne(Entity::Country, id_route_value("/country/"@, p) as u32))
        } else if id_route_matches("/river/"@, p) {
            Some(Route::FetchOne(Entity::River, id_route_value("/river/"@, p) as u32))
        } else {
            None
        },
        Method::Post => if p == "/city"@ {
            Some(Route::Create(Entity::City))
        } else if p == "/country"@ {
            Some(Route::Create(Entity::Country))
        } else if p == "/river"@ {
            Some(Route::Create(Entity::River))
        } else {
            None
        },
        Method::Delete => if id_route_matches("/city/"@, p) {
            Some(Route::Remove(Entity::City, id_route_value("/city/"@, p) as u32))
        } else if id_route_matches("/country/"@, p) {
            Some(Route::Remove(Entity::Country, id_route_value("/country/"@, p) as u32))
        } else if id_route_matches("/river/"@, p) {
            Some(Route::Remove(Entity::River, id_route_value("/river/"@, p) as u32))
        } else {
            None
        },
    }
}

fn match_id_route(path: &str, prefix: &str) -> (r: Option<u32>)
    ensures
        match r {
            Some(v) => id_route_matches(prefix@, path@) && v as nat == id_route_value(
                prefix@,
                path@,
            ),
            None => !id_route_matches(prefix@, path@),
        },
{
    if !str_starts_with(path, prefix) {
        return None;
    }
    let pn = prefix.unicode_len();
    let sn = path.unicode_len();
    if sn <= pn {
        return None;
    }
    let tail = path.substring_char(pn, sn);
    proof {
        assert(path@.skip(prefix@.len() as int) =~= path@.subrange(pn as int, sn as int));
    }
    parse_u32(tail)
}

/// Finds the route for a method and path, exactly as `route_of` lays
/// the table out; an unknown path gets none.
pub fn parse_route(m: Method, path: &str) -> (r: Option<Route>)
    ensures
        r == route_of(m, path@),
{
    match m {
        Method::Get => {
            if str_eq(path, "/") {
                Some(Route::Hello)
            } else if str_eq(path, "/cities") {
                Some(Route::FetchAll(Entity::City))
            } else if str_eq(path, "/countries") {
                Some(Route::FetchAll(Entity::Country))
            } else if str_eq(path, "/rivers") {
                Some(Route::FetchAll(Entity::River))
            } else if let Some(id) = match_id_route(path, "/city/") {
                Some(Route::FetchOne(Entity::City, id))
            } else if let Some(id) = match_id_route(path, "/country/") {
                Some(Route::FetchOne(Entity::Country, id))
            } else if let Some(id) = match_id_route(path, "/river/") {
                Some(Route::FetchOne(Entity::River, id))
            } else {
                None
            }
        },
        Method::Post => {
            if str_eq(path, "/city") {
                Some(Route::Create(Entity::City))
            } else if str_eq(path, "/country") {
                Some(Route::Create(Entity::Country))
            } else if str_eq(path, "/river") {
                Some(Route::Create(Entity::River))
            } else {
                None
            }
        },
        Method::Delete => {
            if let Some(id) = match_id_route(path, "/city/") {
                Some(Route::Remove(Entity::City, id))
            } else if let Some(id) = match_id_route(path, "/country/") {
                Some(Route::Remove(Entity::Country, id))
            } else if let Some(id) = match_id_route(path, "/river/") {
                Some(Route::Remove(Entity::River, id))
            } else {
                None
            }
        },
    }
}

/// The single database call a route demands.
#[derive(Clone, Copy, PartialEq, Eq, Structural, Debug)]
pub enum DbOp {
    FindOneById(u32),
    FindAll,
    InsertOne,
    DeleteById(u32),
}

/// The plan of a route: which collection's records it touches and with
/// which call. The greeting touches none.
pub open spec fn plan_of(r: Route) -> Option<(Entity, DbOp)> {
    match r {
        Route::Hello => None,
        Route::FetchOne(e, id) => Some((e, DbOp::FindOneById(id))),
        Route::FetchAll(e) => Some((e, DbOp::FindAll)),
        Route::Create(e) => Some((e, DbOp::InsertOne)),
        Route::Remove(e, id) => Some((e, DbOp::DeleteById(id))),
    }
}

/// Lays out the plan of a route, as `plan_of` states it.
pub fn query_plan(route: &Route) -> (p: Option<(Entity, DbOp)>)
    ensures
        p == plan_of(*route),
{
    match route {
        Route::Hello => None,
        Route::FetchOne(e, id) => Some((*e, DbOp::FindOneById(*id))),
        Route::FetchAll(e) => Some((*e, DbOp::FindAll)),
        Route::Create(e) => Some((*e, DbOp::InsertOne)),
        Route::Remove(e, id) => Some((*e, DbOp::DeleteById(*id))),
    }
}

} // verus!
