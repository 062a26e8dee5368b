use geo_api::routes::{
    collection_name, entity_name, parse_route, query_plan, DbOp, Entity, Method, Route,
};

#[test]
fn root_path_greets() {
    assert_eq!(parse_route(Method::Get, "/"), Some(Route::Hello));
}

#[test]
fn collection_paths_fetch_all() {
    assert_eq!(parse_route(Method::Get, "/cities"), Some(Route::FetchAll(Entity::City)));
    assert_eq!(parse_route(Method::Get, "/countries"), Some(Route::FetchAll(Entity::Country)));
    assert_eq!(parse_route(Method::Get, "/rivers"), Some(Route::FetchAll(Entity::River)));
}

#[test]
fn id_paths_fetch_one() {
    assert_eq!(parse_route(Method::Get, "/city/17"), Some(Route::FetchOne(Entity::City, 17)));
    assert_eq!(
        parse_route(Method::Get, "/country/0"),
        Some(Route::FetchOne(Entity::Country, 0))
    );
    assert_eq!(
        parse_route(Method::Get, "/river/4294967295"),
        Some(Route::FetchOne(Entity::River, u32::MAX))
    );
}

#[test]
fn post_paths_create() {
    assert_eq!(parse_route(Method::Post, "/city"), Some(Route::Create(Entity::City)));
    assert_eq!(parse_route(Method::Post, "/country"), Some(Route::Create(Entity::Country)));
    assert_eq!(parse_route(Method::Post, "/river"), Some(Route::Create(Entity::River)));
}

#[test]
fn delete_paths_remove_by_id() {
    assert_eq!(parse_route(Method::Delete, "/city/8"), Some(Route::Remove(Entity::City, 8)));
    assert_eq!(parse_route(Method::Delete, "/river/9"), Some(Route::Remove(Entity::River, 9)));
}

#[test]
fn unknown_paths_have_no_route() {
    assert_eq!(parse_route(Method::Get, ""), None);
    assert_eq!(parse_route(Method::Get, "/city"), None);
    assert_eq!(parse_route(Method::Get, "/city/"), None);
    assert_eq!(parse_route(Method::Get, "/city/abc"), None);
    assert_eq!(parse_route(Method::Get, "/city/17/extra"), None);
    assert_eq!(parse_route(Method::Get, "/citys"), None);
    assert_eq!(parse_route(Method::Get, "/country/4294967296"), None);
    assert_eq!(parse_route(Method::Post, "/cities"), None);
    assert_eq!(parse_route(Method::Post, "/city/17"), None);
    assert_eq!(parse_route(Method::Delete, "/"), None);
    assert_eq!(parse_route(Method::Delete, "/cities"), None);
}

#[test]
fn method_matters() {
    assert_eq!(parse_route(Method::Post, "/"), None);
    assert_eq!(parse_route(Method::Delete, "/city"), None);
}

#[test]
fn plans_name_the_one_call() {
    assert_eq!(query_plan(&Route::Hello), None);
    assert_eq!(
        query_plan(&Route::FetchOne(Entity::City, 17)),
        Some((Entity::City, DbOp::FindOneById(17)))
    );
    assert_eq!(query_plan(&Route::FetchAll(Entity::River)), Some((Entity::River, DbOp::FindAll)));
    assert_eq!(query_plan(&Route::Create(Entity::Country)), Some((Entity::Country, DbOp::InsertOne)));
    assert_eq!(
        query_plan(&Route::Remove(Entity::River, 9)),
        Some((Entity::River, DbOp::DeleteById(9)))
    );
}

#[test]
fn entity_and_collection_names() {
    assert_eq!(entity_name(Entity::City), "city");
    assert_eq!(entity_name(Entity::Country), "country");
    assert_eq!(entity_name(Entity::River), "river");
    assert_eq!(collection_name(Entity::City), "cities");
    assert_eq!(collection_name(Entity::Country), "countries");
    assert_eq!(collection_name(Entity::River), "rivers");
}
