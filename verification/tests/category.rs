use jicloud_logic::category::{
    create, delete, fill_id, get_all, get_all_request, move_end, move_to, rename, try_create,
    try_move_end, CategoryId, CategoryTreeScope,
};
use jicloud_logic::text::{replace_all, str_equal};

const PARENT: &str = "0a8e2b6e-2b52-11eb-9b0e-5f2d3c9e7c11";

fn parent_value() -> u128 {
    uuid::Uuid::parse_str(PARENT).unwrap().as_u128()
}

#[test]
fn fill_id_replaces_the_placeholder() {
    assert_eq!(fill_id("/v1/category/{id}", "abc"), "/v1/category/abc");
    assert_eq!(fill_id("/v1/category", "abc"), "/v1/category");
    assert_eq!(fill_id("/{id}/x/{id}", "7"), "/7/x/7");
    assert_eq!(fill_id("/{i{id}d}", "Q"), "/{iQd}");
}

#[test]
fn replace_all_replaces_every_occurrence_from_the_left() {
    assert_eq!(replace_all("aaa", "aa", "b"), "ba");
    assert_eq!(replace_all("abcabc", "bc", ""), "aa");
    assert_eq!(replace_all("", "x", "y"), "");
    assert_eq!(replace_all("héllo wörld", "ö", "o"), "héllo world");
    assert_eq!(replace_all("xyz", "xyzw", "q"), "xyz");
}

#[test]
fn str_equal_compares_characters() {
    assert!(str_equal("abc", "abc"));
    assert!(!str_equal("abc", "abd"));
    assert!(!str_equal("abc", "ab"));
    assert!(str_equal("", ""));
}

#[test]
fn get_all_lists_the_whole_tree() {
    let req = get_all_request();
    assert!(req.ids.is_empty());
    assert_eq!(req.scope, Some(CategoryTreeScope::Decendants));
    assert_eq!(get_all("/v1/category", "scope=Decendants"), "/v1/category?scope=Decendants");
    assert_eq!(get_all("/v1/category", ""), "/v1/category?");
}

#[test]
fn create_under_a_parent_or_at_the_root() {
    let call = create("/v1/category", "Animals".to_string(), Some(PARENT));
    assert_eq!(call.path, "/v1/category");
    let body = call.body.unwrap();
    assert_eq!(body.name, "Animals");
    assert_eq!(body.parent_id, Some(CategoryId(parent_value())));

    let call = create("/v1/category", "Root".to_string(), None);
    assert_eq!(call.body.unwrap().parent_id, None);
}

#[test]
fn try_create_refuses_a_parent_that_is_no_uuid() {
    assert!(try_create("/v1/category", "A".to_string(), Some("nope")).is_none());
    let call = try_create("/v1/category", "A".to_string(), Some(PARENT)).unwrap();
    assert_eq!(call.body.unwrap().parent_id, Some(CategoryId(parent_value())));
    assert!(try_create("/v1/category", "A".to_string(), None).is_some());
}

#[test]
fn rename_sends_only_the_name() {
    let call = rename("/v1/category/{id}", "c1", "New".to_string());
    assert_eq!(call.path, "/v1/category/c1");
    let body = call.body.unwrap();
    assert_eq!(body.name.as_deref(), Some("New"));
    assert_eq!(body.parent_id, None);
    assert_eq!(body.index, None);
}

#[test]
fn move_to_sends_only_the_index() {
    let call = move_to("/v1/category/{id}", "c1", 3);
    assert_eq!(call.path, "/v1/category/c1");
    let body = call.body.unwrap();
    assert_eq!(body.name, None);
    assert_eq!(body.parent_id, None);
    assert_eq!(body.index, Some(3));
}

#[test]
fn move_end_sends_only_the_parent() {
    let call = move_end("/v1/category/{id}", "c1", PARENT);
    assert_eq!(call.path, "/v1/category/c1");
    let body = call.body.unwrap();
    assert_eq!(body.name, None);
    assert_eq!(body.parent_id, Some(Some(CategoryId(parent_value()))));
    assert_eq!(body.index, None);
    assert!(try_move_end("/v1/category/{id}", "c1", "bad").is_none());
    assert!(try_move_end("/v1/category/{id}", "c1", PARENT).is_some());
}

#[test]
fn delete_has_no_body() {
    let call = delete("/v1/category/{id}", "c9");
    assert_eq!(call.path, "/v1/category/c9");
    assert!(call.body.is_none());
}

#[test]
fn one_placeholder_in_a_plain_path() {
    assert_eq!(fill_id("/v1/category/{id}/children", "x-1"), "/v1/category/x-1/children");
}
