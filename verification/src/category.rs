//! The category administration client: the requests it sends to the
//! category endpoints and the paths it sends them to.

use vstd::prelude::*;
use crate::ids::{uuid_parse, parse_uuid, uuid_hyphenated, lemma_uuid_hyphenated_parses};
use crate::text::{opt_str_view, replaced, replace_all, lemma_replaced_single, lemma_replaced_identity};

verus! {

/// The id of a category.
#[derive(Clone, Copy, Debug, PartialEq, Eq, Structural)]
pub struct CategoryId(pub u128);

/// Which part of the category tree a query returns around the ids asked for.
#[derive(Clone, Copy, Debug, PartialEq, Eq, Structural)]
pub enum CategoryTreeScope {
    Ancestors,
    Decendants,
}

/// Query of the category tree.
#[derive(Clone, Debug)]
pub struct GetCategoryRequest {
    pub ids: Vec<CategoryId>,
    pub scope: Option<CategoryTreeScope>,
}

/// Body of a category creation.
#[derive(Clone, Debug)]
pub struct CreateCategoryRequest {
    pub name: String,
    pub parent_id: Option<CategoryId>,
}

/// Body of a category update: each field that is `Some` is changed.
/// `parent_id` is `Some(None)` to move a category to the root.
#[derive(Clone, Debug)]
pub struct UpdateCategoryRequest {
    pub name: Option<String>,
    pub parent_id: Option<Option<CategoryId>>,
    pub index: Option<u16>,
}

/// A request ready to be sent: the path under the API root and the body.
#[derive(Clone, Debug)]
pub struct ApiCall<Req> {
    pub path: String,
    pub body: Option<Req>,
}

/// The placeholder for a category id in an endpoint path.
pub open spec fn id_placeholder() -> Seq<char> {
    seq!['{', 'i', 'd', '}']
}

/// An endpoint path with its id placeholders filled with `id`.
pub open spec fn path_for_id(endpoint: Seq<char>, id: Seq<char>) -> Seq<char> {
    replaced(endpoint, id_placeholder(), id)
}

/// An endpoint path with one placeholder, and no other `{`, becomes the path
/// with the id in its place.
pub proof fn lemma_path_for_id_single(pre: Seq<char>, suf: Seq<char>, id: Seq<char>)
    requires
        !pre.contains('{'),
        !suf.contains('{'),
    ensures
        path_for_id(pre + id_placeholder() + suf, id) == pre + id + suf,
{
    lemma_replaced_single(pre, suf, id_placeholder(), id);
}

/// An endpoint path without any `{` is left as it is.
pub proof fn lemma_path_for_id_plain(endpoint: Seq<char>, id: Seq<char>)
    requires
        !endpoint.contains('{'),
    ensures
        path_for_id(endpoint, id) == endpoint,
{
    lemma_replaced_identity(endpoint, id_placeholder(), id);
}

/// Fills the `{id}` placeholders of an endpoint path.
pub fn fill_id(endpoint: &str, id: &str) -> (r: String)
    ensures
        r@ == path_for_id(endpoint@, id@),
{
    let placeholder = "{id}";
    proof {
        reveal_strlit("{id}");
    }
    assert(placeholder@ =~= id_placeholder());
    replace_all(endpoint, placeholder, id)
}

/// The category that an optional UUID text denotes.
pub open spec fn parent_category(parent: Option<Seq<char>>) -> Option<CategoryId> {
    match parent {
        Some(p) => match uuid_parse(p) {
            Some(u) => Some(CategoryId(u)),
            None => None,
        },
        None => None,
    }
}

/// `call` creates a category named `name` under `parent` at `endpoint`.
pub open spec fn is_create_call(
    call: ApiCall<CreateCategoryRequest>,
    endpoint: Seq<char>,
    name: Seq<char>,
    parent: Option<Seq<char>>,
) -> bool {
    &&& call.path@ == endpoint
    &&& call.body matches Some(b)
    &&& call.body.unwrap().name@ == name
    &&& call.body.unwrap().parent_id == parent_category(parent)
}

/// `call` moves the category `id` to the end of the children of `parent`.
pub open spec fn is_move_end_call(
    call: ApiCall<UpdateCategoryRequest>,
    endpoint: Seq<char>,
    id: Seq<char>,
    parent: Seq<char>,
) -> bool {
    &&& call.path@ == path_for_id(endpoint, id)
    &&& call.body matches Some(b)
    &&& call.body.unwrap().name is None
    &&& call.body.unwrap().parent_id == Some(parent_category(Some(parent)))
    &&& call.body.unwrap().index is None
}

/// The id that a UUID text denotes.
fn uuid_from_str(id: &str) -> (r: u128)
    requires
        uuid_parse(id@) is Some,
    ensures
        Some(r) == uuid_parse(id@),
        forall|u: u128| #[trigger] uuid_hyphenated(u) == id@ ==> r == u,
{
    proof {
        assert forall|u: u128| #[trigger] uuid_hyphenated(u) == id@ implies uuid_parse(id@) == Some(
            u,
        ) by {
            lemma_uuid_hyphenated_parses(u);
        }
    }
    match parse_uuid(id) {
        Some(u) => u,
        None => {
            proof {
                assert(false);
            }
            0
        },
    }
}

/// The category id that a UUID text denotes.
fn category_id_from_str(id: &str) -> (r: CategoryId)
    requires
        uuid_parse(id@) is Some,
    ensures
        Some(r.0) == uuid_parse(id@),
{
    CategoryId(uuid_from_str(id))
}

/// The query that lists the whole category tree.
pub fn get_all_request() -> (r: GetCategoryRequest)
    ensures
        r.ids@.len() == 0,
        r.scope == Some(CategoryTreeScope::Decendants),
{
    GetCategoryRequest { ids: Vec::new(), scope: Some(CategoryTreeScope::Decendants) }
}

/// The path of the category listing: the endpoint path, `?`, and the query
/// string of `get_all_request`.
pub fn get_all(endpoint: &str, query: &str) -> (r: String)
    ensures
        r@ == endpoint@ + seq!['?'] + query@,
{
    let mut path = String::from_str(endpoint);
    let mark = "?";
    proof {
        reveal_strlit("?");
    }
    path.append(mark);
    path.append(query);
    path
}

/// Creation of a category named `name` under the parent whose id text is
/// `parent_id` (at the root where it is `None`).
pub fn create(endpoint: &str, name: String, parent_id: Option<&str>) -> (r: ApiCall<
    CreateCategoryRequest,
>)
    requires
        parent_id matches Some(p) ==> uuid_parse(p@) is Some,
    ensures
        is_create_call(r, endpoint@, name@, opt_str_view(parent_id)),
{
    let parent = match parent_id {
        Some(p) => Some(category_id_from_str(p)),
        None => None,
    };
    ApiCall {
        path: String::from_str(endpoint),
        body: Some(CreateCategoryRequest { name, parent_id: parent }),
    }
}

/// As `create`, or `None` where `parent_id` is given and is no UUID.
pub fn try_create(endpoint: &str, name: String, parent_id: Option<&str>) -> (r: Option<
    ApiCall<CreateCategoryRequest>,
>)
    ensures
        r is None <==> (parent_id matches Some(p) && uuid_parse(p@) is None),
        r matches Some(call) ==> is_create_call(call, endpoint@, name@, opt_str_view(parent_id)),
{
    if let Some(p) = parent_id {
        if parse_uuid(p).is_none() {
            return None;
        }
    }
    Some(create(endpoint, name, parent_id))
}

/// Renaming of the category `id` to `name`.
pub fn rename(endpoint: &str, id: &str, name: String) -> (r: ApiCall<UpdateCategoryRequest>)
    ensures
        r.path@ == path_for_id(endpoint@, id@),
        r.body matches Some(b) && (b.name matches Some(n) && n@ == name@) && b.parent_id is None
            && b.index is None,
{
    ApiCall {
        path: fill_id(endpoint, id),
        body: Some(UpdateCategoryRequest { name: Some(name), parent_id: None, index: None }),
    }
}

/// Moving the category `id` to position `index` among its siblings.
pub fn move_to(endpoint: &str, id: &str, index: u16) -> (r: ApiCall<UpdateCategoryRequest>)
    ensures
        r.path@ == path_for_id(endpoint@, id@),
        r.body matches Some(b) && b.name is None && b.parent_id is None && b.index == Some(index),
{
    ApiCall {
        path: fill_id(endpoint, id),
        body: Some(UpdateCategoryRequest { name: None, parent_id: None, index: Some(index) }),
    }
}

/// Moving the category `id` to the end of the children of `parent_id`.
pub fn move_end(endpoint: &str, id: &str, parent_id: &str) -> (r: ApiCall<UpdateCategoryRequest>)
    requires
        uuid_parse(parent_id@) is Some,
    ensures
        is_move_end_call(r, endpoint@, id@, parent_id@),
{
    ApiCall {
        path: fill_id(endpoint, id),
        body: Some(
            UpdateCategoryRequest {
                name: None,
                parent_id: Some(Some(category_id_from_str(parent_id))),
                index: None,
            },
        ),
    }
}

/// As `move_end`, or `None` where `parent_id` is no UUID.
pub fn try_move_end(endpoint: &str, id: &str, parent_id: &str) -> (r: Option<
    ApiCall<UpdateCategoryRequest>,
>)
    ensures
        r is None <==> uuid_parse(parent_id@) is None,
        r matches Some(call) ==> is_move_end_call(call, endpoint@, id@, parent_id@),
{
    if parse_uuid(parent_id).is_none() {
        return None;
    }
    Some(move_end(endpoint, id, parent_id))
}

/// Deletion of the category `id`: no body.
pub fn delete(endpoint: &str, id: &str) -> (r: ApiCall<UpdateCategoryRequest>)
    ensures
        r.path@ == path_for_id(endpoint@, id@),
        r.body is None,
{
    ApiCall { path: fill_id(endpoint, id), body: None }
}

} // verus!
