//! The request handlers of the image library as state machines: each step
//! names the outside work to do next (a database statement, a storage
//! upload, a search) and takes back what came of it, until the handler
//! answers. The caller performs the work; every decision stands here.

use vstd::prelude::*;
use crate::image::{MetaKind, MetaWrapperError, DeleteError};
use crate::meta::UtcTime;

verus! {

/// The kinds of images.
#[derive(Clone, Copy, Debug, PartialEq, Eq, Structural)]
pub enum ImageKind {
    Canvas,
    Sticker,
}

/// The media libraries images are stored in.
#[derive(Clone, Copy, Debug, PartialEq, Eq, Structural)]
pub enum MediaLibrary {
    Global,
    User,
}

/// The stored renditions of an image.
#[derive(Clone, Copy, Debug, PartialEq, Eq, Structural)]
pub enum PngImageFile {
    Original,
    Resized,
    Thumbnail,
}

/// The renditions an image is stored as.
pub open spec fn stored_renditions() -> Seq<PngImageFile> {
    seq![PngImageFile::Original, PngImageFile::Resized, PngImageFile::Thumbnail]
}

/// The renditions an image is stored as, each deleted with the image.
pub fn renditions() -> (r: Vec<PngImageFile>)
    ensures
        r@ == stored_renditions(),
{
    vec![PngImageFile::Original, PngImageFile::Resized, PngImageFile::Thumbnail]
}

/// Something written or removed with an image's files.
#[derive(Clone, Copy, Debug, PartialEq, Eq, Structural)]
pub enum MediaTarget {
    /// A stored rendition of the image `id` in a media library.
    Rendition(MediaLibrary, u128, PngImageFile),
    /// The entry of the image `id` in the search index.
    SearchEntry(u128),
}

/// The renditions of the image `id` stored in `library`, in order.
pub open spec fn renditions_of(library: MediaLibrary, id: u128) -> Seq<MediaTarget> {
    seq![
        MediaTarget::Rendition(library, id, PngImageFile::Original),
        MediaTarget::Rendition(library, id, PngImageFile::Resized),
        MediaTarget::Rendition(library, id, PngImageFile::Thumbnail),
    ]
}

/// What `Action::UploadImages(library, id)` writes: the original, resized
/// and thumbnail renditions of the image, under its id in that library.
pub fn upload_media_targets(library: MediaLibrary, id: u128) -> (r: Vec<MediaTarget>)
    ensures
        r@ == renditions_of(library, id),
{
    vec![
        MediaTarget::Rendition(library, id, PngImageFile::Original),
        MediaTarget::Rendition(library, id, PngImageFile::Resized),
        MediaTarget::Rendition(library, id, PngImageFile::Thumbnail),
    ]
}

/// What `Action::DeleteMedia(library, id)` removes: each stored rendition of
/// the image in that library, and for the global library its search entry
/// too.
pub open spec fn media_to_delete(library: MediaLibrary, id: u128) -> Seq<MediaTarget> {
    match library {
        MediaLibrary::Global => renditions_of(library, id).push(MediaTarget::SearchEntry(id)),
        MediaLibrary::User => renditions_of(library, id),
    }
}

/// The removals that `Action::DeleteMedia(library, id)` stands for, each
/// done once.
pub fn delete_media_targets(library: MediaLibrary, id: u128) -> (r: Vec<MediaTarget>)
    ensures
        r@ == media_to_delete(library, id),
{
    let mut targets = upload_media_targets(library, id);
    if library == MediaLibrary::Global {
        targets.push(MediaTarget::SearchEntry(id));
    }
    targets
}

/// Deleting an image removes every stored rendition, only of that image
/// and only in its own library; only a global image leaves the search
/// index.
pub proof fn lemma_delete_media_scope(library: MediaLibrary, id: u128)
    ensures
        forall|f: PngImageFile|
            #[trigger] stored_renditions().contains(f) ==> media_to_delete(library, id).contains(
                MediaTarget::Rendition(library, id, f),
            ),
        forall|i: int|
            0 <= i < media_to_delete(library, id).len() ==> match #[trigger] media_to_delete(
                library,
                id,
            )[i] {
                MediaTarget::Rendition(l, x, f) => l == library && x == id
                    && stored_renditions().contains(f),
                MediaTarget::SearchEntry(x) => x == id && library == MediaLibrary::Global,
            },
        media_to_delete(library, id).contains(MediaTarget::SearchEntry(id)) <==> library
            == MediaLibrary::Global,
        media_to_delete(library, id).no_duplicates(),
{
    let m = media_to_delete(library, id);
    let r = stored_renditions();
    assert(r[0] == PngImageFile::Original && r[1] == PngImageFile::Resized && r[2]
        == PngImageFile::Thumbnail);
    assert(m[0] == MediaTarget::Rendition(library, id, PngImageFile::Original));
    assert(m[1] == MediaTarget::Rendition(library, id, PngImageFile::Resized));
    assert(m[2] == MediaTarget::Rendition(library, id, PngImageFile::Thumbnail));
    assert forall|f: PngImageFile| #[trigger] r.contains(f) implies m.contains(
        MediaTarget::Rendition(library, id, f),
    ) by {
        let i = choose|i: int| 0 <= i < r.len() && r[i] == f;
        assert(m[i] == MediaTarget::Rendition(library, id, f));
    }
    if library == MediaLibrary::Global {
        assert(m[3] == MediaTarget::SearchEntry(id));
    } else {
        assert(m.len() == 3);
    }
}

// ---- requests ----

/// The fields an image row is created with.
#[derive(Clone, Debug, PartialEq)]
pub struct ImageFields {
    pub name: String,
    pub description: String,
    pub is_premium: bool,
    pub publish_at: Option<UtcTime>,
    pub kind: ImageKind,
}

/// The changes to an image row: each field that is `Some` is written;
/// `publish_at` is `Some(None)` to clear the publication date.
#[derive(Clone, Debug, PartialEq)]
pub struct ImageFieldUpdate {
    pub name: Option<String>,
    pub description: Option<String>,
    pub is_premium: Option<bool>,
    pub publish_at: Option<Option<UtcTime>>,
}

/// The metadata of an image to write: each list that is `Some` replaces the
/// image's set of that kind; a `None` list leaves it as it is.
#[derive(Clone, Debug, PartialEq)]
pub struct MetadataLists {
    pub affiliations: Option<Vec<u128>>,
    pub age_ranges: Option<Vec<u128>>,
    pub styles: Option<Vec<u128>>,
    pub categories: Option<Vec<u128>>,
}

/// The body of an image creation.
#[derive(Clone, Debug, PartialEq)]
pub struct ImageCreateRequest {
    pub name: String,
    pub description: String,
    pub is_premium: bool,
    pub publish_at: Option<UtcTime>,
    pub kind: ImageKind,
    pub affiliations: Vec<u128>,
    pub age_ranges: Vec<u128>,
    pub styles: Vec<u128>,
    pub categories: Vec<u128>,
}

/// The body of an image update: every field is optional.
#[derive(Clone, Debug, PartialEq)]
pub struct ImageUpdateRequest {
    pub name: Option<String>,
    pub description: Option<String>,
    pub is_premium: Option<bool>,
    pub publish_at: Option<Option<UtcTime>>,
    pub affiliations: Option<Vec<u128>>,
    pub age_ranges: Option<Vec<u128>>,
    pub styles: Option<Vec<u128>>,
    pub categories: Option<Vec<u128>>,
}

/// The query of an image search.
#[derive(Clone, Debug, PartialEq)]
pub struct SearchQuery {
    pub q: String,
    pub page: Option<u32>,
    pub is_premium: Option<bool>,
    pub is_published: Option<bool>,
    pub styles: Vec<u128>,
    pub age_ranges: Vec<u128>,
    pub affiliations: Vec<u128>,
    pub categories: Vec<u128>,
}

/// The update request that changes nothing, taken where a request has no
/// body.
pub open spec fn empty_update() -> ImageUpdateRequest {
    ImageUpdateRequest {
        name: None,
        description: None,
        is_premium: None,
        publish_at: None,
        affiliations: None,
        age_ranges: None,
        styles: None,
        categories: None,
    }
}

impl Default for ImageUpdateRequest {
    fn default() -> (r: Self)
        ensures
            r == empty_update(),
    {
        ImageUpdateRequest {
            name: None,
            description: None,
            is_premium: None,
            publish_at: None,
            affiliations: None,
            age_ranges: None,
            styles: None,
            categories: None,
        }
    }
}

/// The search query taken where a request has none: no text, no page, no
/// flags and no metadata filters.
pub open spec fn is_default_query(q: SearchQuery) -> bool {
    &&& q.q@ == Seq::<char>::empty()
    &&& q.page is None
    &&& q.is_premium is None
    &&& q.is_published is None
    &&& q.styles@ == Seq::<u128>::empty()
    &&& q.age_ranges@ == Seq::<u128>::empty()
    &&& q.affiliations@ == Seq::<u128>::empty()
    &&& q.categories@ == Seq::<u128>::empty()
}

impl Default for SearchQuery {
    fn default() -> (r: Self)
        ensures
            is_default_query(r),
    {
        SearchQuery {
            q: String::new(),
            page: None,
            is_premium: None,
            is_published: None,
            styles: Vec::new(),
            age_ranges: Vec::new(),
            affiliations: Vec::new(),
            categories: Vec::new(),
        }
    }
}

/// A metadata list of a creation: an empty list changes nothing.
pub open spec fn nul_if_empty(v: Vec<u128>) -> Option<Vec<u128>> {
    if v@.len() == 0 {
        None
    } else {
        Some(v)
    }
}

fn nul_if_empty_of(v: Vec<u128>) -> (r: Option<Vec<u128>>)
    ensures
        r == nul_if_empty(v),
{
    if v.len() == 0 {
        None
    } else {
        Some(v)
    }
}

/// The row fields of a creation.
pub open spec fn create_fields(req: ImageCreateRequest) -> ImageFields {
    ImageFields {
        name: req.name,
        description: req.description,
        is_premium: req.is_premium,
        publish_at: req.publish_at,
        kind: req.kind,
    }
}

/// The metadata of a creation: each non-empty list is set.
pub open spec fn create_lists(req: ImageCreateRequest) -> MetadataLists {
    MetadataLists {
        affiliations: nul_if_empty(req.affiliations),
        age_ranges: nul_if_empty(req.age_ranges),
        styles: nul_if_empty(req.styles),
        categories: nul_if_empty(req.categories),
    }
}

/// The row changes of an update.
pub open spec fn update_fields(req: ImageUpdateRequest) -> ImageFieldUpdate {
    ImageFieldUpdate {
        name: req.name,
        description: req.description,
        is_premium: req.is_premium,
        publish_at: req.publish_at,
    }
}

/// The metadata of an update: each given list replaces that set.
pub open spec fn update_lists(req: ImageUpdateRequest) -> MetadataLists {
    MetadataLists {
        affiliations: req.affiliations,
        age_ranges: req.age_ranges,
        styles: req.styles,
        categories: req.categories,
    }
}

/// Why a handler failed.
#[derive(Clone, Copy, Debug, PartialEq, Eq, Structural)]
pub enum ApiError {
    /// A database, storage or processing failure.
    InternalServerError,
    /// The image does not exist.
    ResourceNotFound,
    /// The uploaded bytes are no image.
    InvalidMedia,
    /// The update refers to metadata that does not exist.
    MissingMetadata { id: Option<u128>, kind: MetaKind },
    /// The image is still referenced.
    Conflict,
    /// The search service is not configured.
    DisabledService,
}

/// The totals of a search: the number of result pages and of hits.
#[derive(Clone, Copy, Debug, PartialEq, Eq, Structural)]
pub struct SearchTotals {
    pub pages: u32,
    pub total_hits: u64,
}

/// What a handler answers.
#[derive(Clone, Copy, Debug, PartialEq, Eq, Structural)]
pub enum Reply {
    /// An image was created with this id.
    Created(u128),
    /// The request succeeded with nothing to return.
    NoContent,
    /// The looked-up images are returned.
    Found,
    /// The images found by a search are returned with the search's totals.
    SearchResults(SearchTotals),
    Error(ApiError),
}

/// The outside work a handler does next, or its answer.
#[derive(Clone, Debug, PartialEq)]
pub enum Action {
    BeginTransaction,
    /// Insert a global image row with these fields.
    CreateImage(ImageFields),
    /// Insert a row into the user's image library.
    CreateUserImage,
    /// Write these changes to the image row `id`; report whether it exists.
    UpdateImage(u128, ImageFieldUpdate),
    /// Write these metadata sets of the image `id`.
    UpdateMetadata(u128, MetadataLists),
    /// Lock the row of the image `id` in the library and read its kind.
    LockImage(MediaLibrary, u128),
    /// Decode the uploaded bytes and make the renditions of this kind.
    ProcessImage(ImageKind),
    /// Store the renditions: each of `upload_media_targets(library, id)`.
    UploadImages(MediaLibrary, u128),
    /// Mark the image `id` in the library uploaded now.
    MarkUploaded(MediaLibrary, u128),
    Commit,
    /// Delete the row of the image `id` from the library.
    DeleteImage(MediaLibrary, u128),
    /// Remove each of `media_to_delete(library, id)` (see
    /// `delete_media_targets`) all at once; their results are not awaited
    /// for errors.
    DeleteMedia(MediaLibrary, u128),
    /// Ask the search service with this query.
    Search(SearchQuery),
    /// Read the stored images with these ids.
    LoadImages(Vec<u128>),
    /// Read the image `id` of the library.
    GetImage(MediaLibrary, u128),
    /// Read the images of the user's library.
    ListUserImages,
    Respond(Reply),
}

/// What came of the last action.
#[derive(Clone, Debug, PartialEq)]
pub enum Outcome {
    /// The action succeeded.
    Done,
    /// The image row was created with this id.
    CreatedId(u128),
    /// The row was found (`true`) or there is no such image (`false`).
    Existed(bool),
    /// The locked image row and its kind, or `None` where there is no row.
    Locked(Option<ImageKind>),
    /// The search found these image ids, with its totals, or the search
    /// service is disabled (`None`).
    Searched(Option<(Vec<u128>, SearchTotals)>),
    /// The action failed in the database, the storage or the search service.
    Failed,
    /// The uploaded bytes could not be decoded as an image.
    BadImage,
    /// The metadata update referred to missing metadata.
    MetadataMissing(Option<u128>, MetaKind),
    /// The delete failed because the image is still referenced.
    StillReferenced,
}

/// Failure of a step as the handler answers it: the failure it reported,
/// and an internal error for an outcome the step never produces.
pub open spec fn failure_reply(o: Outcome) -> Reply {
    match o {
        Outcome::BadImage => Reply::Error(ApiError::InvalidMedia),
        Outcome::MetadataMissing(id, kind) => Reply::Error(ApiError::MissingMetadata { id, kind }),
        Outcome::StillReferenced => Reply::Error(ApiError::Conflict),
        _ => Reply::Error(ApiError::InternalServerError),
    }
}

fn failure_reply_of(o: &Outcome) -> (r: Reply)
    ensures
        r == failure_reply(*o),
{
    match o {
        Outcome::BadImage => Reply::Error(ApiError::InvalidMedia),
        Outcome::MetadataMissing(id, kind) => Reply::Error(
            ApiError::MissingMetadata { id: *id, kind: *kind },
        ),
        Outcome::StillReferenced => Reply::Error(ApiError::Conflict),
        _ => Reply::Error(ApiError::InternalServerError),
    }
}

/// The answer of a handler whose step did not succeed.
pub open spec fn reply_on_failure(o: Outcome) -> Action {
    Action::Respond(failure_reply(o))
}

// ---- creating an image in the global library ----

/// Where creating a global image stands.
#[derive(Clone, Debug, PartialEq)]
pub enum CreateStage {
    Begin(ImageCreateRequest),
    Create(MetadataLists),
    Metadata(u128),
    Commit(u128),
    Done,
}

/// Creating an image: begin a transaction, create the row with the
/// request's fields, set its metadata to the request's non-empty lists,
/// commit, and answer the new id.
pub open spec fn create_next(stage: CreateStage, o: Outcome) -> (CreateStage, Action) {
    match (stage, o) {
        (CreateStage::Begin(req), Outcome::Done) => (
            CreateStage::Create(create_lists(req)),
            Action::CreateImage(create_fields(req)),
        ),
        (CreateStage::Create(lists), Outcome::CreatedId(id)) => (
            CreateStage::Metadata(id),
            Action::UpdateMetadata(id, lists),
        ),
        (CreateStage::Metadata(id), Outcome::Done) => (CreateStage::Commit(id), Action::Commit),
        (CreateStage::Commit(id), Outcome::Done) => (
            CreateStage::Done,
            Action::Respond(Reply::Created(id)),
        ),
        _ => (CreateStage::Done, reply_on_failure(o)),
    }
}

/// The first step of creating an image from `req`.
pub fn create_start(req: ImageCreateRequest) -> (r: (CreateStage, Action))
    ensures
        r == (CreateStage::Begin(req), Action::BeginTransaction),
{
    (CreateStage::Begin(req), Action::BeginTransaction)
}

/// The step of creating an image that follows outcome `o`.
pub fn create_step(stage: CreateStage, o: Outcome) -> (r: (CreateStage, Action))
    ensures
        r == create_next(stage, o),
{
    let fail = failure_reply_of(&o);
    match stage {
        CreateStage::Begin(req) => match o {
            Outcome::Done => {
                let ImageCreateRequest {
                    name,
                    description,
                    is_premium,
                    publish_at,
                    kind,
                    affiliations,
                    age_ranges,
                    styles,
                    categories,
                } = req;
                let lists = MetadataLists {
                    affiliations: nul_if_empty_of(affiliations),
                    age_ranges: nul_if_empty_of(age_ranges),
                    styles: nul_if_empty_of(styles),
                    categories: nul_if_empty_of(categories),
                };
                let fields = ImageFields { name, description, is_premium, publish_at, kind };
                (CreateStage::Create(lists), Action::CreateImage(fields))
            },
            _ => (CreateStage::Done, Action::Respond(fail)),
        },
        CreateStage::Create(lists) => match o {
            Outcome::CreatedId(id) => (CreateStage::Metadata(id), Action::UpdateMetadata(id, lists)),
            _ => (CreateStage::Done, Action::Respond(fail)),
        },
        CreateStage::Metadata(id) => match o {
            Outcome::Done => (CreateStage::Commit(id), Action::Commit),
            _ => (CreateStage::Done, Action::Respond(fail)),
        },
        CreateStage::Commit(id) => match o {
            Outcome::Done => (CreateStage::Done, Action::Respond(Reply::Created(id))),
            _ => (CreateStage::Done, Action::Respond(fail)),
        },
        CreateStage::Done => (CreateStage::Done, Action::Respond(fail)),
    }
}

// ---- creating an image in a user's library ----

/// The first step of creating a user image.
pub fn user_create_start() -> (r: Action)
    ensures
        r == Action::CreateUserImage,
{
    Action::CreateUserImage
}

/// Creating a user image: create the row and answer its id.
pub open spec fn user_create_next(o: Outcome) -> Action {
    match o {
        Outcome::CreatedId(id) => Action::Respond(Reply::Created(id)),
        _ => reply_on_failure(o),
    }
}

/// The answer to creating a user image, once the row creation came back.
pub fn user_create_step(o: Outcome) -> (r: Action)
    ensures
        r == user_create_next(o),
{
    let fail = failure_reply_of(&o);
    match o {
        Outcome::CreatedId(id) => Action::Respond(Reply::Created(id)),
        _ => Action::Respond(fail),
    }
}

// ---- uploading the image file ----

/// Where uploading the file of an image stands.
#[derive(Clone, Copy, Debug, PartialEq, Eq, Structural)]
pub enum UploadStage {
    Begin(MediaLibrary, u128),
    Lock(MediaLibrary, u128),
    Process(MediaLibrary, u128),
    Store(MediaLibrary, u128),
    Mark(MediaLibrary, u128),
    Commit,
    Done,
}

/// The kind an image is processed as once its row is locked: the kind read
/// from the row in the global library; a sticker in a user's library.
pub open spec fn upload_kind(library: MediaLibrary, row: ImageKind) -> ImageKind {
    match library {
        MediaLibrary::Global => row,
        MediaLibrary::User => ImageKind::Sticker,
    }
}

/// Uploading the file of the image `id`: begin a transaction, lock its row
/// (no row: not found), decode and resize the bytes (no image: invalid
/// media), store the renditions under the id, mark the row uploaded,
/// commit, and answer no content.
pub open spec fn upload_next(stage: UploadStage, o: Outcome) -> (UploadStage, Action) {
    match (stage, o) {
        (UploadStage::Begin(lib, id), Outcome::Done) => (
            UploadStage::Lock(lib, id),
            Action::LockImage(lib, id),
        ),
        (UploadStage::Lock(lib, id), Outcome::Locked(Some(kind))) => (
            UploadStage::Process(lib, id),
            Action::ProcessImage(upload_kind(lib, kind)),
        ),
        (UploadStage::Lock(_, _), Outcome::Locked(None)) => (
            UploadStage::Done,
            Action::Respond(Reply::Error(ApiError::ResourceNotFound)),
        ),
        (UploadStage::Process(lib, id), Outcome::Done) => (
            UploadStage::Store(lib, id),
            Action::UploadImages(lib, id),
        ),
        (UploadStage::Store(lib, id), Outcome::Done) => (
            UploadStage::Mark(lib, id),
            Action::MarkUploaded(lib, id),
        ),
        (UploadStage::Mark(_, _), Outcome::Done) => (UploadStage::Commit, Action::Commit),
        (UploadStage::Commit, Outcome::Done) => (
            UploadStage::Done,
            Action::Respond(Reply::NoContent),
        ),
        _ => (UploadStage::Done, reply_on_failure(o)),
    }
}

/// The first step of uploading the file of the image `id` in `library`.
pub fn upload_start(library: MediaLibrary, id: u128) -> (r: (UploadStage, Action))
    ensures
        r == (UploadStage::Begin(library, id), Action::BeginTransaction),
{
    (UploadStage::Begin(library, id), Action::BeginTransaction)
}

/// The step of uploading an image file that follows outcome `o`.
pub fn upload_step(stage: UploadStage, o: Outcome) -> (r: (UploadStage, Action))
    ensures
        r == upload_next(stage, o),
{
    let fail = failure_reply_of(&o);
    match stage {
        UploadStage::Begin(lib, id) => match o {
            Outcome::Done => (UploadStage::Lock(lib, id), Action::LockImage(lib, id)),
            _ => (UploadStage::Done, Action::Respond(fail)),
        },
        UploadStage::Lock(lib, id) => match o {
            Outcome::Locked(Some(kind)) => {
                let kind = match lib {
                    MediaLibrary::Global => kind,
                    MediaLibrary::User => ImageKind::Sticker,
                };
                (UploadStage::Process(lib, id), Action::ProcessImage(kind))
            },
            Outcome::Locked(None) => (
                UploadStage::Done,
                Action::Respond(Reply::Error(ApiError::ResourceNotFound)),
            ),
            _ => (UploadStage::Done, Action::Respond(fail)),
        },
        UploadStage::Process(lib, id) => match o {
            Outcome::Done => (UploadStage::Store(lib, id), Action::UploadImages(lib, id)),
            _ => (UploadStage::Done, Action::Respond(fail)),
        },
        UploadStage::Store(lib, id) => match o {
            Outcome::Done => (UploadStage::Mark(lib, id), Action::MarkUploaded(lib, id)),
            _ => (UploadStage::Done, Action::Respond(fail)),
        },
        UploadStage::Mark(_, _) => match o {
            Outcome::Done => (UploadStage::Commit, Action::Commit),
            _ => (UploadStage::Done, Action::Respond(fail)),
        },
        UploadStage::Commit => match o {
            Outcome::Done => (UploadStage::Done, Action::Respond(Reply::NoContent)),
            _ => (UploadStage::Done, Action::Respond(fail)),
        },
        UploadStage::Done => (UploadStage::Done, Action::Respond(fail)),
    }
}

// ---- updating an image's fields and metadata ----

/// Where updating an image stands.
#[derive(Clone, Debug, PartialEq)]
pub enum UpdateStage {
    Begin(u128, ImageUpdateRequest),
    Update(u128, MetadataLists),
    Metadata,
    Commit,
    Done,
}

/// The request an update works with: the one given, or the empty one where
/// there is none.
pub open spec fn update_request(req: Option<ImageUpdateRequest>) -> ImageUpdateRequest {
    match req {
        Some(r) => r,
        None => empty_update(),
    }
}

/// Updating the image `id`: begin a transaction, write the request's field
/// changes (no such image: not found, and nothing more is written), write
/// its metadata lists, commit, and answer no content.
pub open spec fn update_next(stage: UpdateStage, o: Outcome) -> (UpdateStage, Action) {
    match (stage, o) {
        (UpdateStage::Begin(id, req), Outcome::Done) => (
            UpdateStage::Update(id, update_lists(req)),
            Action::UpdateImage(id, update_fields(req)),
        ),
        (UpdateStage::Update(id, lists), Outcome::Existed(true)) => (
            UpdateStage::Metadata,
            Action::UpdateMetadata(id, lists),
        ),
        (UpdateStage::Update(_, _), Outcome::Existed(false)) => (
            UpdateStage::Done,
            Action::Respond(Reply::Error(ApiError::ResourceNotFound)),
        ),
        (UpdateStage::Metadata, Outcome::Done) => (UpdateStage::Commit, Action::Commit),
        (UpdateStage::Commit, Outcome::Done) => (
            UpdateStage::Done,
            Action::Respond(Reply::NoContent),
        ),
        _ => (UpdateStage::Done, reply_on_failure(o)),
    }
}

/// The first step of updating the image `id` with the request `req`, the
/// empty request where there is none.
pub fn update_start(id: u128, req: Option<ImageUpdateRequest>) -> (r: (UpdateStage, Action))
    ensures
        r == (UpdateStage::Begin(id, update_request(req)), Action::BeginTransaction),
        match req {
            Some(x) => r.0 == UpdateStage::Begin(id, x),
            None => (r.0 matches UpdateStage::Begin(i, e) && i == id && e.name is None
                && e.description is None && e.is_premium is None && e.publish_at is None
                && e.affiliations is None && e.age_ranges is None && e.styles is None
                && e.categories is None),
        },
{
    let req = match req {
        Some(r) => r,
        None => ImageUpdateRequest::default(),
    };
    (UpdateStage::Begin(id, req), Action::BeginTransaction)
}

/// The step of updating an image that follows outcome `o`.
pub fn update_step(stage: UpdateStage, o: Outcome) -> (r: (UpdateStage, Action))
    ensures
        r == update_next(stage, o),
{
    let fail = failure_reply_of(&o);
    match stage {
        UpdateStage::Begin(id, req) => match o {
            Outcome::Done => {
                let ImageUpdateRequest {
                    name,
                    description,
                    is_premium,
                    publish_at,
                    affiliations,
                    age_ranges,
                    styles,
                    categories,
                } = req;
                let lists = MetadataLists { affiliations, age_ranges, styles, categories };
                let fields = ImageFieldUpdate { name, description, is_premium, publish_at };
                (UpdateStage::Update(id, lists), Action::UpdateImage(id, fields))
            },
            _ => (UpdateStage::Done, Action::Respond(fail)),
        },
        UpdateStage::Update(id, lists) => match o {
            Outcome::Existed(true) => (UpdateStage::Metadata, Action::UpdateMetadata(id, lists)),
            Outcome::Existed(false) => (
                UpdateStage::Done,
                Action::Respond(Reply::Error(ApiError::ResourceNotFound)),
            ),
            _ => (UpdateStage::Done, Action::Respond(fail)),
        },
        UpdateStage::Metadata => match o {
            Outcome::Done => (UpdateStage::Commit, Action::Commit),
            _ => (UpdateStage::Done, Action::Respond(fail)),
        },
        UpdateStage::Commit => match o {
            Outcome::Done => (UpdateStage::Done, Action::Respond(Reply::NoContent)),
            _ => (UpdateStage::Done, Action::Respond(fail)),
        },
        UpdateStage::Done => (UpdateStage::Done, Action::Respond(fail)),
    }
}

// ---- deleting an image ----

/// Where deleting an image stands.
#[derive(Clone, Copy, Debug, PartialEq, Eq, Structural)]
pub enum DeleteStage {
    Delete(MediaLibrary, u128),
    Media,
    Done,
}

/// Deleting the image `id`: delete its row (still referenced: conflict),
/// then remove its stored renditions (and search entry) whatever comes of
/// that, and answer no content.
pub open spec fn delete_next(stage: DeleteStage, o: Outcome) -> (DeleteStage, Action) {
    match (stage, o) {
        (DeleteStage::Delete(lib, id), Outcome::Done) => (
            DeleteStage::Media,
            Action::DeleteMedia(lib, id),
        ),
        (DeleteStage::Media, _) => (DeleteStage::Done, Action::Respond(Reply::NoContent)),
        _ => (DeleteStage::Done, reply_on_failure(o)),
    }
}

/// The first step of deleting the image `id` from `library`.
pub fn delete_start(library: MediaLibrary, id: u128) -> (r: (DeleteStage, Action))
    ensures
        r == (DeleteStage::Delete(library, id), Action::DeleteImage(library, id)),
{
    (DeleteStage::Delete(library, id), Action::DeleteImage(library, id))
}

/// The step of deleting an image that follows outcome `o`.
pub fn delete_step(stage: DeleteStage, o: Outcome) -> (r: (DeleteStage, Action))
    ensures
        r == delete_next(stage, o),
{
    let fail = failure_reply_of(&o);
    match stage {
        DeleteStage::Delete(lib, id) => match o {
            Outcome::Done => (DeleteStage::Media, Action::DeleteMedia(lib, id)),
            _ => (DeleteStage::Done, Action::Respond(fail)),
        },
        DeleteStage::Media => (DeleteStage::Done, Action::Respond(Reply::NoContent)),
        DeleteStage::Done => (DeleteStage::Done, Action::Respond(fail)),
    }
}

// ---- searching the global library ----

/// Where a search stands.
#[derive(Clone, Copy, Debug, PartialEq, Eq, Structural)]
pub enum SearchStage {
    Search,
    Load(SearchTotals),
    Done,
}

/// Searching: ask the search service with the query (disabled: answer so),
/// load the images with the ids it found, and answer them with the
/// search's totals.
pub open spec fn search_next(stage: SearchStage, o: Outcome) -> (SearchStage, Action) {
    match (stage, o) {
        (SearchStage::Search, Outcome::Searched(Some((ids, totals)))) => (
            SearchStage::Load(totals),
            Action::LoadImages(ids),
        ),
        (SearchStage::Search, Outcome::Searched(None)) => (
            SearchStage::Done,
            Action::Respond(Reply::Error(ApiError::DisabledService)),
        ),
        (SearchStage::Load(totals), Outcome::Done) => (
            SearchStage::Done,
            Action::Respond(Reply::SearchResults(totals)),
        ),
        _ => (SearchStage::Done, reply_on_failure(o)),
    }
}

/// The first step of a search: ask the search service with `query`, or with
/// the default query where the request has none.
pub fn search_start(query: Option<SearchQuery>) -> (r: (SearchStage, Action))
    ensures
        r.0 == SearchStage::Search,
        match query {
            Some(q) => r.1 == Action::Search(q),
            None => r.1 matches Action::Search(d) && is_default_query(d),
        },
{
    let query = match query {
        Some(q) => q,
        None => SearchQuery::default(),
    };
    (SearchStage::Search, Action::Search(query))
}

/// The step of a search that follows outcome `o`.
pub fn search_step(stage: SearchStage, o: Outcome) -> (r: (SearchStage, Action))
    ensures
        r == search_next(stage, o),
{
    let fail = failure_reply_of(&o);
    match stage {
        SearchStage::Search => match o {
            Outcome::Searched(Some((ids, totals))) => (
                SearchStage::Load(totals),
                Action::LoadImages(ids),
            ),
            Outcome::Searched(None) => (
                SearchStage::Done,
                Action::Respond(Reply::Error(ApiError::DisabledService)),
            ),
            _ => (SearchStage::Done, Action::Respond(fail)),
        },
        SearchStage::Load(totals) => match o {
            Outcome::Done => (SearchStage::Done, Action::Respond(Reply::SearchResults(totals))),
            _ => (SearchStage::Done, Action::Respond(fail)),
        },
        SearchStage::Done => (SearchStage::Done, Action::Respond(fail)),
    }
}

// ---- reading one image, or listing a user's images ----

/// The first step of reading the image `id` of `library`.
pub fn get_start(library: MediaLibrary, id: u128) -> (r: Action)
    ensures
        r == Action::GetImage(library, id),
{
    Action::GetImage(library, id)
}

/// The answer to looking up one image: found, or not found.
pub open spec fn get_next(o: Outcome) -> Action {
    match o {
        Outcome::Existed(true) => Action::Respond(Reply::Found),
        Outcome::Existed(false) => Action::Respond(Reply::Error(ApiError::ResourceNotFound)),
        _ => reply_on_failure(o),
    }
}

/// The answer to looking up one image, once the lookup came back.
pub fn get_step(o: Outcome) -> (r: Action)
    ensures
        r == get_next(o),
{
    let fail = failure_reply_of(&o);
    match o {
        Outcome::Existed(true) => Action::Respond(Reply::Found),
        Outcome::Existed(false) => Action::Respond(Reply::Error(ApiError::ResourceNotFound)),
        _ => Action::Respond(fail),
    }
}

/// The first step of listing a user's images.
pub fn list_start() -> (r: Action)
    ensures
        r == Action::ListUserImages,
{
    Action::ListUserImages
}

/// The answer to listing a user's images: the images, or the failure.
pub open spec fn list_next(o: Outcome) -> Action {
    match o {
        Outcome::Done => Action::Respond(Reply::Found),
        _ => reply_on_failure(o),
    }
}

/// The answer to listing a user's images, once the listing came back.
pub fn list_step(o: Outcome) -> (r: Action)
    ensures
        r == list_next(o),
{
    let fail = failure_reply_of(&o);
    match o {
        Outcome::Done => Action::Respond(Reply::Found),
        _ => Action::Respond(fail),
    }
}

// ---- outcomes of the error-mapped steps ----

/// The outcome of a failed metadata update.
pub fn metadata_failure(err: &MetaWrapperError) -> (r: Outcome)
    ensures
        match err {
            MetaWrapperError::Sqlx(_) => r == Outcome::Failed,
            MetaWrapperError::MissingMetadata { id, kind } => r == Outcome::MetadataMissing(*id, *kind),
        },
{
    match err {
        MetaWrapperError::Sqlx(_) => Outcome::Failed,
        MetaWrapperError::MissingMetadata { id, kind } => Outcome::MetadataMissing(*id, *kind),
    }
}

/// The outcome of a failed row deletion.
pub fn delete_failure(err: &DeleteError) -> (r: Outcome)
    ensures
        match err {
            DeleteError::Conflict => r == Outcome::StillReferenced,
            DeleteError::InternalServerError(_) => r == Outcome::Failed,
        },
{
    match err {
        DeleteError::Conflict => Outcome::StillReferenced,
        DeleteError::InternalServerError(_) => Outcome::Failed,
    }
}

// ---- whole runs ----

/// The actions an update issues when its steps come back with `os`, in turn,
/// until it answers.
pub open spec fn update_run(stage: UpdateStage, os: Seq<Outcome>) -> Seq<Action>
    decreases os.len(),
{
    if os.len() == 0 || stage is Done {
        Seq::empty()
    } else {
        let (next, action) = update_next(stage, os[0]);
        seq![action] + update_run(next, os.skip(1))
    }
}

/// The actions an upload issues when its steps come back with `os`.
pub open spec fn upload_run(stage: UploadStage, os: Seq<Outcome>) -> Seq<Action>
    decreases os.len(),
{
    if os.len() == 0 || stage is Done {
        Seq::empty()
    } else {
        let (next, action) = upload_next(stage, os[0]);
        seq![action] + upload_run(next, os.skip(1))
    }
}

/// The actions a creation issues when its steps come back with `os`.
pub open spec fn create_run(stage: CreateStage, os: Seq<Outcome>) -> Seq<Action>
    decreases os.len(),
{
    if os.len() == 0 || stage is Done {
        Seq::empty()
    } else {
        let (next, action) = create_next(stage, os[0]);
        seq![action] + create_run(next, os.skip(1))
    }
}

/// The lock found the image row.
pub open spec fn found_row(o: Outcome) -> bool {
    o matches Outcome::Locked(Some(_))
}

/// An element of `seq![a] + rest` is `a` or an element of `rest`.
proof fn lemma_contains_cons(a: Action, rest: Seq<Action>, x: Action)
    ensures
        (seq![a] + rest).contains(x) <==> (a == x || rest.contains(x)),
{
    let s = seq![a] + rest;
    if s.contains(x) {
        let i = choose|i: int| 0 <= i < s.len() && s[i] == x;
        if i > 0 {
            assert(rest[i - 1] == x);
        }
    }
    if a == x {
        assert(s[0] == x);
    }
    if rest.contains(x) {
        let i = choose|i: int| 0 <= i < rest.len() && rest[i] == x;
        assert(s[i + 1] == x);
    }
}

proof fn lemma_update_run_commit_stage(os: Seq<Outcome>, x: Action)
    ensures
        !update_run(UpdateStage::Commit, os).contains(Action::Commit),
        x is UpdateMetadata ==> !update_run(UpdateStage::Commit, os).contains(x),
        x is UpdateImage ==> !update_run(UpdateStage::Commit, os).contains(x),
        update_run(UpdateStage::Commit, os).contains(Action::Respond(Reply::NoContent)) <==> (
        os.len() >= 1 && os[0] == Outcome::Done),
{
    if os.len() > 0 {
        let (next, a) = update_next(UpdateStage::Commit, os[0]);
        lemma_contains_cons(a, update_run(next, os.skip(1)), Action::Commit);
        lemma_contains_cons(a, update_run(next, os.skip(1)), x);
        lemma_contains_cons(a, update_run(next, os.skip(1)), Action::Respond(Reply::NoContent));
    }
}

proof fn lemma_update_run_metadata_stage(os: Seq<Outcome>, x: Action)
    ensures
        update_run(UpdateStage::Metadata, os).contains(Action::Commit) ==> (os.len() >= 1 && os[0]
            == Outcome::Done),
        x is UpdateMetadata ==> !update_run(UpdateStage::Metadata, os).contains(x),
        x is UpdateImage ==> !update_run(UpdateStage::Metadata, os).contains(x),
        update_run(UpdateStage::Metadata, os).contains(Action::Respond(Reply::NoContent)) <==> (
        os.len() >= 2 && os[0] == Outcome::Done && os[1] == Outcome::Done),
{
    if os.len() > 0 {
        let (next, a) = update_next(UpdateStage::Metadata, os[0]);
        lemma_update_run_commit_stage(os.skip(1), x);
        lemma_contains_cons(a, update_run(next, os.skip(1)), Action::Commit);
        lemma_contains_cons(a, update_run(next, os.skip(1)), x);
        lemma_contains_cons(a, update_run(next, os.skip(1)), Action::Respond(Reply::NoContent));
    }
}

proof fn lemma_update_run_update_stage(id: u128, lists: MetadataLists, os: Seq<Outcome>, x: Action)
    ensures
        update_run(UpdateStage::Update(id, lists), os).contains(Action::Commit) ==> (os.len() >= 2
            && os[0] == Outcome::Existed(true) && os[1] == Outcome::Done),
        x is UpdateMetadata && update_run(UpdateStage::Update(id, lists), os).contains(x) ==> (x
            == Action::UpdateMetadata(id, lists) && os[0] == Outcome::Existed(true)),
        x is UpdateImage ==> !update_run(UpdateStage::Update(id, lists), os).contains(x),
        update_run(UpdateStage::Update(id, lists), os).contains(Action::Respond(Reply::NoContent))
            <==> (os.len() >= 3 && os[0] == Outcome::Existed(true) && os[1] == Outcome::Done
            && os[2] == Outcome::Done),
{
    if os.len() > 0 {
        let (next, a) = update_next(UpdateStage::Update(id, lists), os[0]);
        lemma_update_run_metadata_stage(os.skip(1), x);
        lemma_contains_cons(a, update_run(next, os.skip(1)), Action::Commit);
        lemma_contains_cons(a, update_run(next, os.skip(1)), x);
        lemma_contains_cons(a, update_run(next, os.skip(1)), Action::Respond(Reply::NoContent));
    }
}

/// An update writes the metadata lists of its request, and only after it
/// found the image; it commits only after it also wrote them; and it answers
/// no content exactly when every step succeeded.
pub proof fn lemma_update_commits_only_existing(
    id: u128,
    req: ImageUpdateRequest,
    os: Seq<Outcome>,
    x: Action,
)
    ensures
        update_run(UpdateStage::Begin(id, req), os).contains(Action::Commit) ==> os.len() >= 3
            && os[0] == Outcome::Done && os[1] == Outcome::Existed(true) && os[2] == Outcome::Done,
        x is UpdateMetadata && update_run(UpdateStage::Begin(id, req), os).contains(x) ==> (x
            == Action::UpdateMetadata(id, update_lists(req)) && os[1] == Outcome::Existed(true)),
        update_run(UpdateStage::Begin(id, req), os).contains(Action::Respond(Reply::NoContent))
            <==> (os.len() >= 4 && os[0] == Outcome::Done && os[1] == Outcome::Existed(true)
            && os[2] == Outcome::Done && os[3] == Outcome::Done),
{
    if os.len() > 0 {
        let (next, a) = update_next(UpdateStage::Begin(id, req), os[0]);
        lemma_update_run_update_stage(id, update_lists(req), os.skip(1), x);
        lemma_contains_cons(a, update_run(next, os.skip(1)), Action::Commit);
        lemma_contains_cons(a, update_run(next, os.skip(1)), x);
        lemma_contains_cons(a, update_run(next, os.skip(1)), Action::Respond(Reply::NoContent));
    }
}

/// An update of the image `id` with the request `req` writes exactly the
/// request's field changes and metadata lists, to that image and no other:
/// the fields first, once the transaction began, and the lists only after
/// the image was found.
pub proof fn lemma_update_writes_request(
    id: u128,
    req: ImageUpdateRequest,
    os: Seq<Outcome>,
    x: Action,
)
    ensures
        x is UpdateImage && update_run(UpdateStage::Begin(id, req), os).contains(x) ==> (os.len()
            >= 1 && os[0] == Outcome::Done && (x matches Action::UpdateImage(i, f) && i == id
            && f.name == req.name && f.description == req.description && f.is_premium
            == req.is_premium && f.publish_at == req.publish_at)),
        x is UpdateMetadata && update_run(UpdateStage::Begin(id, req), os).contains(x) ==> (
        os.len() >= 2 && os[0] == Outcome::Done && os[1] == Outcome::Existed(true) && (
        x matches Action::UpdateMetadata(i, l) && i == id && l.affiliations == req.affiliations
            && l.age_ranges == req.age_ranges && l.styles == req.styles && l.categories
            == req.categories)),
{
    lemma_update_commits_only_existing(id, req, os, x);
    if os.len() > 0 {
        let (next, a) = update_next(UpdateStage::Begin(id, req), os[0]);
        lemma_update_run_update_stage(id, update_lists(req), os.skip(1), x);
        lemma_contains_cons(a, update_run(next, os.skip(1)), x);
    }
}

proof fn lemma_upload_run_commit(lib: MediaLibrary, id: u128, os: Seq<Outcome>)
    ensures
        !upload_run(UploadStage::Commit, os).contains(Action::MarkUploaded(lib, id)),
        upload_run(UploadStage::Commit, os).contains(Action::Respond(Reply::NoContent)) <==> (os.len() >= 1 && os[0] == Outcome::Done),
{
    if os.len() > 0 {
        let (next, a) = upload_next(UploadStage::Commit, os[0]);
        lemma_contains_cons(a, upload_run(next, os.skip(1)), Action::MarkUploaded(lib, id));
        lemma_contains_cons(a, upload_run(next, os.skip(1)), Action::Respond(Reply::NoContent));
    }
}

proof fn lemma_upload_run_mark(lib: MediaLibrary, id: u128, os: Seq<Outcome>)
    ensures
        !upload_run(UploadStage::Mark(lib, id), os).contains(Action::MarkUploaded(lib, id)),
        upload_run(UploadStage::Mark(lib, id), os).contains(Action::Respond(Reply::NoContent)) <==> (os.len() >= 2 && os[0] == Outcome::Done && os[1] == Outcome::Done),
{
    if os.len() > 0 {
        let (next, a) = upload_next(UploadStage::Mark(lib, id), os[0]);
        lemma_upload_run_commit(lib, id, os.skip(1));
        lemma_contains_cons(a, upload_run(next, os.skip(1)), Action::MarkUploaded(lib, id));
        lemma_contains_cons(a, upload_run(next, os.skip(1)), Action::Respond(Reply::NoContent));
    }
}

proof fn lemma_upload_run_store(lib: MediaLibrary, id: u128, os: Seq<Outcome>)
    ensures
        upload_run(UploadStage::Store(lib, id), os).contains(Action::MarkUploaded(lib, id)) ==> (os.len() >= 1 && os[0] == Outcome::Done),
        upload_run(UploadStage::Store(lib, id), os).contains(Action::Respond(Reply::NoContent)) <==> (os.len() >= 3 && os[0] == Outcome::Done && os[1] == Outcome::Done && os[2] == Outcome::Done),
{
    if os.len() > 0 {
        let (next, a) = upload_next(UploadStage::Store(lib, id), os[0]);
        lemma_upload_run_mark(lib, id, os.skip(1));
        lemma_contains_cons(a, upload_run(next, os.skip(1)), Action::MarkUploaded(lib, id));
        lemma_contains_cons(a, upload_run(next, os.skip(1)), Action::Respond(Reply::NoContent));
    }
}

proof fn lemma_upload_run_process(lib: MediaLibrary, id: u128, os: Seq<Outcome>)
    ensures
        upload_run(UploadStage::Process(lib, id), os).contains(Action::MarkUploaded(lib, id)) ==> (os.len() >= 2 && os[0] == Outcome::Done && os[1] == Outcome::Done),
        upload_run(UploadStage::Process(lib, id), os).contains(Action::Respond(Reply::NoContent)) <==> (os.len() >= 4 && os[0] == Outcome::Done && os[1] == Outcome::Done && os[2] == Outcome::Done && os[3] == Outcome::Done),
{
    if os.len() > 0 {
        let (next, a) = upload_next(UploadStage::Process(lib, id), os[0]);
        lemma_upload_run_store(lib, id, os.skip(1));
        lemma_contains_cons(a, upload_run(next, os.skip(1)), Action::MarkUploaded(lib, id));
        lemma_contains_cons(a, upload_run(next, os.skip(1)), Action::Respond(Reply::NoContent));
    }
}

proof fn lemma_upload_run_lock(lib: MediaLibrary, id: u128, os: Seq<Outcome>)
    ensures
        upload_run(UploadStage::Lock(lib, id), os).contains(Action::MarkUploaded(lib, id)) ==> (os.len() >= 3 && found_row(os[0]) && os[1] == Outcome::Done && os[2] == Outcome::Done),
        upload_run(UploadStage::Lock(lib, id), os).contains(Action::Respond(Reply::NoContent)) <==> (os.len() >= 5 && found_row(os[0]) && os[1] == Outcome::Done && os[2] == Outcome::Done && os[3] == Outcome::Done && os[4] == Outcome::Done),
{
    if os.len() > 0 {
        let (next, a) = upload_next(UploadStage::Lock(lib, id), os[0]);
        lemma_upload_run_process(lib, id, os.skip(1));
        lemma_contains_cons(a, upload_run(next, os.skip(1)), Action::MarkUploaded(lib, id));
        lemma_contains_cons(a, upload_run(next, os.skip(1)), Action::Respond(Reply::NoContent));
    }
}

/// An upload marks the image uploaded only after the row was found, the
/// image decoded and its renditions stored; it answers no content exactly
/// when every step succeeded.
pub proof fn lemma_upload_marks_only_stored(lib: MediaLibrary, id: u128, os: Seq<Outcome>)
    ensures
        upload_run(UploadStage::Begin(lib, id), os).contains(Action::MarkUploaded(lib, id)) ==> (
        os.len() >= 4 && os[0] == Outcome::Done && found_row(os[1]) && os[2] == Outcome::Done
            && os[3] == Outcome::Done),
        upload_run(UploadStage::Begin(lib, id), os).contains(Action::Respond(Reply::NoContent))
            <==> (os.len() >= 6 && os[0] == Outcome::Done && found_row(os[1]) && os[2]
            == Outcome::Done && os[3] == Outcome::Done && os[4] == Outcome::Done && os[5]
            == Outcome::Done),
{
    if os.len() > 0 {
        let (next, a) = upload_next(UploadStage::Begin(lib, id), os[0]);
        lemma_upload_run_lock(lib, id, os.skip(1));
        lemma_contains_cons(a, upload_run(next, os.skip(1)), Action::MarkUploaded(lib, id));
        lemma_contains_cons(a, upload_run(next, os.skip(1)), Action::Respond(Reply::NoContent));
    }
}

proof fn lemma_upload_steps_commit(os: Seq<Outcome>, x: Action)
    ensures
        (x is LockImage || x is ProcessImage || x is UploadImages || x is MarkUploaded)
            ==> !upload_run(UploadStage::Commit, os).contains(x),
{
    if os.len() > 0 {
        let (next, a) = upload_next(UploadStage::Commit, os[0]);
        lemma_contains_cons(a, upload_run(next, os.skip(1)), x);
    }
}

proof fn lemma_upload_steps_mark(lib: MediaLibrary, id: u128, os: Seq<Outcome>, x: Action)
    ensures
        (x is LockImage || x is ProcessImage || x is UploadImages || x is MarkUploaded)
            ==> !upload_run(UploadStage::Mark(lib, id), os).contains(x),
{
    if os.len() > 0 {
        let (next, a) = upload_next(UploadStage::Mark(lib, id), os[0]);
        lemma_upload_steps_commit(os.skip(1), x);
        lemma_contains_cons(a, upload_run(next, os.skip(1)), x);
    }
}

proof fn lemma_upload_steps_store(lib: MediaLibrary, id: u128, os: Seq<Outcome>, x: Action)
    ensures
        (x is LockImage || x is ProcessImage || x is UploadImages)
            ==> !upload_run(UploadStage::Store(lib, id), os).contains(x),
        x is MarkUploaded && upload_run(UploadStage::Store(lib, id), os).contains(x) ==> (x
            == Action::MarkUploaded(lib, id) && os.len() >= 1 && os[0] == Outcome::Done),
{
    if os.len() > 0 {
        let (next, a) = upload_next(UploadStage::Store(lib, id), os[0]);
        lemma_upload_steps_mark(lib, id, os.skip(1), x);
        lemma_contains_cons(a, upload_run(next, os.skip(1)), x);
    }
}

proof fn lemma_upload_steps_process(lib: MediaLibrary, id: u128, os: Seq<Outcome>, x: Action)
    ensures
        (x is LockImage || x is ProcessImage)
            ==> !upload_run(UploadStage::Process(lib, id), os).contains(x),
        x is UploadImages && upload_run(UploadStage::Process(lib, id), os).contains(x) ==> (x
            == Action::UploadImages(lib, id) && os.len() >= 1 && os[0] == Outcome::Done),
        x is MarkUploaded && upload_run(UploadStage::Process(lib, id), os).contains(x) ==> (x
            == Action::MarkUploaded(lib, id) && os.len() >= 2 && os[0] == Outcome::Done && os[1]
            == Outcome::Done),
{
    if os.len() > 0 {
        let (next, a) = upload_next(UploadStage::Process(lib, id), os[0]);
        lemma_upload_steps_store(lib, id, os.skip(1), x);
        lemma_contains_cons(a, upload_run(next, os.skip(1)), x);
    }
}

proof fn lemma_upload_steps_lock(lib: MediaLibrary, id: u128, os: Seq<Outcome>, x: Action)
    ensures
        x is LockImage ==> !upload_run(UploadStage::Lock(lib, id), os).contains(x),
        x is ProcessImage && upload_run(UploadStage::Lock(lib, id), os).contains(x) ==> (os.len()
            >= 1 && (os[0] matches Outcome::Locked(Some(row)) && (lib == MediaLibrary::User ==> x
            == Action::ProcessImage(ImageKind::Sticker)) && (lib == MediaLibrary::Global ==> x
            == Action::ProcessImage(row)))),
        x is UploadImages && upload_run(UploadStage::Lock(lib, id), os).contains(x) ==> (x
            == Action::UploadImages(lib, id) && os.len() >= 2 && found_row(os[0]) && os[1]
            == Outcome::Done),
        x is MarkUploaded && upload_run(UploadStage::Lock(lib, id), os).contains(x) ==> (x
            == Action::MarkUploaded(lib, id) && os.len() >= 3 && found_row(os[0]) && os[1]
            == Outcome::Done && os[2] == Outcome::Done),
{
    if os.len() > 0 {
        let (next, a) = upload_next(UploadStage::Lock(lib, id), os[0]);
        lemma_upload_steps_process(lib, id, os.skip(1), x);
        lemma_contains_cons(a, upload_run(next, os.skip(1)), x);
    }
}

/// An upload started for the image `id` in `lib` works on that image in that
/// library alone, each step only after the ones before it succeeded: it
/// locks the row; decodes a user's image as a sticker and a global one as
/// the kind read from its locked row; stores the renditions only after the
/// row was found and the bytes decoded; and marks the row uploaded only
/// after they were stored.
pub proof fn lemma_upload_scope(lib: MediaLibrary, id: u128, os: Seq<Outcome>, x: Action)
    ensures
        x is LockImage && upload_run(UploadStage::Begin(lib, id), os).contains(x) ==> (x
            == Action::LockImage(lib, id) && os.len() >= 1 && os[0] == Outcome::Done),
        x is ProcessImage && upload_run(UploadStage::Begin(lib, id), os).contains(x) ==> (os.len()
            >= 2 && os[0] == Outcome::Done && (os[1] matches Outcome::Locked(Some(row)) && (lib
            == MediaLibrary::User ==> x == Action::ProcessImage(ImageKind::Sticker)) && (lib
            == MediaLibrary::Global ==> x == Action::ProcessImage(row)))),
        x is UploadImages && upload_run(UploadStage::Begin(lib, id), os).contains(x) ==> (x
            == Action::UploadImages(lib, id) && os.len() >= 3 && os[0] == Outcome::Done
            && found_row(os[1]) && os[2] == Outcome::Done),
        x is MarkUploaded && upload_run(UploadStage::Begin(lib, id), os).contains(x) ==> (x
            == Action::MarkUploaded(lib, id) && os.len() >= 4 && os[0] == Outcome::Done
            && found_row(os[1]) && os[2] == Outcome::Done && os[3] == Outcome::Done),
{
    if os.len() > 0 {
        let (next, a) = upload_next(UploadStage::Begin(lib, id), os[0]);
        lemma_upload_steps_lock(lib, id, os.skip(1), x);
        lemma_contains_cons(a, upload_run(next, os.skip(1)), x);
    }
}

/// A metadata list of a creation as it is written: left alone (`None`)
/// exactly where the request's list is empty, and otherwise set to the
/// request's list.
pub open spec fn writes_list_if_nonempty(written: Option<Vec<u128>>, given: Vec<u128>) -> bool {
    &&& (written is None <==> given@.len() == 0)
    &&& (written matches Some(w) ==> w@ == given@)
}

proof fn lemma_create_steps_commit(id: u128, os: Seq<Outcome>, x: Action)
    ensures
        (x is CreateImage || x is UpdateMetadata) ==> !create_run(
            CreateStage::Commit(id),
            os,
        ).contains(x),
{
    if os.len() > 0 {
        let (next, a) = create_next(CreateStage::Commit(id), os[0]);
        lemma_contains_cons(a, create_run(next, os.skip(1)), x);
    }
}

proof fn lemma_create_steps_metadata(id: u128, os: Seq<Outcome>, x: Action)
    ensures
        (x is CreateImage || x is UpdateMetadata) ==> !create_run(
            CreateStage::Metadata(id),
            os,
        ).contains(x),
{
    if os.len() > 0 {
        let (next, a) = create_next(CreateStage::Metadata(id), os[0]);
        lemma_create_steps_commit(id, os.skip(1), x);
        lemma_contains_cons(a, create_run(next, os.skip(1)), x);
    }
}

proof fn lemma_create_steps_create(lists: MetadataLists, os: Seq<Outcome>, x: Action)
    ensures
        x is CreateImage ==> !create_run(CreateStage::Create(lists), os).contains(x),
        x is UpdateMetadata && create_run(CreateStage::Create(lists), os).contains(x) ==> (os.len()
            >= 1 && (os[0] matches Outcome::CreatedId(i) && x == Action::UpdateMetadata(i, lists))),
{
    if os.len() > 0 {
        let (next, a) = create_next(CreateStage::Create(lists), os[0]);
        if let Outcome::CreatedId(i) = os[0] {
            lemma_create_steps_metadata(i, os.skip(1), x);
        }
        lemma_contains_cons(a, create_run(next, os.skip(1)), x);
    }
}

/// A creation from the request `req` creates the row with exactly the
/// request's name, description, premium flag, publication date and kind,
/// once the transaction began; it then writes metadata only to the row it
/// created, leaving each metadata set whose list in the request is empty
/// alone and setting every other to the request's list.
pub proof fn lemma_create_writes_request(req: ImageCreateRequest, os: Seq<Outcome>, x: Action)
    ensures
        x is CreateImage && create_run(CreateStage::Begin(req), os).contains(x) ==> (os.len() >= 1
            && os[0] == Outcome::Done && (x matches Action::CreateImage(f) && f.name == req.name
            && f.description == req.description && f.is_premium == req.is_premium && f.publish_at
            == req.publish_at && f.kind == req.kind)),
        x is UpdateMetadata && create_run(CreateStage::Begin(req), os).contains(x) ==> (os.len()
            >= 2 && os[0] == Outcome::Done && (os[1] matches Outcome::CreatedId(i) && (
        x matches Action::UpdateMetadata(j, l) && j == i && writes_list_if_nonempty(
            l.affiliations,
            req.affiliations,
        ) && writes_list_if_nonempty(l.age_ranges, req.age_ranges) && writes_list_if_nonempty(
            l.styles,
            req.styles,
        ) && writes_list_if_nonempty(l.categories, req.categories)))),
{
    if os.len() > 0 {
        let (next, a) = create_next(CreateStage::Begin(req), os[0]);
        lemma_create_steps_create(create_lists(req), os.skip(1), x);
        lemma_contains_cons(a, create_run(next, os.skip(1)), x);
    }
}

proof fn lemma_create_run_commit(id: u128, os: Seq<Outcome>, answer: u128)
    ensures
        create_run(CreateStage::Commit(id), os).contains(Action::Respond(Reply::Created(answer)))
            <==> (os.len() >= 1 && os[0] == Outcome::Done && answer == id),
{
    if os.len() > 0 {
        let (next, a) = create_next(CreateStage::Commit(id), os[0]);
        lemma_contains_cons(
            a,
            create_run(next, os.skip(1)),
            Action::Respond(Reply::Created(answer)),
        );
    }
}

proof fn lemma_create_run_metadata(id: u128, os: Seq<Outcome>, answer: u128)
    ensures
        create_run(CreateStage::Metadata(id), os).contains(Action::Respond(Reply::Created(answer)))
            <==> (os.len() >= 2 && os[0] == Outcome::Done && os[1] == Outcome::Done && answer == id),
{
    if os.len() > 0 {
        let (next, a) = create_next(CreateStage::Metadata(id), os[0]);
        lemma_create_run_commit(id, os.skip(1), answer);
        lemma_contains_cons(
            a,
            create_run(next, os.skip(1)),
            Action::Respond(Reply::Created(answer)),
        );
    }
}

proof fn lemma_create_run_create(lists: MetadataLists, os: Seq<Outcome>, answer: u128)
    ensures
        create_run(CreateStage::Create(lists), os).contains(
            Action::Respond(Reply::Created(answer)),
        ) <==> (os.len() >= 3 && os[0] == Outcome::CreatedId(answer) && os[1] == Outcome::Done
            && os[2] == Outcome::Done),
{
    if os.len() > 0 {
        let (next, a) = create_next(CreateStage::Create(lists), os[0]);
        if let Outcome::CreatedId(id) = os[0] {
            lemma_create_run_metadata(id, os.skip(1), answer);
        }
        lemma_contains_cons(
            a,
            create_run(next, os.skip(1)),
            Action::Respond(Reply::Created(answer)),
        );
    }
}

/// A creation answers the id of the row it created, and only when the row,
/// its metadata and the commit all succeeded.
pub proof fn lemma_create_answers_created_id(
    req: ImageCreateRequest,
    os: Seq<Outcome>,
    answer: u128,
)
    ensures
        create_run(CreateStage::Begin(req), os).contains(Action::Respond(Reply::Created(answer)))
            <==> (os.len() >= 4 && os[0] == Outcome::Done && os[1] == Outcome::CreatedId(answer)
            && os[2] == Outcome::Done && os[3] == Outcome::Done),
{
    if os.len() > 0 {
        let (next, a) = create_next(CreateStage::Begin(req), os[0]);
        lemma_create_run_create(create_lists(req), os.skip(1), answer);
        lemma_contains_cons(
            a,
            create_run(next, os.skip(1)),
            Action::Respond(Reply::Created(answer)),
        );
    }
}

/// The actions a delete issues after its first one, when its steps come back
/// with `os`.
pub open spec fn delete_run(stage: DeleteStage, os: Seq<Outcome>) -> Seq<Action>
    decreases os.len(),
{
    if os.len() == 0 || stage is Done {
        Seq::empty()
    } else {
        let (next, action) = delete_next(stage, os[0]);
        seq![action] + delete_run(next, os.skip(1))
    }
}

proof fn lemma_delete_steps_media(os: Seq<Outcome>, x: Action)
    ensures
        delete_run(DeleteStage::Media, os).contains(x) ==> (os.len() >= 1 && x
            == Action::Respond(Reply::NoContent)),
{
    if os.len() > 0 {
        let (next, a) = delete_next(DeleteStage::Media, os[0]);
        lemma_contains_cons(a, delete_run(next, os.skip(1)), x);
    }
}

/// A delete started for the image `id` in `lib` removes the media of that
/// image in that library alone, and only after its row was deleted; besides
/// that it only answers: no content once the row is gone, a conflict where
/// the image is still referenced.
pub proof fn lemma_delete_scope(lib: MediaLibrary, id: u128, os: Seq<Outcome>, x: Action)
    ensures
        delete_run(DeleteStage::Delete(lib, id), os).contains(x) ==> (x is DeleteMedia
            || x is Respond),
        x is DeleteMedia && delete_run(DeleteStage::Delete(lib, id), os).contains(x) ==> (x
            == Action::DeleteMedia(lib, id) && os.len() >= 1 && os[0] == Outcome::Done),
        delete_run(DeleteStage::Delete(lib, id), os).contains(Action::Respond(Reply::NoContent))
            <==> (os.len() >= 2 && os[0] == Outcome::Done),
        os.len() >= 1 && os[0] == Outcome::StillReferenced ==> delete_run(
            DeleteStage::Delete(lib, id),
            os,
        ) == seq![Action::Respond(Reply::Error(ApiError::Conflict))],
{
    if os.len() > 0 {
        let (next, a) = delete_next(DeleteStage::Delete(lib, id), os[0]);
        lemma_delete_steps_media(os.skip(1), x);
        lemma_delete_steps_media(os.skip(1), Action::Respond(Reply::NoContent));
        lemma_contains_cons(a, delete_run(next, os.skip(1)), x);
        lemma_contains_cons(a, delete_run(next, os.skip(1)), Action::Respond(Reply::NoContent));
        if os.len() >= 2 && os[0] == Outcome::Done {
            let m = delete_run(DeleteStage::Media, os.skip(1));
            assert(m[0] == Action::Respond(Reply::NoContent));
        }
        if os[0] == Outcome::StillReferenced {
            assert(delete_run(next, os.skip(1)) =~= Seq::<Action>::empty());
        }
    }
}

proof fn lemma_upload_run_len(stage: UploadStage, os: Seq<Outcome>)
    ensures
        upload_run(stage, os).len() <= os.len(),
    decreases os.len(),
{
    if os.len() > 0 && !(stage is Done) {
        let (next, a) = upload_next(stage, os[0]);
        lemma_upload_run_len(next, os.skip(1));
    }
}

/// Wherever an upload step fails, the upload answers that failure and
/// issues nothing more: a failed step as an internal error, bytes that are
/// no image as invalid media, missing metadata as such, and a still
/// referenced image as a conflict.
pub proof fn lemma_upload_failures_answer(stage: UploadStage, os: Seq<Outcome>, i: int)
    requires
        0 <= i < upload_run(stage, os).len(),
    ensures
        os[i] == Outcome::Failed ==> (upload_run(stage, os)[i] == Action::Respond(
            Reply::Error(ApiError::InternalServerError),
        ) && upload_run(stage, os).len() == i + 1),
        os[i] == Outcome::BadImage ==> (upload_run(stage, os)[i] == Action::Respond(
            Reply::Error(ApiError::InvalidMedia),
        ) && upload_run(stage, os).len() == i + 1),
        os[i] == Outcome::StillReferenced ==> (upload_run(stage, os)[i] == Action::Respond(
            Reply::Error(ApiError::Conflict),
        ) && upload_run(stage, os).len() == i + 1),
        os[i] matches Outcome::MetadataMissing(m, k) ==> (upload_run(stage, os)[i]
            == Action::Respond(Reply::Error(ApiError::MissingMetadata { id: m, kind: k }))
            && upload_run(stage, os).len() == i + 1),
    decreases os.len(),
{
    let (next, a) = upload_next(stage, os[0]);
    let rest = upload_run(next, os.skip(1));
    lemma_upload_run_len(stage, os);
    assert(upload_run(stage, os) == seq![a] + rest);
    if i > 0 {
        lemma_upload_failures_answer(next, os.skip(1), i - 1);
        assert(upload_run(stage, os)[i] == rest[i - 1]);
    }
}

proof fn lemma_update_run_len(stage: UpdateStage, os: Seq<Outcome>)
    ensures
        update_run(stage, os).len() <= os.len(),
    decreases os.len(),
{
    if os.len() > 0 && !(stage is Done) {
        let (next, a) = update_next(stage, os[0]);
        lemma_update_run_len(next, os.skip(1));
    }
}

/// Wherever an update step fails, the update answers that failure and
/// issues nothing more.
pub proof fn lemma_update_failures_answer(stage: UpdateStage, os: Seq<Outcome>, i: int)
    requires
        0 <= i < update_run(stage, os).len(),
    ensures
        os[i] == Outcome::Failed ==> (update_run(stage, os)[i] == Action::Respond(
            Reply::Error(ApiError::InternalServerError),
        ) && update_run(stage, os).len() == i + 1),
        os[i] == Outcome::BadImage ==> (update_run(stage, os)[i] == Action::Respond(
            Reply::Error(ApiError::InvalidMedia),
        ) && update_run(stage, os).len() == i + 1),
        os[i] == Outcome::StillReferenced ==> (update_run(stage, os)[i] == Action::Respond(
            Reply::Error(ApiError::Conflict),
        ) && update_run(stage, os).len() == i + 1),
        os[i] matches Outcome::MetadataMissing(m, k) ==> (update_run(stage, os)[i]
            == Action::Respond(Reply::Error(ApiError::MissingMetadata { id: m, kind: k }))
            && update_run(stage, os).len() == i + 1),
    decreases os.len(),
{
    let (next, a) = update_next(stage, os[0]);
    let rest = update_run(next, os.skip(1));
    lemma_update_run_len(stage, os);
    assert(update_run(stage, os) == seq![a] + rest);
    if i > 0 {
        lemma_update_failures_answer(next, os.skip(1), i - 1);
        assert(update_run(stage, os)[i] == rest[i - 1]);
    }
}

proof fn lemma_create_run_len(stage: CreateStage, os: Seq<Outcome>)
    ensures
        create_run(stage, os).len() <= os.len(),
    decreases os.len(),
{
    if os.len() > 0 && !(stage is Done) {
        let (next, a) = create_next(stage, os[0]);
        lemma_create_run_len(next, os.skip(1));
    }
}

/// Wherever a creation step fails, the creation answers that failure and
/// issues nothing more.
pub proof fn lemma_create_failures_answer(stage: CreateStage, os: Seq<Outcome>, i: int)
    requires
        0 <= i < create_run(stage, os).len(),
    ensures
        os[i] == Outcome::Failed ==> (create_run(stage, os)[i] == Action::Respond(
            Reply::Error(ApiError::InternalServerError),
        ) && create_run(stage, os).len() == i + 1),
        os[i] == Outcome::BadImage ==> (create_run(stage, os)[i] == Action::Respond(
            Reply::Error(ApiError::InvalidMedia),
        ) && create_run(stage, os).len() == i + 1),
        os[i] == Outcome::StillReferenced ==> (create_run(stage, os)[i] == Action::Respond(
            Reply::Error(ApiError::Conflict),
        ) && create_run(stage, os).len() == i + 1),
        os[i] matches Outcome::MetadataMissing(m, k) ==> (create_run(stage, os)[i]
            == Action::Respond(Reply::Error(ApiError::MissingMetadata { id: m, kind: k }))
            && create_run(stage, os).len() == i + 1),
    decreases os.len(),
{
    let (next, a) = create_next(stage, os[0]);
    let rest = create_run(next, os.skip(1));
    lemma_create_run_len(stage, os);
    assert(create_run(stage, os) == seq![a] + rest);
    if i > 0 {
        lemma_create_failures_answer(next, os.skip(1), i - 1);
        assert(create_run(stage, os)[i] == rest[i - 1]);
    }
}

/// An upload whose every step succeeds locks the row, decodes the bytes as
/// the image's kind (a sticker in a user's library), stores the renditions,
/// marks the row uploaded, commits and answers no content, in that order;
/// one whose row is not found answers not found right after the lock.
pub proof fn lemma_upload_runs(lib: MediaLibrary, id: u128, row: ImageKind)
    ensures
        upload_run(
            UploadStage::Begin(lib, id),
            seq![
                Outcome::Done,
                Outcome::Locked(Some(row)),
                Outcome::Done,
                Outcome::Done,
                Outcome::Done,
                Outcome::Done,
            ],
        ) == seq![
            Action::LockImage(lib, id),
            Action::ProcessImage(
                if lib == MediaLibrary::User {
                    ImageKind::Sticker
                } else {
                    row
                },
            ),
            Action::UploadImages(lib, id),
            Action::MarkUploaded(lib, id),
            Action::Commit,
            Action::Respond(Reply::NoContent),
        ],
        upload_run(UploadStage::Begin(lib, id), seq![Outcome::Done, Outcome::Locked(None)])
            == seq![
            Action::LockImage(lib, id),
            Action::Respond(Reply::Error(ApiError::ResourceNotFound)),
        ],
{
    let os = seq![
        Outcome::Done,
        Outcome::Locked(Some(row)),
        Outcome::Done,
        Outcome::Done,
        Outcome::Done,
        Outcome::Done,
    ];
    reveal_with_fuel(upload_run, 7);
    assert(os.skip(1) =~= seq![
        Outcome::Locked(Some(row)),
        Outcome::Done,
        Outcome::Done,
        Outcome::Done,
        Outcome::Done,
    ]);
    assert(upload_run(UploadStage::Begin(lib, id), os) =~= seq![
        Action::LockImage(lib, id),
        Action::ProcessImage(
            if lib == MediaLibrary::User {
                ImageKind::Sticker
            } else {
                row
            },
        ),
        Action::UploadImages(lib, id),
        Action::MarkUploaded(lib, id),
        Action::Commit,
        Action::Respond(Reply::NoContent),
    ]);
    let nf = seq![Outcome::Done, Outcome::Locked(None)];
    assert(upload_run(UploadStage::Begin(lib, id), nf) =~= seq![
        Action::LockImage(lib, id),
        Action::Respond(Reply::Error(ApiError::ResourceNotFound)),
    ]);
}

/// An update of an existing image whose every step succeeds writes the
/// request's field changes and its metadata lists to that image, commits
/// and answers no content, in that order; where the image does not exist it
/// answers not found right after the field write.
pub proof fn lemma_update_runs(id: u128, req: ImageUpdateRequest)
    ensures
        update_run(
            UpdateStage::Begin(id, req),
            seq![Outcome::Done, Outcome::Existed(true), Outcome::Done, Outcome::Done],
        ) == seq![
            Action::UpdateImage(
                id,
                ImageFieldUpdate {
                    name: req.name,
                    description: req.description,
                    is_premium: req.is_premium,
                    publish_at: req.publish_at,
                },
            ),
            Action::UpdateMetadata(
                id,
                MetadataLists {
                    affiliations: req.affiliations,
                    age_ranges: req.age_ranges,
                    styles: req.styles,
                    categories: req.categories,
                },
            ),
            Action::Commit,
            Action::Respond(Reply::NoContent),
        ],
        update_run(UpdateStage::Begin(id, req), seq![Outcome::Done, Outcome::Existed(false)])
            == seq![
            Action::UpdateImage(
                id,
                ImageFieldUpdate {
                    name: req.name,
                    description: req.description,
                    is_premium: req.is_premium,
                    publish_at: req.publish_at,
                },
            ),
            Action::Respond(Reply::Error(ApiError::ResourceNotFound)),
        ],
{
    reveal_with_fuel(update_run, 5);
    let os = seq![Outcome::Done, Outcome::Existed(true), Outcome::Done, Outcome::Done];
    let f = ImageFieldUpdate {
        name: req.name,
        description: req.description,
        is_premium: req.is_premium,
        publish_at: req.publish_at,
    };
    let l = MetadataLists {
        affiliations: req.affiliations,
        age_ranges: req.age_ranges,
        styles: req.styles,
        categories: req.categories,
    };
    assert(update_run(UpdateStage::Begin(id, req), os) =~= seq![
        Action::UpdateImage(id, f),
        Action::UpdateMetadata(id, l),
        Action::Commit,
        Action::Respond(Reply::NoContent),
    ]);
    let nf = seq![Outcome::Done, Outcome::Existed(false)];
    assert(update_run(UpdateStage::Begin(id, req), nf) =~= seq![
        Action::UpdateImage(id, f),
        Action::Respond(Reply::Error(ApiError::ResourceNotFound)),
    ]);
}

/// A creation whose every step succeeds creates the row with the request's
/// fields, writes the request's non-empty metadata lists to the row it
/// created, commits and answers that row's id, in that order.
pub proof fn lemma_create_runs(req: ImageCreateRequest, n: u128)
    ensures
        ({
            let run = create_run(
                CreateStage::Begin(req),
                seq![Outcome::Done, Outcome::CreatedId(n), Outcome::Done, Outcome::Done],
            );
            &&& run.len() == 4
            &&& run[0] == Action::CreateImage(
                ImageFields {
                    name: req.name,
                    description: req.description,
                    is_premium: req.is_premium,
                    publish_at: req.publish_at,
                    kind: req.kind,
                },
            )
            &&& run[1] matches Action::UpdateMetadata(j, l) && j == n && writes_list_if_nonempty(
                l.affiliations,
                req.affiliations,
            ) && writes_list_if_nonempty(l.age_ranges, req.age_ranges) && writes_list_if_nonempty(
                l.styles,
                req.styles,
            ) && writes_list_if_nonempty(l.categories, req.categories)
            &&& run[2] == Action::Commit
            &&& run[3] == Action::Respond(Reply::Created(n))
        }),
{
    reveal_with_fuel(create_run, 5);
}

/// A search loads exactly the images the search service found and answers
/// them with the service's totals; where the service is disabled it answers
/// so without loading anything; a failed search or load is an internal
/// error.
pub proof fn lemma_search_answers(ids: Vec<u128>, totals: SearchTotals)
    ensures
        search_next(SearchStage::Search, Outcome::Searched(Some((ids, totals))))
            == (SearchStage::Load(totals), Action::LoadImages(ids)),
        search_next(SearchStage::Load(totals), Outcome::Done).1 == Action::Respond(
            Reply::SearchResults(totals),
        ),
        search_next(SearchStage::Search, Outcome::Searched(None)) == (
        SearchStage::Done,
        Action::Respond(Reply::Error(ApiError::DisabledService)),
        ),
        search_next(SearchStage::Search, Outcome::Failed).1 == Action::Respond(
            Reply::Error(ApiError::InternalServerError),
        ),
        search_next(SearchStage::Load(totals), Outcome::Failed).1 == Action::Respond(
            Reply::Error(ApiError::InternalServerError),
        ),
{
}

} // verus!
