use jicloud_logic::image::{DeleteError, MetaKind, MetaWrapperError};
use jicloud_logic::image_flow::{
    create_start, create_step, delete_failure, delete_media_targets, delete_start, delete_step,
    get_start, get_step, list_start, list_step, metadata_failure, renditions, search_start,
    search_step, update_start, update_step, upload_media_targets, upload_start, upload_step,
    user_create_start, user_create_step, Action, ApiError, CreateStage, DeleteStage, ImageCreateRequest,
    ImageFieldUpdate, ImageFields, ImageKind, ImageUpdateRequest, MediaLibrary, MediaTarget,
    MetadataLists, Outcome, PngImageFile, Reply, SearchQuery, SearchStage, SearchTotals, UpdateStage,
    UploadStage,
};
use jicloud_logic::meta::UtcTime;

fn create_request() -> ImageCreateRequest {
    ImageCreateRequest {
        name: "Cat".to_string(),
        description: "a cat".to_string(),
        is_premium: true,
        publish_at: Some(UtcTime { secs: 1_600_000_000, nanos: 5 }),
        kind: ImageKind::Canvas,
        affiliations: vec![],
        age_ranges: vec![7],
        styles: vec![1, 2],
        categories: vec![],
    }
}

#[test]
fn create_runs_to_created() {
    let (s, a) = create_start(create_request());
    assert_eq!(a, Action::BeginTransaction);
    let (s, a) = create_step(s, Outcome::Done);
    assert_eq!(
        a,
        Action::CreateImage(ImageFields {
            name: "Cat".to_string(),
            description: "a cat".to_string(),
            is_premium: true,
            publish_at: Some(UtcTime { secs: 1_600_000_000, nanos: 5 }),
            kind: ImageKind::Canvas,
        })
    );
    let (s, a) = create_step(s, Outcome::CreatedId(42));
    assert_eq!(
        a,
        Action::UpdateMetadata(
            42,
            MetadataLists {
                affiliations: None,
                age_ranges: Some(vec![7]),
                styles: Some(vec![1, 2]),
                categories: None,
            }
        )
    );
    let (s, a) = create_step(s, Outcome::Done);
    assert_eq!(a, Action::Commit);
    let (s, a) = create_step(s, Outcome::Done);
    assert_eq!(a, Action::Respond(Reply::Created(42)));
    assert_eq!(s, CreateStage::Done);
}

#[test]
fn create_reports_missing_metadata() {
    let lists = MetadataLists { affiliations: None, age_ranges: None, styles: None, categories: None };
    let (s, _) = create_step(CreateStage::Create(lists), Outcome::CreatedId(7));
    let (s, a) = create_step(s, Outcome::MetadataMissing(Some(9), MetaKind::Style));
    assert_eq!(
        a,
        Action::Respond(Reply::Error(ApiError::MissingMetadata { id: Some(9), kind: MetaKind::Style }))
    );
    assert_eq!(s, CreateStage::Done);
    let (_, a) = create_step(CreateStage::Begin(create_request()), Outcome::Failed);
    assert_eq!(a, Action::Respond(Reply::Error(ApiError::InternalServerError)));
}

#[test]
fn user_create_answers_the_id() {
    assert_eq!(user_create_start(), Action::CreateUserImage);
    assert_eq!(user_create_step(Outcome::CreatedId(5)), Action::Respond(Reply::Created(5)));
    assert_eq!(
        user_create_step(Outcome::Failed),
        Action::Respond(Reply::Error(ApiError::InternalServerError))
    );
}

#[test]
fn upload_global_uses_the_row_kind() {
    let (s, a) = upload_start(MediaLibrary::Global, 11);
    assert_eq!(a, Action::BeginTransaction);
    let (s, a) = upload_step(s, Outcome::Done);
    assert_eq!(a, Action::LockImage(MediaLibrary::Global, 11));
    let (s, a) = upload_step(s, Outcome::Locked(Some(ImageKind::Canvas)));
    assert_eq!(a, Action::ProcessImage(ImageKind::Canvas));
    let (s, a) = upload_step(s, Outcome::Done);
    assert_eq!(a, Action::UploadImages(MediaLibrary::Global, 11));
    let (s, a) = upload_step(s, Outcome::Done);
    assert_eq!(a, Action::MarkUploaded(MediaLibrary::Global, 11));
    let (s, a) = upload_step(s, Outcome::Done);
    assert_eq!(a, Action::Commit);
    let (s, a) = upload_step(s, Outcome::Done);
    assert_eq!(a, Action::Respond(Reply::NoContent));
    assert_eq!(s, UploadStage::Done);
}

#[test]
fn upload_user_images_are_stickers() {
    let (s, _) = upload_step(UploadStage::Begin(MediaLibrary::User, 3), Outcome::Done);
    let (_, a) = upload_step(s, Outcome::Locked(Some(ImageKind::Canvas)));
    assert_eq!(a, Action::ProcessImage(ImageKind::Sticker));
}

#[test]
fn upload_failures() {
    let (_, a) = upload_step(UploadStage::Lock(MediaLibrary::Global, 1), Outcome::Locked(None));
    assert_eq!(a, Action::Respond(Reply::Error(ApiError::ResourceNotFound)));
    let (_, a) = upload_step(UploadStage::Process(MediaLibrary::User, 1), Outcome::BadImage);
    assert_eq!(a, Action::Respond(Reply::Error(ApiError::InvalidMedia)));
    let (_, a) = upload_step(UploadStage::Store(MediaLibrary::User, 1), Outcome::Failed);
    assert_eq!(a, Action::Respond(Reply::Error(ApiError::InternalServerError)));
}

#[test]
fn upload_writes_three_renditions_under_the_id() {
    assert_eq!(
        upload_media_targets(MediaLibrary::User, 8),
        vec![
            MediaTarget::Rendition(MediaLibrary::User, 8, PngImageFile::Original),
            MediaTarget::Rendition(MediaLibrary::User, 8, PngImageFile::Resized),
            MediaTarget::Rendition(MediaLibrary::User, 8, PngImageFile::Thumbnail),
        ]
    );
}

#[test]
fn update_runs_and_stops_on_a_missing_image() {
    let req = ImageUpdateRequest {
        name: Some("New".to_string()),
        publish_at: Some(None),
        styles: Some(vec![4]),
        ..Default::default()
    };
    let (s, a) = update_start(9, Some(req));
    assert_eq!(a, Action::BeginTransaction);
    let (s, a) = update_step(s, Outcome::Done);
    assert_eq!(
        a,
        Action::UpdateImage(
            9,
            ImageFieldUpdate {
                name: Some("New".to_string()),
                description: None,
                is_premium: None,
                publish_at: Some(None),
            }
        )
    );
    let (s2, a) = update_step(s.clone(), Outcome::Existed(false));
    assert_eq!(a, Action::Respond(Reply::Error(ApiError::ResourceNotFound)));
    assert_eq!(s2, UpdateStage::Done);
    let (s, a) = update_step(s, Outcome::Existed(true));
    assert_eq!(
        a,
        Action::UpdateMetadata(
            9,
            MetadataLists { affiliations: None, age_ranges: None, styles: Some(vec![4]), categories: None }
        )
    );
    let (s, a) = update_step(s, Outcome::Done);
    assert_eq!(a, Action::Commit);
    let (_, a) = update_step(s, Outcome::Done);
    assert_eq!(a, Action::Respond(Reply::NoContent));
}

#[test]
fn update_without_a_body_changes_nothing() {
    let (s_none, _) = update_start(9, None);
    let (s_default, _) = update_start(9, Some(ImageUpdateRequest::default()));
    assert_eq!(s_none, s_default);
    let (_, a) = update_step(s_none, Outcome::Done);
    assert_eq!(
        a,
        Action::UpdateImage(
            9,
            ImageFieldUpdate { name: None, description: None, is_premium: None, publish_at: None }
        )
    );
}

#[test]
fn delete_ignores_media_results() {
    let (s, a) = delete_start(MediaLibrary::Global, 5);
    assert_eq!(a, Action::DeleteImage(MediaLibrary::Global, 5));
    let (s, a) = delete_step(s, Outcome::Done);
    assert_eq!(a, Action::DeleteMedia(MediaLibrary::Global, 5));
    let (s, a) = delete_step(s, Outcome::Failed);
    assert_eq!(a, Action::Respond(Reply::NoContent));
    assert_eq!(s, DeleteStage::Done);
    let (_, a) = delete_step(DeleteStage::Delete(MediaLibrary::User, 5), Outcome::StillReferenced);
    assert_eq!(a, Action::Respond(Reply::Error(ApiError::Conflict)));
}

#[test]
fn search_passes_query_and_found_ids() {
    let query = SearchQuery { q: "dog".to_string(), page: Some(2), styles: vec![3], ..Default::default() };
    let (s, a) = search_start(Some(query.clone()));
    assert_eq!(a, Action::Search(query));
    let (_, a) = search_start(None);
    assert_eq!(a, Action::Search(SearchQuery::default()));
    let (s2, a) = search_step(s, Outcome::Searched(None));
    assert_eq!(a, Action::Respond(Reply::Error(ApiError::DisabledService)));
    assert_eq!(s2, SearchStage::Done);
    let totals = SearchTotals { pages: 3, total_hits: 57 };
    let (s, a) = search_step(s, Outcome::Searched(Some((vec![10, 20], totals))));
    assert_eq!(a, Action::LoadImages(vec![10, 20]));
    assert_eq!(s, SearchStage::Load(totals));
    let (_, a) = search_step(s, Outcome::Done);
    assert_eq!(a, Action::Respond(Reply::SearchResults(totals)));
    let (_, a) = search_step(SearchStage::Load(totals), Outcome::Failed);
    assert_eq!(a, Action::Respond(Reply::Error(ApiError::InternalServerError)));
}

#[test]
fn lookups() {
    assert_eq!(get_start(MediaLibrary::User, 4), Action::GetImage(MediaLibrary::User, 4));
    assert_eq!(get_step(Outcome::Existed(true)), Action::Respond(Reply::Found));
    assert_eq!(get_step(Outcome::Existed(false)), Action::Respond(Reply::Error(ApiError::ResourceNotFound)));
    assert_eq!(list_start(), Action::ListUserImages);
    assert_eq!(list_step(Outcome::Done), Action::Respond(Reply::Found));
    assert_eq!(list_step(Outcome::Failed), Action::Respond(Reply::Error(ApiError::InternalServerError)));
}

#[test]
fn error_outcomes() {
    assert_eq!(
        metadata_failure(&MetaWrapperError::MissingMetadata { id: None, kind: MetaKind::Affiliation }),
        Outcome::MetadataMissing(None, MetaKind::Affiliation)
    );
    assert_eq!(metadata_failure(&MetaWrapperError::Sqlx(sqlx::Error::RowNotFound)), Outcome::Failed);
    assert_eq!(delete_failure(&DeleteError::Conflict), Outcome::StillReferenced);
    assert_eq!(delete_failure(&DeleteError::InternalServerError(sqlx::Error::RowNotFound)), Outcome::Failed);
}

#[test]
fn unexpected_outcomes_end_with_an_internal_error() {
    let (s, a) = create_step(CreateStage::Begin(create_request()), Outcome::CreatedId(1));
    assert_eq!(a, Action::Respond(Reply::Error(ApiError::InternalServerError)));
    assert_eq!(s, CreateStage::Done);
    let (_, a) = update_step(UpdateStage::Done, Outcome::Done);
    assert_eq!(a, Action::Respond(Reply::Error(ApiError::InternalServerError)));
}

#[test]
fn three_renditions_are_stored() {
    assert_eq!(renditions(), vec![PngImageFile::Original, PngImageFile::Resized, PngImageFile::Thumbnail]);
}

#[test]
fn delete_removes_renditions_and_global_search_entry() {
    assert_eq!(
        delete_media_targets(MediaLibrary::Global, 6),
        vec![
            MediaTarget::Rendition(MediaLibrary::Global, 6, PngImageFile::Original),
            MediaTarget::Rendition(MediaLibrary::Global, 6, PngImageFile::Resized),
            MediaTarget::Rendition(MediaLibrary::Global, 6, PngImageFile::Thumbnail),
            MediaTarget::SearchEntry(6),
        ]
    );
    assert_eq!(delete_media_targets(MediaLibrary::User, 6), upload_media_targets(MediaLibrary::User, 6));
}
