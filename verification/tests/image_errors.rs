use jicloud_logic::image::{
    check_conflict_delete, classify_metadata_error, delete_error_for, extract_uuid, handle_metadata_err,
    metadata_constraint_kind, DeleteError, MetaKind, MetaWrapperError,
};

const ID: &str = "f9c3f2ac-7ab4-11eb-9d56-33c6bd35c3e5";

fn id_value() -> u128 {
    uuid::Uuid::parse_str(ID).unwrap().as_u128()
}

#[test]
fn extract_uuid_from_foreign_key_detail() {
    let detail = format!("Key (style_id)=({}) is not present in table \"style\".", ID);
    assert_eq!(extract_uuid(&detail), Some(id_value()));
    assert_eq!(id_value(), 0xf9c3f2ac7ab411eb9d5633c6bd35c3e5);
}

#[test]
fn extract_uuid_needs_two_open_parens() {
    assert_eq!(extract_uuid("no parentheses at all"), None);
    assert_eq!(extract_uuid(&format!("Key (only one {}", ID)), None);
    assert_eq!(extract_uuid(""), None);
}

#[test]
fn extract_uuid_needs_a_close_paren_in_the_third_piece() {
    // the text after the second `(` runs to the end without `)`
    assert_eq!(extract_uuid(&format!("Key (k)=({}", ID)), None);
    // the first `)` after the second `(` comes only after a third `(`
    assert_eq!(extract_uuid(&format!("Key (k)=({}(x)", ID)), None);
}

#[test]
fn extract_uuid_rejects_a_non_uuid() {
    assert_eq!(extract_uuid("Key (k)=(not-a-uuid) is missing"), None);
    assert_eq!(extract_uuid("Key (k)=() is missing"), None);
}

#[test]
fn extract_uuid_accepts_other_uuid_forms() {
    let simple = "f9c3f2ac7ab411eb9d5633c6bd35c3e5";
    assert_eq!(extract_uuid(&format!("a(b(({})", simple)), None);
    assert_eq!(extract_uuid(&format!("a(b({})tail(", simple)), Some(id_value()));
}

#[test]
fn constraint_names_map_to_kinds() {
    assert_eq!(metadata_constraint_kind("image_affiliation_affiliation_id_fkey"), Some(MetaKind::Affiliation));
    assert_eq!(metadata_constraint_kind("image_age_range_age_range_id_fkey"), Some(MetaKind::AgeRange));
    assert_eq!(metadata_constraint_kind("image_style_style_id_fkey"), Some(MetaKind::Style));
    assert_eq!(metadata_constraint_kind("image_category_category_id_fkey"), Some(MetaKind::Category));
    assert_eq!(metadata_constraint_kind("image_style_style_id_fke"), None);
    assert_eq!(metadata_constraint_kind(""), None);
}

#[test]
fn classify_reads_id_and_kind() {
    let detail = format!("Key (category_id)=({}) is not present", ID);
    assert_eq!(
        classify_metadata_error(Some(&detail), Some("image_category_category_id_fkey")),
        Some((Some(id_value()), MetaKind::Category))
    );
    assert_eq!(
        classify_metadata_error(None, Some("image_style_style_id_fkey")),
        Some((None, MetaKind::Style))
    );
    assert_eq!(
        classify_metadata_error(Some("garbled"), Some("image_age_range_age_range_id_fkey")),
        Some((None, MetaKind::AgeRange))
    );
    assert_eq!(classify_metadata_error(Some(&detail), Some("other_fkey")), None);
    assert_eq!(classify_metadata_error(Some(&detail), None), None);
}

#[test]
fn non_database_errors_pass_through_metadata_handling() {
    match handle_metadata_err(sqlx::Error::RowNotFound) {
        MetaWrapperError::Sqlx(sqlx::Error::RowNotFound) => {}
        other => panic!("unexpected {:?}", other),
    }
    match handle_metadata_err(sqlx::Error::Protocol("bad".to_string())) {
        MetaWrapperError::Sqlx(sqlx::Error::Protocol(m)) => assert_eq!(m, "bad"),
        other => panic!("unexpected {:?}", other),
    }
}

#[test]
fn non_database_errors_on_delete_are_internal() {
    match check_conflict_delete(sqlx::Error::RowNotFound) {
        DeleteError::InternalServerError(sqlx::Error::RowNotFound) => {}
        other => panic!("unexpected {:?}", other),
    }
}

#[test]
fn delete_error_follows_the_constraint() {
    assert!(matches!(delete_error_for(sqlx::Error::RowNotFound, true), DeleteError::Conflict));
    assert!(matches!(
        delete_error_for(sqlx::Error::RowNotFound, false),
        DeleteError::InternalServerError(sqlx::Error::RowNotFound)
    ));
}

#[test]
fn extract_uuid_reads_back_a_displayed_uuid() {
    let u = uuid::Uuid::from_u128(0x0123_4567_89ab_cdef_0011_2233_4455_6677);
    for (k, p) in [("style_id", " is not present"), ("", ""), ("a)b=c", ")(x(")] {
        let detail = format!("Key ({})=({}){}", k, u, p);
        assert_eq!(extract_uuid(&detail), Some(u.as_u128()));
    }
}

#[test]
fn extract_uuid_reads_every_uuid_form() {
    let v = id_value();
    let upper = ID.to_uppercase();
    assert_eq!(extract_uuid(&format!("Key (k)=({})", upper)), Some(v));
    assert_eq!(extract_uuid(&format!("Key (k)=({{{}}})", ID)), Some(v));
    assert_eq!(extract_uuid(&format!("Key (k)=(URN:uuid:{})", ID)), Some(v));
    assert_eq!(extract_uuid(&format!("Key (k)=({})", ID.replace('-', ""))), Some(v));
    assert_eq!(extract_uuid(&format!("Key (k)=([{}])", ID)), None);
    assert_eq!(extract_uuid(&format!("Key (k)=({}0)", ID)), None);
    assert_eq!(extract_uuid(&format!("Key (k)=({})", ID.replacen('-', "+", 1))), None);
}
