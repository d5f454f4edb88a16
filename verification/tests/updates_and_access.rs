use home_library::access::{permission_after_owner, permission_from_membership, PermissionStep};
use home_library::covers::{
    cover_paths, cover_too_large_exec, covers_to_remove, local_cover_path_exec, new_cover_location, prepare_cover,
    CoverFailure,
};
use home_library::json::{get, get_opt, int_of, list_of, text_of, JsonNumber, JsonValue};
use home_library::model::{DecimalValue, UpdateBookPartialDto};
use home_library::patch::{patch_book_statements, update_profile_statement};
use home_library::responses::{
    patch_target_found, profile_update_status, removal_status, replacement_found,
};

fn roles(items: &[&str]) -> Vec<String> {
    items.iter().map(|s| s.to_string()).collect()
}

#[test]
fn patch_sets_exactly_the_given_fields() {
    let mut p = UpdateBookPartialDto::default();
    p.title = Some("Dune".to_string());
    p.page_count = Some(412);
    p.purchase_price = Some(DecimalValue { mantissa: 1999, scale: 2 });
    p.rating = Some(4);
    p.personal_notes = Some("gift".to_string());
    let (book, reading) = patch_book_statements(p, 5, 6);
    assert_eq!(
        book.unwrap().inner.sql(),
        "UPDATE books SET title = $1, page_count = $2, purchase_price = $3, updated_at = NOW() WHERE id = $4"
    );
    assert_eq!(
        reading.unwrap().inner.sql(),
        "UPDATE user_book_interactions SET rating = $1, personal_notes = $2 WHERE user_id = $3 AND book_id = $4"
    );
}

#[test]
fn empty_patch_runs_no_statement() {
    let (book, reading) = patch_book_statements(UpdateBookPartialDto::default(), 5, 6);
    assert!(book.is_none());
    assert!(reading.is_none());
    let mut p = UpdateBookPartialDto::default();
    p.library_id = Some(3);
    let (book, reading) = patch_book_statements(p, 5, 6);
    assert_eq!(book.unwrap().inner.sql(), "UPDATE books SET library_id = $1, updated_at = NOW() WHERE id = $2");
    assert!(reading.is_none());
}

#[test]
fn profile_updates() {
    assert!(update_profile_statement(None, None, 1).is_none());
    let both = update_profile_statement(Some("ana".to_string()), Some("hash".to_string()), 1).unwrap();
    assert_eq!(both.inner.sql(), "UPDATE users SET username = $1, password_hash = $2 WHERE id = $3");
    let only_hash = update_profile_statement(None, Some("hash".to_string()), 1).unwrap();
    assert_eq!(only_hash.inner.sql(), "UPDATE users SET password_hash = $1 WHERE id = $2");
    let only_name = update_profile_statement(Some("ana".to_string()), None, 1).unwrap();
    assert_eq!(only_name.inner.sql(), "UPDATE users SET username = $1 WHERE id = $2");
}

#[test]
fn statuses() {
    assert_eq!(removal_status(0), 404);
    assert_eq!(removal_status(3), 204);
    assert_eq!(profile_update_status(false, 0), 204);
    assert_eq!(profile_update_status(true, 1), 200);
    assert_eq!(profile_update_status(true, 0), 404);
    assert!(replacement_found(1));
    assert!(!replacement_found(0));
    assert!(patch_target_found(Some(7)));
    assert!(!patch_target_found(None));
}

#[test]
fn library_permissions() {
    let all = roles(&["owner", "editor", "viewer"]);
    assert_eq!(permission_after_owner(None, 1, &all), PermissionStep::Denied);
    assert_eq!(permission_after_owner(Some(1), 1, &all), PermissionStep::Granted);
    assert_eq!(permission_after_owner(Some(1), 1, &roles(&["editor"])), PermissionStep::CheckMembership);
    assert_eq!(permission_after_owner(Some(2), 1, &all), PermissionStep::CheckMembership);
    assert!(permission_from_membership(Some("viewer".to_string()), &all));
    assert!(!permission_from_membership(Some("viewer".to_string()), &roles(&["editor"])));
    assert!(!permission_from_membership(None, &all));
}

#[test]
fn cover_storage() {
    let id = "3fa85f64-5717-4562-b3fc-2c963f66afa6";
    let (dir, file, upload) = cover_paths(id);
    assert_eq!(dir, "uploads/3f/a8");
    assert_eq!(file, format!("uploads/3f/a8/{}.webp", id));
    assert_eq!(upload.url, format!("/static/3f/a8/{}.webp", id));
    assert_eq!(local_cover_path_exec(&upload.url), Some(file.clone()));
    assert_eq!(local_cover_path_exec("https://covers.openlibrary.org/b/id/1-L.jpg"), None);
    assert!(cover_too_large_exec(5 * 1024 * 1024 + 1));
    assert!(!cover_too_large_exec(5 * 1024 * 1024));
}

#[test]
fn covers_removed_with_their_books() {
    let urls = vec![
        Some("/static/ab/cd/abcd.webp".to_string()),
        None,
        Some("https://elsewhere/x.jpg".to_string()),
        Some("/static/ef/gh/efgh.webp".to_string()),
    ];
    assert!(covers_to_remove(&urls, 0).is_empty());
    assert_eq!(
        covers_to_remove(&urls, 2),
        vec!["uploads/ab/cd/abcd.webp".to_string(), "uploads/ef/gh/efgh.webp".to_string()]
    );
}

#[test]
fn json_lookups() {
    let v = JsonValue::Object(vec![
        ("a".to_string(), JsonValue::Str("x".to_string())),
        ("a".to_string(), JsonValue::Str("second".to_string())),
        ("n".to_string(), JsonValue::Number(JsonNumber::NegInt(-4))),
        ("big".to_string(), JsonValue::Number(JsonNumber::PosInt(u64::MAX))),
        ("l".to_string(), JsonValue::Array(vec![JsonValue::Null])),
        ("o".to_string(), JsonValue::Object(vec![("k".to_string(), JsonValue::Bool(true))])),
    ]);
    assert_eq!(text_of(get(&v, "a")), Some("x".to_string()));
    assert_eq!(text_of(get(&v, "n")), None);
    assert_eq!(int_of(get(&v, "n")), Some(-4));
    assert_eq!(int_of(get(&v, "big")), None);
    assert_eq!(list_of(get(&v, "l")).map(|l| l.len()), Some(1));
    assert!(get_opt(get(&v, "o"), "k").is_some());
    assert!(get_opt(None, "k").is_none());
    assert!(get(&JsonValue::Null, "a").is_none());
}

fn tiny_png() -> Vec<u8> {
    let img = image::RgbImage::from_pixel(4, 6, image::Rgb([200, 10, 10]));
    let mut out = std::io::Cursor::new(Vec::new());
    image::DynamicImage::ImageRgb8(img).write_to(&mut out, image::ImageFormat::Png).unwrap();
    out.into_inner()
}

#[test]
fn uploaded_covers_become_webp() {
    let png = tiny_png();
    let webp = prepare_cover(&png).unwrap();
    assert_eq!(&webp[0..4], b"RIFF");
    assert_eq!(&webp[8..12], b"WEBP");
    assert_eq!(prepare_cover(b"not an image"), Err(CoverFailure::InvalidImage));
    let huge = vec![0u8; 5 * 1024 * 1024 + 1];
    assert_eq!(prepare_cover(&huge), Err(CoverFailure::TooLarge));
    assert_eq!(CoverFailure::TooLarge.answer(), (413, "Limit is 5MB"));
    assert_eq!(CoverFailure::InvalidImage.answer(), (400, "Invalid image"));
}

#[test]
fn fresh_upload_locations() {
    let (dir, file, upload) = new_cover_location();
    assert!(dir.starts_with("uploads/") && dir.len() == "uploads/ab/cd".len());
    assert!(file.starts_with(&dir) && file.ends_with(".webp"));
    assert_eq!(file.len(), dir.len() + 1 + 36 + 5);
    assert!(upload.url.starts_with("/static/"));
    assert_eq!(local_cover_path_exec(&upload.url), Some(file));
    let (_, other, _) = new_cover_location();
    assert_ne!(other, dir);
}
