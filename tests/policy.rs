use filerunner::catalog::{authorize_delete, authorize_download, choose_api_key, key_matches, Catalog};
use filerunner::error::AppError;
use filerunner::folder_path::validate_folder_path;
use filerunner::gate::{AuthUser, OptionalAuthUser};
use filerunner::models::{BulkDeleteRequest, DeleteFolderFilesRequest, DownloadQuery, File, Folder, Project};
use filerunner::role::UserRole;

const KEY_A: &str = "550e8400-e29b-41d4-a716-446655440000";
const KEY_A_VALUE: u128 = 0x550e8400e29b41d4a716446655440000;
const KEY_B: &str = "6ba7b810-9dad-11d1-80b4-00c04fd430c8";
const KEY_B_VALUE: u128 = 0x6ba7b8109dad11d180b400c04fd430c8;

fn project(id: u128, owner: u128, key: u128, public: bool) -> Project {
    Project { id, user_id: owner, name: format!("p{id}"), api_key: key, is_public: public, created_at: 0 }
}

fn file(id: u128, project_id: u128, folder_id: Option<u128>) -> File {
    File {
        id,
        project_id,
        folder_id,
        original_name: format!("f{id}.txt"),
        stored_name: format!("{id}.txt"),
        file_path: format!("/data/{id}.txt"),
        size: 10,
        mime_type: "text/plain".to_string(),
        upload_date: 0,
    }
}

fn user(id: u128) -> OptionalAuthUser {
    OptionalAuthUser(Some(AuthUser { id, email: "u@example.com".to_string(), role: UserRole::User }))
}

fn no_query() -> DownloadQuery {
    DownloadQuery { api_key: None, download: None }
}

fn two_projects() -> Catalog {
    let mut c = Catalog::new();
    c.add_project(project(1, 100, KEY_A_VALUE, false)).unwrap();
    c.add_project(project(2, 200, KEY_B_VALUE, false)).unwrap();
    c
}

#[test]
fn folder_paths_that_escape_or_hide_are_rejected() {
    for p in ["../../etc", "/abs", "a//b", "a\0b", ".hidden/x", "a\\b", "docs/.git", "a b"] {
        assert!(matches!(validate_folder_path(p), Err(AppError::BadRequest(_))), "{p:?}");
    }
    assert!(validate_folder_path("docs/2024/q1").is_ok());
    assert!(validate_folder_path("my-dir_1/v1.2").is_ok());
}

#[test]
fn folder_path_messages_name_the_first_broken_rule() {
    let msg = |p: &str| match validate_folder_path(p) {
        Err(AppError::BadRequest(m)) => m,
        other => panic!("unexpected {other:?}"),
    };
    assert_eq!(msg("../x"), "Invalid folder path: path traversal not allowed");
    assert_eq!(msg("a\0b"), "Invalid folder path: path traversal not allowed");
    assert_eq!(msg("a$b"), "Invalid folder path: contains invalid characters");
    assert_eq!(msg("café"), "Invalid folder path: contains invalid characters");
    assert_eq!(msg(".hidden/x"), "Invalid folder path: hidden folders not allowed");
}

#[test]
fn header_key_takes_precedence_over_query() {
    assert_eq!(choose_api_key(Some("h"), Some("q")), Some("h"));
    assert_eq!(choose_api_key(None, Some("q")), Some("q"));
    assert_eq!(choose_api_key(None, None), None);
}

#[test]
fn key_must_match_exactly() {
    let p = project(1, 100, KEY_A_VALUE, false);
    assert!(key_matches(Some(KEY_A), &p));
    assert!(key_matches(Some("550E8400-E29B-41D4-A716-446655440000"), &p));
    assert!(!key_matches(Some(KEY_B), &p));
    assert!(!key_matches(Some("not-a-key"), &p));
    assert!(!key_matches(None, &p));
}

#[test]
fn download_public_project_without_folder_needs_no_credential() {
    let mut c = Catalog::new();
    c.add_project(project(1, 100, KEY_A_VALUE, true)).unwrap();
    c.add_file(file(10, 1, None)).unwrap();
    assert_eq!(c.download_file(10, None, &no_query()).unwrap(), 0);
}

#[test]
fn download_from_private_folder_of_public_project_needs_key() {
    let mut c = Catalog::new();
    c.add_project(project(1, 100, KEY_A_VALUE, true)).unwrap();
    c.add_folder(Folder { id: 5, project_id: 1, path: "secret".to_string(), is_public: false, created_at: 0 })
        .unwrap();
    c.add_file(file(10, 1, Some(5))).unwrap();
    assert!(matches!(c.download_file(10, None, &no_query()), Err(AppError::Unauthorized)));
    assert!(matches!(c.download_file(10, Some(KEY_B), &no_query()), Err(AppError::Unauthorized)));
    assert_eq!(c.download_file(10, Some(KEY_A), &no_query()).unwrap(), 0);
    let q = DownloadQuery { api_key: Some(KEY_A.to_string()), download: Some(true) };
    assert_eq!(c.download_file(10, None, &q).unwrap(), 0);
    // The header wins over the query parameter, even when it is wrong.
    assert!(matches!(c.download_file(10, Some(KEY_B), &q), Err(AppError::Unauthorized)));
}

#[test]
fn download_public_folder_of_private_project_is_open() {
    let mut c = Catalog::new();
    c.add_project(project(1, 100, KEY_A_VALUE, false)).unwrap();
    c.add_folder(Folder { id: 5, project_id: 1, path: "pub".to_string(), is_public: true, created_at: 0 })
        .unwrap();
    c.add_file(file(10, 1, Some(5))).unwrap();
    c.add_file(file(11, 1, None)).unwrap();
    assert_eq!(c.download_file(10, None, &no_query()).unwrap(), 0);
    assert!(matches!(c.download_file(11, None, &no_query()), Err(AppError::Unauthorized)));
}

#[test]
fn download_unknown_file_or_project_is_not_found() {
    let mut c = Catalog::new();
    c.add_file(file(10, 9, None)).unwrap();
    assert!(matches!(c.download_file(11, None, &no_query()), Err(AppError::NotFound(_))));
    assert!(matches!(c.download_file(10, None, &no_query()), Err(AppError::NotFound(_))));
}

#[test]
fn authorize_download_and_delete_rules() {
    let p = project(1, 100, KEY_A_VALUE, false);
    let public_folder = Folder { id: 5, project_id: 1, path: "x".to_string(), is_public: true, created_at: 0 };
    assert!(authorize_download(&p, Some(&public_folder), None, None).is_ok());
    assert!(authorize_download(&p, None, None, Some(KEY_A)).is_ok());
    assert!(authorize_download(&p, None, None, None).is_err());
    assert!(authorize_delete(&user(100), None, &p).is_ok());
    assert!(matches!(authorize_delete(&user(101), Some(KEY_A), &p), Err(AppError::Unauthorized)));
    assert!(authorize_delete(&OptionalAuthUser(None), Some(KEY_A), &p).is_ok());
    assert!(authorize_delete(&OptionalAuthUser(None), None, &p).is_err());
}

#[test]
fn single_delete_by_owner_or_key() {
    let mut c = two_projects();
    c.add_file(file(10, 1, None)).unwrap();
    c.add_file(file(20, 2, None)).unwrap();
    assert!(matches!(c.delete_file(&user(100), None, 20), Err(AppError::Unauthorized)));
    assert_eq!(c.file_count(), 2);
    let r = c.delete_file(&user(100), None, 10).unwrap();
    assert_eq!(r.deleted_count, 1);
    assert_eq!(r.removed[0].id, 10);
    assert!(matches!(c.delete_file(&OptionalAuthUser(None), Some(KEY_A), 20), Err(AppError::Unauthorized)));
    assert_eq!(c.delete_file(&OptionalAuthUser(None), Some(KEY_B), 20).unwrap().deleted_count, 1);
    assert_eq!(c.file_count(), 0);
    assert!(matches!(c.delete_file(&user(100), None, 10), Err(AppError::NotFound(_))));
}

#[test]
fn bulk_delete_by_key_across_projects_is_refused_whole() {
    let mut c = two_projects();
    c.add_file(file(10, 1, None)).unwrap();
    c.add_file(file(11, 1, None)).unwrap();
    c.add_file(file(20, 2, None)).unwrap();
    let req = BulkDeleteRequest { file_ids: vec![10, 11, 20] };
    assert!(matches!(
        c.bulk_delete_files(&OptionalAuthUser(None), Some(KEY_A), &req),
        Err(AppError::BadRequest(_))
    ));
    assert_eq!(c.file_count(), 3);
    let ok = BulkDeleteRequest { file_ids: vec![10, 11] };
    let r = c.bulk_delete_files(&OptionalAuthUser(None), Some(KEY_A), &ok).unwrap();
    assert_eq!(r.deleted_count, 2);
    assert_eq!(c.file_count(), 1);
    assert_eq!(c.file(0).id, 20);
}

#[test]
fn bulk_delete_by_user_deletes_only_owned_files() {
    let mut c = two_projects();
    for (id, p) in [(1, 1), (2, 2), (3, 1), (4, 2), (5, 1)] {
        c.add_file(file(id, p, None)).unwrap();
    }
    let req = BulkDeleteRequest { file_ids: vec![1, 2, 3, 4, 5] };
    let r = c.bulk_delete_files(&user(100), None, &req).unwrap();
    assert_eq!(r.deleted_count, 3);
    let mut gone: Vec<u128> = r.removed.iter().map(|f| f.id).collect();
    gone.sort();
    assert_eq!(gone, vec![1, 3, 5]);
    assert_eq!(c.file_count(), 2);
    assert_eq!(c.file(0).id, 2);
    assert_eq!(c.file(1).id, 4);
}

#[test]
fn bulk_delete_edge_cases() {
    let mut c = two_projects();
    c.add_file(file(20, 2, None)).unwrap();
    let empty = BulkDeleteRequest { file_ids: vec![] };
    assert_eq!(c.bulk_delete_files(&user(100), None, &empty).unwrap().deleted_count, 0);
    let missing = BulkDeleteRequest { file_ids: vec![99] };
    assert!(matches!(c.bulk_delete_files(&user(100), None, &missing), Err(AppError::NotFound(_))));
    let others = BulkDeleteRequest { file_ids: vec![20] };
    assert!(matches!(c.bulk_delete_files(&user(100), None, &others), Err(AppError::NotFound(_))));
    assert!(matches!(c.bulk_delete_files(&OptionalAuthUser(None), None, &others), Err(AppError::Unauthorized)));
    assert!(matches!(
        c.bulk_delete_files(&OptionalAuthUser(None), Some("bogus"), &others),
        Err(AppError::Unauthorized)
    ));
    assert_eq!(c.file_count(), 1);
}

#[test]
fn folder_delete_by_key_removes_folder_and_its_files() {
    let mut c = two_projects();
    c.add_folder(Folder { id: 5, project_id: 1, path: "docs".to_string(), is_public: false, created_at: 0 })
        .unwrap();
    c.add_file(file(10, 1, Some(5))).unwrap();
    c.add_file(file(11, 1, Some(5))).unwrap();
    c.add_file(file(12, 1, None)).unwrap();
    let req = DeleteFolderFilesRequest { folder_path: "docs".to_string() };
    assert!(matches!(c.delete_folder_files(None, &req), Err(AppError::Unauthorized)));
    let bad = DeleteFolderFilesRequest { folder_path: "../docs".to_string() };
    assert!(matches!(c.delete_folder_files(Some(KEY_A), &bad), Err(AppError::BadRequest(_))));
    assert_eq!(c.delete_folder_files(Some(KEY_B), &req).unwrap().deleted_count, 0);
    assert_eq!(c.delete_folder_files(Some(KEY_A), &req).unwrap().deleted_count, 2);
    assert_eq!(c.file_count(), 1);
    assert!(c.find_folder(5).is_none());
}

#[test]
fn upload_is_authorized_by_key_and_recorded() {
    let mut c = two_projects();
    assert!(matches!(c.authorize_upload(None, None, 1, 10), Err(AppError::Unauthorized)));
    assert!(matches!(c.authorize_upload(Some(KEY_A), Some("../x"), 1, 10), Err(AppError::BadRequest(_))));
    assert!(matches!(c.authorize_upload(Some(KEY_A), None, 11, 10), Err(AppError::BadRequest(_))));
    let pk = c.authorize_upload(Some(KEY_B), Some("docs/q1"), 10, 10).unwrap();
    assert_eq!(pk, 1);
    let r = c
        .record_upload(pk, Some("docs/q1"), 77, "report.pdf", "77.pdf".to_string(), "/s/77.pdf".to_string(), 10, 5)
        .unwrap();
    assert_eq!(r.file_id, 77);
    assert_eq!(r.mime_type, "application/pdf");
    assert_eq!(r.download_url, "/api/files/00000000-0000-0000-0000-00000000004d");
    assert_eq!(r.folder_path.as_deref(), Some("docs/q1"));
    let fk = c.find_folder_by_path(2, "docs/q1").unwrap();
    assert!(!c.folder(fk).is_public);
    assert_eq!(c.file(0).folder_id, Some(c.folder(fk).id));
    // A second upload to the same path reuses the folder.
    c.record_upload(pk, Some("docs/q1"), 78, "blob", "78".to_string(), "/s/78".to_string(), 1, 5).unwrap();
    assert_eq!(c.file(1).folder_id, Some(c.folder(fk).id));
    assert_eq!(c.file(1).mime_type, "application/octet-stream");
    assert!(matches!(
        c.record_upload(pk, None, 78, "x", String::new(), String::new(), 1, 5),
        Err(AppError::InternalError(_))
    ));
}

#[test]
fn upload_without_folder_records_the_file() {
    let mut c = two_projects();
    let pk = c.authorize_upload(Some(KEY_A), None, 3, 10).unwrap();
    let r = c.record_upload(pk, Some(""), 5, "notes.txt", "5.txt".to_string(), "/s/5.txt".to_string(), 3, 9).unwrap();
    assert_eq!(r.folder_path, None);
    assert_eq!(r.mime_type, "text/plain");
    assert_eq!(c.file(0).folder_id, None);
    assert_eq!(c.file(0).project_id, 1);
    assert_eq!(c.folder_count(), 0);
}
