use stu::app::{
    object_prefix, App, CompleteInitializeResult, CompleteLoadObjectResult,
    CompleteLoadObjectsResult, CompletePreviewObjectResult, Notification, ViewStateTag,
};
use stu::event::AppEventType;
use stu::object::{AppError, BucketItem, FileDetail, FileVersion, Object, ObjectItem};

fn buckets(names: &[&str]) -> Vec<BucketItem> {
    names
        .iter()
        .map(|n| BucketItem {
            name: n.to_string(),
        })
        .collect()
}

fn dir(name: &str) -> ObjectItem {
    ObjectItem::Dir {
        name: name.to_string(),
    }
}

fn file(name: &str, size: usize) -> ObjectItem {
    ObjectItem::File {
        name: name.to_string(),
        size_byte: size,
        last_modified: "2024-01-02 13:01:02".to_string(),
    }
}

fn detail(name: &str, size: usize) -> FileDetail {
    FileDetail {
        name: name.to_string(),
        size_byte: size,
        last_modified: "2024-01-02 13:01:02".to_string(),
        e_tag: "bef684de-a260-48a4-8178-8a535ecccadb".to_string(),
        content_type: "text/plain".to_string(),
        storage_class: "STANDARD".to_string(),
        key: name.to_string(),
        s3_uri: format!("s3://bucket-1/{}", name),
        arn: format!("arn:aws:s3:::bucket-1/{}", name),
        object_url: format!("https://bucket-1.s3.ap-northeast-1.amazonaws.com/{}", name),
    }
}

fn started(names: &[&str]) -> (App, Option<AppEventType>) {
    let mut app = App::new(80, 24);
    app.initialize("/tmp/download".to_string());
    let r = app.complete_initialize(Ok(CompleteInitializeResult {
        buckets: buckets(names),
    }));
    (app, r)
}

/// Answers a pending listing request with `items`.
fn load(app: &mut App, items: Vec<ObjectItem>) {
    let req = app.load_objects();
    let r = app.complete_load_objects(Ok(CompleteLoadObjectsResult { items, key: req.key }));
    assert_eq!(r, None);
}

#[test]
fn single_bucket_descends_at_once() {
    let (app, r) = started(&["only"]);
    assert_eq!(r, Some(AppEventType::LoadObjects));
    assert!(app.app_view_state.is_loading);
    assert_eq!(app.page_stack.len(), 1);
    let req = app.load_objects();
    assert_eq!(req.bucket, "only");
    assert_eq!(req.prefix, "");
}

#[test]
fn several_buckets_show_the_list() {
    let (app, r) = started(&["b1", "b2"]);
    assert_eq!(r, None);
    assert!(!app.app_view_state.is_loading);
    assert_eq!(app.view_state_tag(), ViewStateTag::BucketList);
    assert_eq!(app.bucket_items().len(), 2);
}

#[test]
fn failed_initialize_shows_error() {
    let mut app = App::new(80, 24);
    let e = AppError {
        msg: "no credentials".to_string(),
    };
    let r = app.complete_initialize(Err(e.clone()));
    assert_eq!(r, Some(AppEventType::LogError(e)));
    assert_eq!(
        app.app_view_state.notification,
        Notification::Error("no credentials".to_string())
    );
    assert_eq!(app.view_state_tag(), ViewStateTag::Initializing);
    assert!(!app.app_view_state.is_loading);
}

#[test]
fn prefix_follows_selected_dirs() {
    let (mut app, _) = started(&["b1", "b2"]);
    assert_eq!(app.current_object_prefix(), "");
    assert_eq!(app.bucket_list_move_down(), Some(AppEventType::LoadObjects));
    load(&mut app, vec![dir("a"), file("x.txt", 3)]);
    assert_eq!(app.current_object_prefix(), "a/");
    assert_eq!(app.object_list_move_down(), Some(AppEventType::LoadObjects));
    assert_eq!(app.load_objects().prefix, "a/");
    load(&mut app, vec![dir("b")]);
    assert_eq!(app.current_object_prefix(), "a/b/");
    assert_eq!(app.current_path(), vec!["a".to_string(), "b".to_string()]);
}

#[test]
fn object_prefix_of_segments() {
    assert_eq!(object_prefix(&vec!["a".to_string(), "b".to_string()]), "a/b/");
    assert_eq!(object_prefix(&vec![]), "");
}

#[test]
fn failed_listing_keeps_stack() {
    let (mut app, _) = started(&["b1", "b2"]);
    app.bucket_list_move_down();
    let before = app.page_stack.len();
    let e = AppError {
        msg: "access denied".to_string(),
    };
    let r = app.complete_load_objects(Err(e.clone()));
    assert_eq!(r, Some(AppEventType::LogError(e)));
    assert_eq!(app.page_stack.len(), before);
    assert!(!app.app_view_state.is_loading);
    assert_eq!(
        app.app_view_state.notification,
        Notification::Error("access denied".to_string())
    );
}

#[test]
fn ascend_is_pinned_with_one_bucket() {
    let (mut app, _) = started(&["only"]);
    load(&mut app, vec![file("x.txt", 3)]);
    assert_eq!(app.page_stack.len(), 2);
    app.object_list_move_up();
    assert_eq!(app.page_stack.len(), 2);
    assert_eq!(app.view_state_tag(), ViewStateTag::ObjectList);
    app.object_list_back_to_bucket_list();
    assert_eq!(app.page_stack.len(), 2);
}

#[test]
fn ascend_pops_with_two_buckets() {
    let (mut app, _) = started(&["b1", "b2"]);
    app.bucket_list_move_down();
    load(&mut app, vec![file("x.txt", 3)]);
    assert_eq!(app.page_stack.len(), 2);
    app.object_list_move_up();
    assert_eq!(app.page_stack.len(), 1);
    assert_eq!(app.view_state_tag(), ViewStateTag::BucketList);
}

#[test]
fn back_to_bucket_list_clears_levels() {
    let (mut app, _) = started(&["b1", "b2"]);
    app.bucket_list_move_down();
    load(&mut app, vec![dir("a")]);
    app.object_list_move_down();
    load(&mut app, vec![dir("b")]);
    assert_eq!(app.page_stack.len(), 3);
    app.object_list_back_to_bucket_list();
    assert_eq!(app.page_stack.len(), 1);
    assert_eq!(app.view_state_tag(), ViewStateTag::BucketList);
}

#[test]
fn cached_dir_is_pushed_without_request() {
    let (mut app, _) = started(&["b1", "b2"]);
    app.bucket_list_move_down();
    load(&mut app, vec![dir("a"), file("x.txt", 3)]);
    app.object_list_move_down();
    load(&mut app, vec![file("y.txt", 4)]);
    assert_eq!(app.page_stack.len(), 3);
    app.object_list_move_up();
    assert_eq!(app.page_stack.len(), 2);
    let r = app.object_list_move_down();
    assert_eq!(r, None);
    assert_eq!(app.page_stack.len(), 3);
    assert_eq!(app.current_object_prefix(), "a/");
}

#[test]
fn file_detail_is_fetched_then_cached() {
    let (mut app, _) = started(&["b1", "b2"]);
    app.bucket_list_move_down();
    load(&mut app, vec![file("x.txt", 1034)]);
    assert_eq!(app.object_list_move_down(), Some(AppEventType::LoadObject));
    assert!(app.app_view_state.is_loading);
    let req = app.load_object().unwrap();
    assert_eq!(req.bucket, "b1");
    assert_eq!(req.key, "x.txt");
    assert_eq!(req.size_byte, 1034);
    let versions = vec![FileVersion {
        version_id: "v1".to_string(),
        size_byte: 1034,
        last_modified: "2024-01-02 13:01:02".to_string(),
        is_latest: true,
    }];
    let r = app.complete_load_object(Ok(CompleteLoadObjectResult {
        detail: detail("x.txt", 1034),
        versions,
        map_key: req.map_key,
    }));
    assert_eq!(r, None);
    assert_eq!(app.view_state_tag(), ViewStateTag::Detail);
    assert!(!app.app_view_state.is_loading);
    app.detail_close();
    assert_eq!(app.view_state_tag(), ViewStateTag::ObjectList);
    assert_eq!(app.object_list_move_down(), None);
    assert_eq!(app.view_state_tag(), ViewStateTag::Detail);
}

#[test]
fn help_opens_over_page_and_closes() {
    let (mut app, _) = started(&["b1", "b2"]);
    app.toggle_help();
    assert_eq!(app.view_state_tag(), ViewStateTag::Help);
    assert_eq!(app.page_stack.len(), 2);
    app.help_close();
    assert_eq!(app.view_state_tag(), ViewStateTag::BucketList);
    assert_eq!(app.page_stack.len(), 1);

    let mut fresh = App::new(80, 24);
    fresh.toggle_help();
    assert_eq!(fresh.view_state_tag(), ViewStateTag::Initializing);
}

#[test]
fn download_request_resolves_key_and_path() {
    let (mut app, _) = started(&["b1", "b2"]);
    app.bucket_list_move_down();
    load(&mut app, vec![dir("a")]);
    app.object_list_move_down();
    load(&mut app, vec![file("x.txt", 20_000_000)]);
    let req = app.download_object(detail("x.txt", 20_000_000));
    assert_eq!(req.bucket, "b1");
    assert_eq!(req.key, "a/x.txt");
    assert_eq!(req.path, "/tmp/download/x.txt");
    assert_eq!(req.size_byte, 20_000_000);
    let renamed = app.download_object_as(detail("x.txt", 20_000_000), "y.txt".to_string());
    assert_eq!(renamed.path, "/tmp/download/y.txt");
    assert_eq!(renamed.key, "a/x.txt");
}

#[test]
fn download_completion_notifies() {
    let (mut app, _) = started(&["b1", "b2"]);
    app.app_view_state.is_loading = true;
    let r = app.complete_download_object(Ok("/tmp/download/x.txt".to_string()));
    assert_eq!(r, None);
    assert!(!app.app_view_state.is_loading);
    assert_eq!(
        app.app_view_state.notification,
        Notification::Success("Download completed successfully: /tmp/download/x.txt".to_string())
    );
    let e = AppError {
        msg: "disk full".to_string(),
    };
    assert_eq!(
        app.complete_download_object(Err(e.clone())),
        Some(AppEventType::LogError(e))
    );
    assert_eq!(
        app.app_view_state.notification,
        Notification::Error("disk full".to_string())
    );
}

#[test]
fn preview_completion_pushes_page() {
    let (mut app, _) = started(&["b1", "b2"]);
    app.info_notification(" 50% downloaded".to_string());
    let r = app.complete_preview_object(Ok(CompletePreviewObjectResult {
        obj: Object {
            bytes: b"hello\nworld".to_vec(),
        },
        file_detail: detail("x.txt", 11),
        path: "/tmp/download/x.txt".to_string(),
    }));
    assert_eq!(r, None);
    assert_eq!(app.view_state_tag(), ViewStateTag::Preview);
    assert_eq!(app.app_view_state.notification, Notification::Blank);
    let saved = app.preview_download_object().unwrap();
    assert_eq!(saved.obj.bytes, b"hello\nworld".to_vec());
    assert_eq!(saved.path, "/tmp/download/x.txt");
    app.preview_close();
    assert_eq!(app.view_state_tag(), ViewStateTag::BucketList);
}

#[test]
fn clipboard_outcome_notifies() {
    let (mut app, _) = started(&["b1", "b2"]);
    assert_eq!(app.copy_to_clipboard("Key".to_string(), Ok(())), None);
    assert_eq!(
        app.app_view_state.notification,
        Notification::Success("Copied 'Key' to clipboard successfully".to_string())
    );
    let e = AppError {
        msg: "no clipboard".to_string(),
    };
    assert_eq!(
        app.copy_to_clipboard("Key".to_string(), Err(e.clone())),
        Some(AppEventType::LogError(e))
    );
}

#[test]
fn keys_reach_the_page_shown() {
    let (mut app, _) = started(&["b1", "b2"]);
    assert_eq!(
        app.page_stack.handle_key(stu::key::Key::Char('l')),
        Some(AppEventType::BucketListMoveDown)
    );
    assert_eq!(app.page_stack.handle_key(stu::key::Key::Char('?')), Some(AppEventType::OpenHelp));
    app.toggle_help();
    assert_eq!(
        app.page_stack.handle_key(stu::key::Key::Esc),
        Some(AppEventType::CloseCurrentPage)
    );
    assert_eq!(app.page_stack.len(), 2);
    assert_eq!(App::new(10, 5).app_view_state.size(), (10, 5));
}
