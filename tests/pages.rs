use stu::event::AppEventType;
use stu::key::Key;
use stu::object::{FileDetail, FileVersion, Object, ObjectItem};
use stu::object_detail::{
    format_dir_item, format_file_item, DetailTab, ObjectDetailPage, VersionTabState,
};
use stu::object_list::ObjectListPage;
use stu::object_preview::ObjectPreviewPage;
use stu::scroll::ScrollListState;

fn detail() -> FileDetail {
    FileDetail {
        name: "file1".to_string(),
        size_byte: 1034,
        last_modified: "2024-01-02 13:01:02".to_string(),
        e_tag: "bef684de-a260-48a4-8178-8a535ecccadb".to_string(),
        content_type: "text/plain".to_string(),
        storage_class: String::new(),
        key: "file1".to_string(),
        s3_uri: "s3://bucket-1/file1".to_string(),
        arn: "arn:aws:s3:::bucket-1/file1".to_string(),
        object_url: "https://bucket-1.s3.ap-northeast-1.amazonaws.com/file1".to_string(),
    }
}

fn versions() -> Vec<FileVersion> {
    vec![
        FileVersion {
            version_id: "60f36bc2-0f38-47b8-9bf0-e24e334b86d5".to_string(),
            size_byte: 1034,
            last_modified: "2024-01-02 13:01:02".to_string(),
            is_latest: true,
        },
        FileVersion {
            version_id: "1c5d3bcc-2bb3-4cd3-875f-a95a6ae53f65".to_string(),
            size_byte: 1024,
            last_modified: "2024-01-01 23:59:59".to_string(),
            is_latest: false,
        },
    ]
}

fn page() -> ObjectDetailPage {
    ObjectDetailPage::new(detail(), versions(), vec![], ScrollListState::new(0))
}

#[test]
fn detail_download_uses_selected_version() {
    let mut p = page();
    assert_eq!(p.handle_key(Key::Char('s')), Some(AppEventType::DetailDownloadObject(detail(), None)));
    p.handle_key(Key::Tab);
    assert_eq!(p.tab(), DetailTab::Version);
    p.handle_key(Key::Char('j'));
    assert_eq!(
        p.handle_key(Key::Char('p')),
        Some(AppEventType::OpenPreview(
            detail(),
            Some("1c5d3bcc-2bb3-4cd3-875f-a95a6ae53f65".to_string())
        ))
    );
}

#[test]
fn detail_save_dialog_trims_name() {
    let mut p = page();
    p.handle_key(Key::Char('S'));
    assert_eq!(p.status(), (true, false));
    for c in " out.txt ".chars() {
        p.handle_key(Key::Char(c));
    }
    assert_eq!(
        p.handle_key(Key::Enter),
        Some(AppEventType::DetailDownloadObjectAs(detail(), "out.txt".to_string(), None))
    );
    p.handle_key(Key::Esc);
    assert_eq!(p.status(), (false, false));
    p.handle_key(Key::Char('S'));
    p.handle_key(Key::Char(' '));
    assert_eq!(p.handle_key(Key::Enter), None);
}

#[test]
fn detail_copy_dialog_walks_rows() {
    let mut p = page();
    p.handle_key(Key::Char('r'));
    assert_eq!(p.status(), (false, true));
    assert_eq!(p.copy_detail_dialog_selected(), Some(("Key".to_string(), "file1".to_string())));
    p.handle_key(Key::Char('j'));
    assert_eq!(
        p.handle_key(Key::Enter),
        Some(AppEventType::CopyToClipboard("S3 URI".to_string(), "s3://bucket-1/file1".to_string()))
    );
    p.handle_key(Key::Char('k'));
    p.handle_key(Key::Char('k'));
    assert_eq!(p.copy_detail_dialog_selected(), Some(("ETag".to_string(), detail().e_tag)));
    p.handle_key(Key::Backspace);
    assert_eq!(p.status(), (false, false));
}

#[test]
fn detail_helps_follow_tab() {
    let mut p = page();
    assert_eq!(p.helps().len(), 9);
    p.handle_key(Key::Tab);
    assert_eq!(p.helps().len(), 10);
    assert_eq!(p.helps()[2], "<j/k>: Select version");
    assert_eq!(p.short_helps()[2], ("j/k: Select".to_string(), 5));
}

#[test]
fn version_tab_scrolls_to_last() {
    let mut v = VersionTabState {
        selected: 0,
        offset: 0,
        height: 9,
        count: 5,
    };
    v.select_last();
    assert_eq!(v.selected, 4);
    assert_eq!(v.offset, 3);
    v.height = 8;
    v.select_last();
    assert_eq!(v.offset, 3);
    v.select_first();
    assert_eq!((v.selected, v.offset), (0, 0));
    v.select_next();
    v.select_next();
    assert_eq!((v.selected, v.offset), (2, 1));
    v.select_prev();
    v.select_prev();
    assert_eq!((v.selected, v.offset), (0, 0));
}

#[test]
fn detail_tab_counts_lines() {
    let p = page();
    assert_eq!(p.detail_tab_state().lines, 14);
}

#[test]
fn scroll_list_wraps_and_pages() {
    let mut s = ScrollListState::new(10);
    s.set_height(4);
    s.select_prev();
    assert_eq!((s.selected, s.offset), (9, 6));
    s.select_next();
    assert_eq!((s.selected, s.offset), (0, 0));
    s.select_next_page();
    assert_eq!((s.selected, s.offset), (4, 1));
    s.select_prev_page();
    assert_eq!((s.selected, s.offset), (0, 0));
}

#[test]
fn object_list_keys() {
    let mut p = ObjectListPage::new(vec![
        ObjectItem::Dir {
            name: "a".to_string(),
        },
        ObjectItem::File {
            name: "b".to_string(),
            size_byte: 1,
            last_modified: String::new(),
        },
    ]);
    assert_eq!(p.handle_key(Key::Enter), Some(AppEventType::ObjectListMoveDown));
    p.handle_key(Key::Char('j'));
    assert_eq!(p.current_selected_item().unwrap().name(), "b");
    assert_eq!(p.handle_key(Key::Backspace), Some(AppEventType::ObjectListMoveUp));
    let mut empty = ObjectListPage::new(vec![]);
    assert_eq!(empty.handle_key(Key::Enter), None);
}

#[test]
fn preview_scrolls_over_lines() {
    let mut p = ObjectPreviewPage::new(
        detail(),
        Object {
            bytes: b"a\nb\nc".to_vec(),
        },
        "/tmp/file1".to_string(),
    );
    p.handle_key(Key::Char('G'));
    assert_eq!(p.offset(), 2);
    p.handle_key(Key::Char('j'));
    assert_eq!(p.offset(), 2);
    p.handle_key(Key::Char('k'));
    assert_eq!(p.offset(), 1);
    assert_eq!(p.handle_key(Key::Char('s')), Some(AppEventType::PreviewDownloadObject));
    p.handle_key(Key::Char('S'));
    assert!(p.status());
    assert_eq!(p.handle_key(Key::Enter), Some(AppEventType::PreviewSaveDownloadObjectAs));
}

#[test]
fn list_rows_are_padded_to_width() {
    assert_eq!(format_dir_item("a", 10), " a/     ");
    assert_eq!(format_file_item("a", 10), " a    ");
    assert_eq!(format_file_item("long-name", 8), " long-name ");
}
