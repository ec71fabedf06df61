use stu::bucket_list::BucketListPage;
use stu::event::AppEventType;
use stu::key::Key;
use stu::object::BucketItem;

fn page_of(names: &[&str]) -> BucketListPage {
    let items = names
        .iter()
        .map(|name| BucketItem {
            name: name.to_string(),
        })
        .collect();
    BucketListPage::new(items)
}

#[test]
fn test_filter_items() {
    let mut page = page_of(&["foo", "bar", "baz", "qux", "foobar"]);

    page.handle_key(Key::Char('/'));
    page.handle_key(Key::Char('b'));
    page.handle_key(Key::Char('a'));

    assert_eq!(page.filtered_indices(), &vec![1, 2, 4]);

    page.handle_key(Key::Char('r'));

    assert_eq!(page.filtered_indices(), &vec![1, 4]);

    page.handle_key(Key::Char('r'));

    assert!(page.filtered_indices().is_empty());

    page.handle_key(Key::Backspace);
    page.handle_key(Key::Backspace);

    assert_eq!(page.filtered_indices(), &vec![1, 2, 4]);

    page.handle_key(Key::Esc);

    assert_eq!(page.filtered_indices(), &vec![0, 1, 2, 3, 4]);
}

#[test]
fn bucket_list_keys_send_events() {
    let mut page = page_of(&["a", "b"]);
    assert_eq!(page.handle_key(Key::Char('l')), Some(AppEventType::BucketListMoveDown));
    assert_eq!(page.handle_key(Key::Char('q')), Some(AppEventType::Quit));
    assert_eq!(page.handle_key(Key::Char('?')), Some(AppEventType::OpenHelp));
    assert_eq!(
        page.handle_key(Key::Char('x')),
        Some(AppEventType::BucketListOpenManagementConsole)
    );
    assert_eq!(page.handle_key(Key::Char('j')), None);
    assert_eq!(page.current_selected_item().name, "b");
    page.handle_key(Key::Char('j'));
    assert_eq!(page.current_selected_item().name, "a");
}

#[test]
fn bucket_list_without_match_ignores_open() {
    let mut page = page_of(&["a", "b"]);
    page.handle_key(Key::Char('/'));
    page.handle_key(Key::Char('z'));
    page.handle_key(Key::Enter);
    assert!(!page.is_filter_dialog_open());
    assert_eq!(page.filter_input(), "z");
    assert_eq!(page.handle_key(Key::Char('l')), None);
}

#[test]
fn bucket_list_helps_follow_filter() {
    let mut page = page_of(&["a"]);
    let helps = page.helps();
    assert_eq!(helps.len(), 8);
    assert_eq!(helps[0], "<Esc/Ctrl-c>: Quit app");
    page.handle_key(Key::Char('/'));
    assert_eq!(page.helps(), vec!["<Ctrl-c>: Quit app", "<Esc>: Close filter dialog", "<Enter>: Apply filter"]);
    page.handle_key(Key::Char('a'));
    page.handle_key(Key::Enter);
    assert_eq!(page.helps()[1], "<Esc>: Clear filter");
    assert_eq!(page.short_helps()[0], ("Esc: Clear filter".to_string(), 0));
}
