use vstd::prelude::*;

use crate::event::AppEventType;
use crate::help::{build_helps, help_lines, table_view, texts};
use crate::key::Key;
use crate::object::ObjectItem;
use crate::scroll::{fresh_list, ScrollListState};

verus! {

/// The key table of the object list's help page.
pub open spec fn object_list_help_table() -> Seq<(Seq<char>, Seq<char>)> {
    seq![
        ("Esc/Ctrl-c"@, "Quit app"@),
        ("j/k"@, "Select item"@),
        ("g/G"@, "Go to top/bottom"@),
        ("f"@, "Scroll page forward"@),
        ("b"@, "Scroll page backward"@),
        ("Enter"@, "Open file or folder"@),
        ("Backspace"@, "Go back to prev folder"@),
        ("~"@, "Go back to bucket list"@),
        ("x"@, "Open management console in browser"@),
    ]
}

/// One level of a bucket: the listing under a prefix.
pub struct ObjectListPage {
    object_items: Vec<ObjectItem>,
    list_state: ScrollListState,
}

impl ObjectListPage {
    pub closed spec fn wf(&self) -> bool {
        &&& self.list_state.wf()
        &&& self.list_state.total == self.object_items@.len()
    }

    pub closed spec fn spec_items(&self) -> Seq<ObjectItem> {
        self.object_items@
    }

    pub closed spec fn spec_list(&self) -> ScrollListState {
        self.list_state
    }

    /// The entry under the cursor, if the listing is not empty.
    pub open spec fn spec_selected(&self) -> Option<ObjectItem> {
        if self.spec_items().len() > 0 {
            Some(self.spec_items()[self.spec_list().selected as int])
        } else {
            None
        }
    }

    /// The name of the entry under the cursor, when it is a directory.
    pub open spec fn spec_selected_dir(&self) -> Option<Seq<char>> {
        match self.spec_selected() {
            Some(ObjectItem::Dir { name }) => Some(name@),
            _ => None,
        }
    }

    pub fn new(object_items: Vec<ObjectItem>) -> (r: Self)
        ensures
            r.wf(),
            r.spec_items() == object_items@,
            r.spec_list() == fresh_list(object_items.len()),
    {
        let n = object_items.len();
        ObjectListPage { object_items, list_state: ScrollListState::new(n) }
    }

    pub fn object_list(&self) -> (r: &Vec<ObjectItem>)
        ensures
            r@ == self.spec_items(),
    {
        &self.object_items
    }

    pub fn list_state(&self) -> (r: ScrollListState)
        ensures
            r == self.spec_list(),
    {
        self.list_state
    }

    /// The entry under the cursor, if the listing is not empty.
    pub fn current_selected_item(&self) -> (r: Option<&ObjectItem>)
        requires
            self.wf(),
        ensures
            r matches Some(x) ==> self.spec_selected() == Some(*x),
            r is None ==> self.spec_selected() is None,
    {
        if self.object_items.len() > 0 {
            Some(&self.object_items[self.list_state.selected])
        } else {
            None
        }
    }

    /// Records how many rows are visible.
    pub fn set_list_height(&mut self, height: usize)
        requires
            old(self).wf(),
        ensures
            final(self).wf(),
            final(self).spec_items() == old(self).spec_items(),
            final(self).spec_list() == (ScrollListState {
                height,
                offset: crate::scroll::follow(
                    old(self).spec_list().selected as int,
                    old(self).spec_list().offset as int,
                    height as int,
                ) as usize,
                ..old(self).spec_list()
            }),
    {
        self.list_state.set_height(height);
    }

    /// What one key press does to the page, and the event it sends.
    pub open spec fn key_step(o: &Self, n: &Self, key: Key, r: Option<AppEventType>) -> bool {
        &&& (n.spec_items() == o.spec_items())
        &&& (o.spec_items().len() == 0 ==> n.spec_list() == o.spec_list())
        &&& (match key {
            Key::Char('j') => r is None && n.spec_list() == o.spec_list().spec_next(),
            Key::Char('k') => r is None && n.spec_list() == o.spec_list().spec_prev(),
            Key::Char('g') => r is None && n.spec_list() == o.spec_list().spec_first(),
            Key::Char('G') => r is None && n.spec_list() == o.spec_list().spec_last(),
            Key::Char('f') => r is None && n.spec_list() == o.spec_list().spec_next_page(),
            Key::Char('b') => r is None && n.spec_list() == o.spec_list().spec_prev_page(),
            Key::Char('q') => r == Some(AppEventType::Quit) && n.spec_list() == o.spec_list(),
            Key::Enter | Key::Char('l') => n.spec_list() == o.spec_list() && if o.spec_items().len() > 0 {
                r == Some(AppEventType::ObjectListMoveDown)
            } else {
                r is None
            },
            Key::Backspace | Key::Char('h') => r == Some(AppEventType::ObjectListMoveUp) && n.spec_list() == o.spec_list(),
            Key::Char('~') => r == Some(AppEventType::BackToBucketList) && n.spec_list() == o.spec_list(),
            Key::Char('x') => r == Some(AppEventType::ObjectListOpenManagementConsole) && n.spec_list() == o.spec_list(),
            Key::Char('?') => r == Some(AppEventType::OpenHelp) && n.spec_list() == o.spec_list(),
            _ => r is None && n.spec_list() == o.spec_list(),
        })
    }

    /// Handles one key press; returns the event to send, if any.
    pub fn handle_key(&mut self, key: Key) -> (r: Option<AppEventType>)
        requires
            old(self).wf(),
        ensures
            final(self).wf(),
            Self::key_step(old(self), final(self), key, r),
    {
        match key {
            Key::Char('j') => {
                self.list_state.select_next();
                None
            },
            Key::Char('k') => {
                self.list_state.select_prev();
                None
            },
            Key::Char('g') => {
                self.list_state.select_first();
                None
            },
            Key::Char('G') => {
                self.list_state.select_last();
                None
            },
            Key::Char('f') => {
                self.list_state.select_next_page();
                None
            },
            Key::Char('b') => {
                self.list_state.select_prev_page();
                None
            },
            Key::Char('q') => Some(AppEventType::Quit),
            Key::Enter | Key::Char('l') => {
                if self.object_items.len() > 0 {
                    Some(AppEventType::ObjectListMoveDown)
                } else {
                    None
                }
            },
            Key::Backspace | Key::Char('h') => Some(AppEventType::ObjectListMoveUp),
            Key::Char('~') => Some(AppEventType::BackToBucketList),
            Key::Char('x') => Some(AppEventType::ObjectListOpenManagementConsole),
            Key::Char('?') => Some(AppEventType::OpenHelp),
            _ => None,
        }
    }

    pub fn helps(&self) -> (r: Vec<String>)
        ensures
            texts(r@) == help_lines(object_list_help_table()),
    {
        let t: Vec<(&str, &str)> = vec![
            ("Esc/Ctrl-c", "Quit app"),
            ("j/k", "Select item"),
            ("g/G", "Go to top/bottom"),
            ("f", "Scroll page forward"),
            ("b", "Scroll page backward"),
            ("Enter", "Open file or folder"),
            ("Backspace", "Go back to prev folder"),
            ("~", "Go back to bucket list"),
            ("x", "Open management console in browser"),
        ];
        let r = build_helps(&t);
        assert(table_view(t@) =~= object_list_help_table());
        r
    }
}

} // verus!
