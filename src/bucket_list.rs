use vstd::prelude::*;

use crate::event::AppEventType;
use crate::help::{
    build_helps, build_short_helps, help_lines, short_help_lines, short_helps_view, texts,
};
use crate::key::{edit_input, Key};
use crate::object::BucketItem;
use crate::scroll::{fresh_list, ScrollListState};
use vstd::string::StrSliceExecFns;
use crate::text::{contains_text, occurs_in, pop_char, push_char};

verus! {

#[derive(Clone, Copy, PartialEq, Eq, Structural, Debug)]
pub enum BucketListViewState {
    Default,
    FilterDialog,
}

/// The indices, in order, of the first `n` buckets whose name contains `filter`.
pub open spec fn filter_prefix(items: Seq<BucketItem>, filter: Seq<char>, n: nat) -> Seq<usize>
    decreases n,
{
    if n == 0 {
        Seq::empty()
    } else {
        let before = filter_prefix(items, filter, (n - 1) as nat);
        if occurs_in(filter, items[n - 1].name@) {
            before.push((n - 1) as usize)
        } else {
            before
        }
    }
}

/// The indices, in order, of the buckets whose name contains `filter`.
pub open spec fn matching_indices(items: Seq<BucketItem>, filter: Seq<char>) -> Seq<usize> {
    filter_prefix(items, filter, items.len())
}

proof fn lemma_filter_prefix_bounded(items: Seq<BucketItem>, filter: Seq<char>, n: nat)
    requires
        n <= usize::MAX,
    ensures
        forall|k: int| 0 <= k < filter_prefix(items, filter, n).len() ==> filter_prefix(items, filter, n)[k] < n,
    decreases n,
{
    if n > 0 {
        lemma_filter_prefix_bounded(items, filter, (n - 1) as nat);
        let before = filter_prefix(items, filter, (n - 1) as nat);
        let cur = filter_prefix(items, filter, n);
        assert forall|k: int| 0 <= k < cur.len() implies cur[k] < n by {
            if k < before.len() {
                assert(cur[k] == before[k]);
            }
        }
    }
}

proof fn lemma_empty_filter_keeps_all(items: Seq<BucketItem>, n: nat)
    requires
        n <= items.len(),
        items.len() <= usize::MAX,
    ensures
        filter_prefix(items, Seq::empty(), n) == Seq::new(n, |i: int| i as usize),
    decreases n,
{
    if n > 0 {
        lemma_empty_filter_keeps_all(items, (n - 1) as nat);
        let s = items[n - 1].name@;
        let e = Seq::<char>::empty();
        assert(s.subrange(0, 0 + e.len() as int) =~= e);
        assert(occurs_in(e, s));
        assert(filter_prefix(items, Seq::empty(), n) =~= Seq::new(n, |i: int| i as usize));
    }
}

/// The key table of the bucket list's help page.
pub open spec fn bucket_list_help_table(dialog: bool, filtered: bool) -> Seq<(Seq<char>, Seq<char>)> {
    if dialog {
        seq![("Ctrl-c"@, "Quit app"@), ("Esc"@, "Close filter dialog"@), ("Enter"@, "Apply filter"@)]
    } else if !filtered {
        seq![
            ("Esc/Ctrl-c"@, "Quit app"@),
            ("j/k"@, "Select item"@),
            ("g/G"@, "Go to top/bottom"@),
            ("f"@, "Scroll page forward"@),
            ("b"@, "Scroll page backward"@),
            ("Enter"@, "Open bucket"@),
            ("/"@, "Filter bucket list"@),
            ("x"@, "Open management console in browser"@),
        ]
    } else {
        seq![
            ("Ctrl-c"@, "Quit app"@),
            ("Esc"@, "Clear filter"@),
            ("j/k"@, "Select item"@),
            ("g/G"@, "Go to top/bottom"@),
            ("f"@, "Scroll page forward"@),
            ("b"@, "Scroll page backward"@),
            ("Enter"@, "Open bucket"@),
            ("/"@, "Filter bucket list"@),
            ("x"@, "Open management console in browser"@),
        ]
    }
}

/// The key table of the bucket list's footer, with priorities.
pub open spec fn bucket_list_short_help_table(dialog: bool, filtered: bool) -> Seq<
    (Seq<char>, Seq<char>, usize),
> {
    if dialog {
        seq![("Esc"@, "Close"@, 2usize), ("Enter"@, "Filter"@, 1usize), ("?"@, "Help"@, 0usize)]
    } else if !filtered {
        seq![
            ("Esc"@, "Quit"@, 0usize),
            ("j/k"@, "Select"@, 1usize),
            ("g/G"@, "Top/Bottom"@, 4usize),
            ("Enter"@, "Open"@, 2usize),
            ("/"@, "Filter"@, 3usize),
            ("?"@, "Help"@, 0usize),
        ]
    } else {
        seq![
            ("Esc"@, "Clear filter"@, 0usize),
            ("j/k"@, "Select"@, 1usize),
            ("g/G"@, "Top/Bottom"@, 4usize),
            ("Enter"@, "Open"@, 2usize),
            ("/"@, "Filter"@, 3usize),
            ("?"@, "Help"@, 0usize),
        ]
    }
}

/// The list of buckets, with an optional filter on their names.
pub struct BucketListPage {
    bucket_items: Vec<BucketItem>,
    filtered_indices: Vec<usize>,
    view_state: BucketListViewState,
    list_state: ScrollListState,
    filter_input: String,
}

impl BucketListPage {
    pub closed spec fn wf(&self) -> bool {
        &&& self.list_state.wf()
        &&& self.list_state.total == self.filtered_indices@.len()
        &&& self.filtered_indices@ == matching_indices(self.bucket_items@, self.filter_input@)
        &&& forall|k: int|
            0 <= k < self.filtered_indices@.len() ==> self.filtered_indices@[k] < self.bucket_items@.len()
    }

    pub closed spec fn spec_items(&self) -> Seq<BucketItem> {
        self.bucket_items@
    }

    pub closed spec fn spec_filtered(&self) -> Seq<usize> {
        self.filtered_indices@
    }

    pub closed spec fn spec_filter(&self) -> Seq<char> {
        self.filter_input@
    }

    pub closed spec fn spec_dialog(&self) -> bool {
        self.view_state == BucketListViewState::FilterDialog
    }

    pub closed spec fn spec_list(&self) -> ScrollListState {
        self.list_state
    }

    pub open spec fn spec_non_empty(&self) -> bool {
        self.spec_filtered().len() > 0
    }

    /// The bucket under the cursor.
    pub open spec fn spec_selected_item(&self) -> BucketItem {
        self.spec_items()[self.spec_filtered()[self.spec_list().selected as int] as int]
    }

    /// The state after the filter became `filter`: indices recomputed, cursor back on top.
    pub open spec fn refiltered(&self, other: &Self, filter: Seq<char>) -> bool {
        &&& other.spec_items() == self.spec_items()
        &&& other.spec_filter() == filter
        &&& other.spec_filtered() == matching_indices(self.spec_items(), filter)
        &&& other.spec_list() == fresh_list(other.spec_filtered().len() as usize)
    }

    pub open spec fn same_but_list(&self, other: &Self, list: ScrollListState) -> bool {
        &&& other.spec_items() == self.spec_items()
        &&& other.spec_filter() == self.spec_filter()
        &&& other.spec_filtered() == self.spec_filtered()
        &&& other.spec_dialog() == self.spec_dialog()
        &&& other.spec_list() == list
    }

    pub fn new(bucket_items: Vec<BucketItem>) -> (r: Self)
        ensures
            r.wf(),
            r.spec_items() == bucket_items@,
            r.spec_filter() == Seq::<char>::empty(),
            !r.spec_dialog(),
            r.spec_filtered() == Seq::new(bucket_items@.len(), |i: int| i as usize),
            r.spec_list() == fresh_list(bucket_items@.len() as usize),
    {
        let items_len = bucket_items.len();
        let mut filtered_indices: Vec<usize> = Vec::new();
        let mut i: usize = 0;
        while i < items_len
            invariant
                i <= items_len,
                filtered_indices@ == Seq::new(i as nat, |k: int| k as usize),
            decreases items_len - i,
        {
            filtered_indices.push(i);
            assert(filtered_indices@ =~= Seq::new((i + 1) as nat, |k: int| k as usize));
            i = i + 1;
        }
        proof {
            lemma_empty_filter_keeps_all(bucket_items@, bucket_items@.len());
        }
        let r = BucketListPage {
            bucket_items,
            filtered_indices,
            view_state: BucketListViewState::Default,
            list_state: ScrollListState::new(items_len),
            filter_input: String::new(),
        };
        r
    }

    pub fn bucket_items(&self) -> (r: &Vec<BucketItem>)
        ensures
            r@ == self.spec_items(),
    {
        &self.bucket_items
    }

    pub fn filtered_indices(&self) -> (r: &Vec<usize>)
        ensures
            r@ == self.spec_filtered(),
    {
        &self.filtered_indices
    }

    pub fn filter_input(&self) -> (r: &String)
        ensures
            r@ == self.spec_filter(),
    {
        &self.filter_input
    }

    pub fn list_state(&self) -> (r: ScrollListState)
        ensures
            r == self.spec_list(),
    {
        self.list_state
    }

    pub fn is_filter_dialog_open(&self) -> (r: bool)
        ensures
            r == self.spec_dialog(),
    {
        self.view_state == BucketListViewState::FilterDialog
    }

    /// Records how many rows are visible.
    pub fn set_list_height(&mut self, height: usize)
        requires
            old(self).wf(),
        ensures
            final(self).wf(),
            old(self).same_but_list(final(self), ScrollListState {
                height,
                offset: crate::scroll::follow(
                    old(self).spec_list().selected as int,
                    old(self).spec_list().offset as int,
                    height as int,
                ) as usize,
                ..old(self).spec_list()
            }),
    {
        self.list_state.set_height(height);
    }

    /// What one key press does to the page, and the event it sends.
    pub open spec fn key_step(o: &Self, n: &Self, key: Key, r: Option<AppEventType>) -> bool {
        &&& (!o.spec_dialog() ==> match key {
            Key::Esc => r is None && if o.spec_filter().len() > 0 {
                o.refiltered(n, Seq::empty()) && !n.spec_dialog()
            } else {
                *n == *o
            },
            Key::Char('q') => r == Some(AppEventType::Quit) && *n == *o,
            Key::Char('l') if o.spec_non_empty() => r == Some(AppEventType::BucketListMoveDown) && *n == *o,
            Key::Char('j') if o.spec_non_empty() => r is None && o.same_but_list( n, o.spec_list().spec_next()),
            Key::Char('k') if o.spec_non_empty() => r is None && o.same_but_list( n, o.spec_list().spec_prev()),
            Key::Char('g') if o.spec_non_empty() => r is None && o.same_but_list( n, o.spec_list().spec_first()),
            Key::Char('G') if o.spec_non_empty() => r is None && o.same_but_list( n, o.spec_list().spec_last()),
            Key::Char('f') if o.spec_non_empty() => r is None && o.same_but_list( n, o.spec_list().spec_next_page()),
            Key::Char('b') if o.spec_non_empty() => r is None && o.same_but_list( n, o.spec_list().spec_prev_page()),
            Key::Char('x') if o.spec_non_empty() => r == Some(AppEventType::BucketListOpenManagementConsole) && *n == *o,
            Key::Char('/') => r is None && n.spec_dialog() && n.spec_items() == o.spec_items() && n.spec_filter() == o.spec_filter() && n.spec_filtered() == o.spec_filtered() && n.spec_list() == o.spec_list(),
            Key::Char('?') => r == Some(AppEventType::OpenHelp) && *n == *o,
            _ => r is None && *n == *o,
        })
        &&& (o.spec_dialog() ==> match key {
            Key::Esc => r is None && !n.spec_dialog() && o.refiltered( n, Seq::empty()),
            Key::Enter => r is None && !n.spec_dialog() && o.refiltered( n, o.spec_filter()),
            Key::Char('?') => r == Some(AppEventType::OpenHelp) && *n == *o,
            _ => r is None && n.spec_dialog() && o.refiltered( n, edit_input(o.spec_filter(), key)),
        })
    }

    /// Handles one key press; returns the event to send, if any.
    pub fn handle_key(&mut self, key: Key) -> (r: Option<AppEventType>)
        requires
            old(self).wf(),
        ensures
            final(self).wf(),
            Self::key_step(old(self), final(self), key, r),
    {
        match self.view_state {
            BucketListViewState::Default => match key {
                Key::Esc => {
                    if self.filter_input.as_str().unicode_len() != 0 {
                        self.reset_filter();
                    }
                    None
                },
                Key::Char('q') => Some(AppEventType::Quit),
                Key::Char('l') if self.non_empty() => Some(AppEventType::BucketListMoveDown),
                Key::Char('j') if self.non_empty() => {
                    self.select_next();
                    None
                },
                Key::Char('k') if self.non_empty() => {
                    self.select_prev();
                    None
                },
                Key::Char('g') if self.non_empty() => {
                    self.select_first();
                    None
                },
                Key::Char('G') if self.non_empty() => {
                    self.select_last();
                    None
                },
                Key::Char('f') if self.non_empty() => {
                    self.select_next_page();
                    None
                },
                Key::Char('b') if self.non_empty() => {
                    self.select_prev_page();
                    None
                },
                Key::Char('x') if self.non_empty() => Some(
                    AppEventType::BucketListOpenManagementConsole,
                ),
                Key::Char('/') => {
                    self.open_filter_dialog();
                    None
                },
                Key::Char('?') => Some(AppEventType::OpenHelp),
                _ => None,
            },
            BucketListViewState::FilterDialog => match key {
                Key::Esc => {
                    self.close_filter_dialog();
                    None
                },
                Key::Enter => {
                    self.apply_filter();
                    None
                },
                Key::Char('?') => Some(AppEventType::OpenHelp),
                _ => {
                    match key {
                        Key::Char(c) => push_char(&mut self.filter_input, c),
                        Key::Backspace => pop_char(&mut self.filter_input),
                        _ => {},
                    }
                    self.update_filtered_indices();
                    None
                },
            },
        }
    }

    pub fn helps(&self) -> (r: Vec<String>)
        ensures
            texts(r@) == help_lines(
                bucket_list_help_table(self.spec_dialog(), self.spec_filter().len() > 0),
            ),
    {
        let filtered = self.filter_input.as_str().unicode_len() > 0;
        let t: Vec<(&str, &str)> = match self.view_state {
            BucketListViewState::Default => {
                if !filtered {
                    vec![
                        ("Esc/Ctrl-c", "Quit app"),
                        ("j/k", "Select item"),
                        ("g/G", "Go to top/bottom"),
                        ("f", "Scroll page forward"),
                        ("b", "Scroll page backward"),
                        ("Enter", "Open bucket"),
                        ("/", "Filter bucket list"),
                        ("x", "Open management console in browser"),
                    ]
                } else {
                    vec![
                        ("Ctrl-c", "Quit app"),
                        ("Esc", "Clear filter"),
                        ("j/k", "Select item"),
                        ("g/G", "Go to top/bottom"),
                        ("f", "Scroll page forward"),
                        ("b", "Scroll page backward"),
                        ("Enter", "Open bucket"),
                        ("/", "Filter bucket list"),
                        ("x", "Open management console in browser"),
                    ]
                }
            },
            BucketListViewState::FilterDialog => vec![
                ("Ctrl-c", "Quit app"),
                ("Esc", "Close filter dialog"),
                ("Enter", "Apply filter"),
            ],
        };
        let r = build_helps(&t);
        assert(crate::help::table_view(t@) =~= bucket_list_help_table(
            self.spec_dialog(),
            self.spec_filter().len() > 0,
        ));
        r
    }

    pub fn short_helps(&self) -> (r: Vec<(String, usize)>)
        ensures
            short_helps_view(r@) == short_help_lines(
                bucket_list_short_help_table(self.spec_dialog(), self.spec_filter().len() > 0),
            ),
    {
        let filtered = self.filter_input.as_str().unicode_len() > 0;
        let t: Vec<(&str, &str, usize)> = match self.view_state {
            BucketListViewState::Default => {
                if !filtered {
                    vec![
                        ("Esc", "Quit", 0),
                        ("j/k", "Select", 1),
                        ("g/G", "Top/Bottom", 4),
                        ("Enter", "Open", 2),
                        ("/", "Filter", 3),
                        ("?", "Help", 0),
                    ]
                } else {
                    vec![
                        ("Esc", "Clear filter", 0),
                        ("j/k", "Select", 1),
                        ("g/G", "Top/Bottom", 4),
                        ("Enter", "Open", 2),
                        ("/", "Filter", 3),
                        ("?", "Help", 0),
                    ]
                }
            },
            BucketListViewState::FilterDialog => vec![
                ("Esc", "Close", 2),
                ("Enter", "Filter", 1),
                ("?", "Help", 0),
            ],
        };
        let r = build_short_helps(&t);
        assert(crate::help::short_table_view(t@) =~= bucket_list_short_help_table(
            self.spec_dialog(),
            self.spec_filter().len() > 0,
        ));
        r
    }

    fn select_next(&mut self)
        requires
            old(self).wf(),
        ensures
            final(self).wf(),
            old(self).same_but_list(final(self), old(self).spec_list().spec_next()),
    {
        self.list_state.select_next();
    }

    fn select_prev(&mut self)
        requires
            old(self).wf(),
        ensures
            final(self).wf(),
            old(self).same_but_list(final(self), old(self).spec_list().spec_prev()),
    {
        self.list_state.select_prev();
    }

    fn select_first(&mut self)
        requires
            old(self).wf(),
        ensures
            final(self).wf(),
            old(self).same_but_list(final(self), old(self).spec_list().spec_first()),
    {
        self.list_state.select_first();
    }

    fn select_last(&mut self)
        requires
            old(self).wf(),
        ensures
            final(self).wf(),
            old(self).same_but_list(final(self), old(self).spec_list().spec_last()),
    {
        self.list_state.select_last();
    }

    fn select_next_page(&mut self)
        requires
            old(self).wf(),
        ensures
            final(self).wf(),
            old(self).same_but_list(final(self), old(self).spec_list().spec_next_page()),
    {
        self.list_state.select_next_page();
    }

    fn select_prev_page(&mut self)
        requires
            old(self).wf(),
        ensures
            final(self).wf(),
            old(self).same_but_list(final(self), old(self).spec_list().spec_prev_page()),
    {
        self.list_state.select_prev_page();
    }

    fn open_filter_dialog(&mut self)
        requires
            old(self).wf(),
        ensures
            final(self).wf(),
            *final(self) == (BucketListPage { view_state: BucketListViewState::FilterDialog, ..*old(self) }),
    {
        self.view_state = BucketListViewState::FilterDialog;
    }

    fn close_filter_dialog(&mut self)
        requires
            old(self).wf(),
        ensures
            final(self).wf(),
            !final(self).spec_dialog(),
            old(self).refiltered(final(self), Seq::empty()),
    {
        self.view_state = BucketListViewState::Default;
        self.reset_filter();
    }

    fn apply_filter(&mut self)
        requires
            old(self).wf(),
        ensures
            final(self).wf(),
            !final(self).spec_dialog(),
            old(self).refiltered(final(self), old(self).spec_filter()),
    {
        self.view_state = BucketListViewState::Default;
        self.update_filtered_indices();
    }

    fn reset_filter(&mut self)
        requires
            old(self).wf(),
        ensures
            final(self).wf(),
            final(self).spec_dialog() == old(self).spec_dialog(),
            old(self).refiltered(final(self), Seq::empty()),
    {
        self.filter_input = String::new();
        self.update_filtered_indices();
    }

    /// Recomputes which buckets match the filter, and puts the cursor back on top.
    fn update_filtered_indices(&mut self)
        ensures
            final(self).wf(),
            final(self).spec_dialog() == old(self).spec_dialog(),
            old(self).refiltered(final(self), old(self).spec_filter()),
    {
        let mut filtered: Vec<usize> = Vec::new();
        let n = self.bucket_items.len();
        let mut i: usize = 0;
        while i < n
            invariant
                n == self.bucket_items@.len(),
                i <= n,
                filtered@ == filter_prefix(self.bucket_items@, self.filter_input@, i as nat),
            decreases n - i,
        {
            if contains_text(self.bucket_items[i].name.as_str(), self.filter_input.as_str()) {
                filtered.push(i);
            }
            i = i + 1;
        }
        proof {
            lemma_filter_prefix_bounded(self.bucket_items@, self.filter_input@, n as nat);
        }
        let total = filtered.len();
        self.filtered_indices = filtered;
        self.list_state = ScrollListState::new(total);
    }

    /// The bucket under the cursor.
    pub fn current_selected_item(&self) -> (r: &BucketItem)
        requires
            self.wf(),
            self.spec_non_empty(),
        ensures
            *r == self.spec_selected_item(),
    {
        let i = self.filtered_indices[self.list_state.selected];
        &self.bucket_items[i]
    }

    fn non_empty(&self) -> (r: bool)
        ensures
            r == self.spec_non_empty(),
    {
        self.filtered_indices.len() > 0
    }
}

} // verus!
