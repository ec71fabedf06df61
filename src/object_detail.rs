use vstd::prelude::*;
use vstd::string::StrSliceExecFns;
use vstd::string::StringExecFns;

use crate::event::AppEventType;
use crate::help::{
    build_helps, build_short_helps, help_lines, short_help_lines, short_helps_view, table_view,
    short_table_view, texts,
};
use crate::key::{edit_input, Key};
use crate::object::{FileDetail, FileVersion, ObjectItem};
use crate::scroll::ScrollListState;
use crate::text::{pad_right, pad_right_spec, pop_char, push_char, trim, trim_spec};

verus! {

#[derive(Clone, Copy, PartialEq, Eq, Structural, Debug)]
pub enum DetailTab {
    Detail,
    Version,
}

impl DetailTab {
    pub open spec fn spec_next(self) -> DetailTab {
        match self {
            DetailTab::Detail => DetailTab::Version,
            DetailTab::Version => DetailTab::Detail,
        }
    }

    /// The tab after this one, wrapping round.
    pub fn next(self) -> (r: DetailTab)
        ensures
            r == self.spec_next(),
    {
        match self {
            DetailTab::Detail => DetailTab::Version,
            DetailTab::Version => DetailTab::Detail,
        }
    }

    /// The position of the tab in the tab bar.
    pub fn val(self) -> (r: usize)
        ensures
            r == (if self == DetailTab::Detail { 0usize } else { 1usize }),
    {
        match self {
            DetailTab::Detail => 0,
            DetailTab::Version => 1,
        }
    }
}

/// Which dialog, if any, is open over the detail page.
pub enum DetailViewState {
    Default,
    /// The "save as" dialog, with the name typed so far.
    SaveDialog(String),
    /// The copy dialog, with the row under the cursor.
    CopyDetailDialog(usize),
}

/// The number of rows of the copy dialog.
pub const COPY_ITEM_COUNT: usize = 5;

/// The label of a row of the copy dialog.
pub open spec fn copy_item_name(i: int) -> Seq<char> {
    if i == 0 {
        "Key"@
    } else if i == 1 {
        "S3 URI"@
    } else if i == 2 {
        "ARN"@
    } else if i == 3 {
        "Object URL"@
    } else {
        "ETag"@
    }
}

/// The value of a row of the copy dialog.
pub open spec fn copy_item_value(d: FileDetail, i: int) -> String {
    if i == 0 {
        d.key
    } else if i == 1 {
        d.s3_uri
    } else if i == 2 {
        d.arn
    } else if i == 3 {
        d.object_url
    } else {
        d.e_tag
    }
}

/// The label and value of a row of the copy dialog.
pub fn copy_item(d: &FileDetail, i: usize) -> (r: (String, String))
    ensures
        r.0@ == copy_item_name(i as int),
        r.1 == copy_item_value(*d, i as int),
{
    if i == 0 {
        (String::from_str("Key"), d.key.clone())
    } else if i == 1 {
        (String::from_str("S3 URI"), d.s3_uri.clone())
    } else if i == 2 {
        (String::from_str("ARN"), d.arn.clone())
    } else if i == 3 {
        (String::from_str("Object URL"), d.object_url.clone())
    } else {
        (String::from_str("ETag"), d.e_tag.clone())
    }
}

/// A directory row of the listing beside the details: the name with a slash, padded to the
/// row's width inside the border and the two spaces round it.
pub fn format_dir_item(name: &str, width: u16) -> (r: String)
    requires
        width >= 4,
    ensures
        r@ == seq![' '] + pad_right_spec(name@ + seq!['/'], (width - 4) as nat) + seq![' '],
{
    let name_w: usize = (width as usize) - 2 - 2;
    let mut s = String::from_str(name);
    push_char(&mut s, '/');
    let padded = pad_right(s, name_w);
    let mut r = String::from_str(" ");
    r.append(padded.as_str());
    push_char(&mut r, ' ');
    proof {
        reveal_strlit(" ");
    }
    assert(r@ =~= seq![' '] + pad_right_spec(name@ + seq!['/'], (width - 4) as nat) + seq![' ']);
    r
}

/// A file row of the listing beside the details: the name padded to the row's width.
pub fn format_file_item(name: &str, width: u16) -> (r: String)
    requires
        width >= 6,
    ensures
        r@ == seq![' '] + pad_right_spec(name@, (width - 6) as nat) + seq![' '],
{
    let name_w: usize = (width as usize) - 2 - 4;
    let padded = pad_right(String::from_str(name), name_w);
    let mut r = String::from_str(" ");
    r.append(padded.as_str());
    push_char(&mut r, ' ');
    proof {
        reveal_strlit(" ");
    }
    assert(r@ =~= seq![' '] + pad_right_spec(name@, (width - 6) as nat) + seq![' ']);
    r
}

/// The number of lines of the detail tab: two per shown field, a blank line between fields.
/// Size and last modified time are always shown; the other fields only when not empty.
pub open spec fn detail_line_count(d: FileDetail) -> nat {
    let shown = 2 + (if d.name@.len() > 0 { 1nat } else { 0 }) + (if d.e_tag@.len() > 0 { 1nat } else { 0 }) + (
    if d.content_type@.len() > 0 { 1nat } else { 0 }) + (if d.storage_class@.len() > 0 { 1nat } else { 0 });
    (3 * shown - 1) as nat
}

/// The scroll position of the detail tab.
#[derive(Clone, Copy, PartialEq, Eq, Structural, Debug)]
pub struct DetailTabState {
    pub offset: usize,
    pub lines: usize,
}

impl DetailTabState {
    pub open spec fn spec_forward(self) -> Self {
        if self.offset + 1 < self.lines {
            DetailTabState { offset: (self.offset + 1) as usize, ..self }
        } else {
            self
        }
    }

    pub open spec fn spec_backward(self) -> Self {
        if self.offset > 0 {
            DetailTabState { offset: (self.offset - 1) as usize, ..self }
        } else {
            self
        }
    }

    pub fn new(file_detail: &FileDetail) -> (r: Self)
        ensures
            r.offset == 0,
            r.lines == detail_line_count(*file_detail),
    {
        let mut shown: usize = 2;
        if file_detail.name.as_str().unicode_len() > 0 {
            shown = shown + 1;
        }
        if file_detail.e_tag.as_str().unicode_len() > 0 {
            shown = shown + 1;
        }
        if file_detail.content_type.as_str().unicode_len() > 0 {
            shown = shown + 1;
        }
        if file_detail.storage_class.as_str().unicode_len() > 0 {
            shown = shown + 1;
        }
        DetailTabState { offset: 0, lines: 3 * shown - 1 }
    }

    /// Scrolls one line down, stopping at the last line.
    pub fn scroll_forward(&mut self)
        ensures
            *final(self) == old(self).spec_forward(),
    {
        if self.offset < self.lines && self.lines - self.offset > 1 {
            self.offset = self.offset + 1;
        }
    }

    /// Scrolls one line up, stopping at the first line.
    pub fn scroll_backward(&mut self)
        ensures
            *final(self) == old(self).spec_backward(),
    {
        if self.offset > 0 {
            self.offset = self.offset - 1;
        }
    }
}

/// The rows a version takes in the version tab: three lines and a divider.
pub open spec fn version_rows() -> int {
    4
}

/// The first version shown after jumping to the last one: as many versions as fit
/// end the view, or the view is left where it was when all versions fit.
pub open spec fn last_offset(count: int, height: int, offset: int) -> int {
    let fit = if height == 0 {
        1
    } else {
        (height + 3) / 4
    };
    if fit > count {
        offset
    } else if 4 * fit == height {
        count - fit
    } else {
        count - fit + 1
    }
}

/// The cursor and scroll position of the version tab.
#[derive(Clone, Copy, PartialEq, Eq, Structural, Debug)]
pub struct VersionTabState {
    pub selected: usize,
    pub offset: usize,
    pub height: usize,
    pub count: usize,
}

impl VersionTabState {
    pub open spec fn wf(&self) -> bool {
        &&& (self.count == 0 ==> self.selected == 0)
        &&& (self.count > 0 ==> self.selected < self.count)
        &&& self.offset <= self.selected + 1
    }

    pub open spec fn spec_next(self) -> Self {
        if self.selected + 1 >= self.count {
            self
        } else {
            VersionTabState {
                selected: (self.selected + 1) as usize,
                offset: if (self.selected + 2 - self.offset) * version_rows() > self.height {
                    (self.offset + 1) as usize
                } else {
                    self.offset
                },
                ..self
            }
        }
    }

    pub open spec fn spec_prev(self) -> Self {
        if self.selected == 0 {
            self
        } else {
            VersionTabState {
                selected: (self.selected - 1) as usize,
                offset: if self.selected - 1 < self.offset {
                    (self.offset - 1) as usize
                } else {
                    self.offset
                },
                ..self
            }
        }
    }

    pub open spec fn spec_first(self) -> Self {
        VersionTabState { selected: 0, offset: 0, ..self }
    }

    pub open spec fn spec_last(self) -> Self {
        if self.count == 0 {
            self
        } else {
            VersionTabState {
                selected: (self.count - 1) as usize,
                offset: last_offset(self.count as int, self.height as int, self.offset as int) as usize,
                ..self
            }
        }
    }

    pub fn new(versions: &Vec<FileVersion>) -> (r: Self)
        ensures
            r.wf(),
            r == (VersionTabState { selected: 0, offset: 0, height: 0, count: versions.len() }),
    {
        VersionTabState { selected: 0, offset: 0, height: 0, count: versions.len() }
    }

    /// Selects the next version; scrolls by one when it would not fit.
    pub fn select_next(&mut self)
        requires
            old(self).wf(),
        ensures
            final(self).wf(),
            *final(self) == old(self).spec_next(),
    {
        if self.count == 0 || self.selected >= self.count - 1 {
            return;
        }
        self.selected = self.selected + 1;
        let shown = (self.selected - self.offset + 1) as u128;
        if shown * 4 > self.height as u128 {
            self.offset = self.offset + 1;
        }
    }

    /// Selects the previous version; scrolls back when it is above the view.
    pub fn select_prev(&mut self)
        requires
            old(self).wf(),
        ensures
            final(self).wf(),
            *final(self) == old(self).spec_prev(),
    {
        if self.selected == 0 {
            return;
        }
        self.selected = self.selected - 1;
        if self.selected < self.offset {
            self.offset = self.offset - 1;
        }
    }

    pub fn select_first(&mut self)
        requires
            old(self).wf(),
        ensures
            final(self).wf(),
            *final(self) == old(self).spec_first(),
    {
        self.selected = 0;
        self.offset = 0;
    }

    /// Selects the last version and scrolls so that it ends the view.
    pub fn select_last(&mut self)
        requires
            old(self).wf(),
        ensures
            final(self).wf(),
            *final(self) == old(self).spec_last(),
    {
        if self.count == 0 {
            return;
        }
        let fit: usize = if self.height == 0 {
            1
        } else {
            self.height / 4 + if self.height % 4 == 0 {
                0
            } else {
                1
            }
        };
        assert(fit == (if self.height == 0 {
            1
        } else {
            (self.height + 3) / 4
        }));
        self.selected = self.count - 1;
        if fit > self.count {
        } else if self.height % 4 == 0 && self.height / 4 == fit {
            self.offset = self.count - fit;
        } else {
            self.offset = self.count - fit + 1;
        }
    }
}

/// The page of one object: its details, its versions and the listing it was opened from.
pub struct ObjectDetailPage {
    file_detail: FileDetail,
    file_versions: Vec<FileVersion>,
    tab: DetailTab,
    view_state: DetailViewState,
    object_items: Vec<ObjectItem>,
    list_state: ScrollListState,
    detail_tab_state: DetailTabState,
    version_tab_state: VersionTabState,
}

/// The key table of the detail page's help page.
pub open spec fn detail_help_table(view: int, tab: DetailTab) -> Seq<(Seq<char>, Seq<char>)> {
    if view == 1 {
        seq![("Ctrl-c"@, "Quit app"@), ("Esc"@, "Close save dialog"@), ("Enter"@, "Download object"@)]
    } else if view == 2 {
        seq![
            ("Ctrl-c"@, "Quit app"@),
            ("Esc/Backspace"@, "Close copy dialog"@),
            ("j/k"@, "Select item"@),
            ("Enter"@, "Copy selected value to clipboard"@),
        ]
    } else if tab == DetailTab::Detail {
        seq![
            ("Esc/Ctrl-c"@, "Quit app"@),
            ("h/l"@, "Select tabs"@),
            ("Backspace"@, "Close detail panel"@),
            ("j/k"@, "Scroll forward/backward"@),
            ("r"@, "Open copy dialog"@),
            ("s"@, "Download object"@),
            ("S"@, "Download object as"@),
            ("p"@, "Preview object"@),
            ("x"@, "Open management console in browser"@),
        ]
    } else {
        seq![
            ("Esc/Ctrl-c"@, "Quit app"@),
            ("h/l"@, "Select tabs"@),
            ("j/k"@, "Select version"@),
            ("g/G"@, "Go to top/bottom"@),
            ("Backspace"@, "Close detail panel"@),
            ("r"@, "Open copy dialog"@),
            ("s"@, "Download object"@),
            ("S"@, "Download object as"@),
            ("p"@, "Preview object"@),
            ("x"@, "Open management console in browser"@),
        ]
    }
}

/// The key table of the detail page's footer, with priorities.
pub open spec fn detail_short_help_table(view: int, tab: DetailTab) -> Seq<(Seq<char>, Seq<char>, usize)> {
    if view == 1 {
        seq![("Esc"@, "Close"@, 2usize), ("Enter"@, "Download"@, 1usize), ("?"@, "Help"@, 0usize)]
    } else if view == 2 {
        seq![
            ("Esc"@, "Close"@, 2usize),
            ("j/k"@, "Select"@, 3usize),
            ("Enter"@, "Copy"@, 1usize),
            ("?"@, "Help"@, 0usize),
        ]
    } else if tab == DetailTab::Detail {
        seq![
            ("Esc"@, "Quit"@, 0usize),
            ("h/l"@, "Select tabs"@, 3usize),
            ("j/k"@, "Scroll"@, 5usize),
            ("s/S"@, "Download"@, 1usize),
            ("p"@, "Preview"@, 4usize),
            ("Backspace"@, "Close"@, 2usize),
            ("?"@, "Help"@, 0usize),
        ]
    } else {
        seq![
            ("Esc"@, "Quit"@, 0usize),
            ("h/l"@, "Select tabs"@, 3usize),
            ("j/k"@, "Select"@, 5usize),
            ("s/S"@, "Download"@, 1usize),
            ("p"@, "Preview"@, 4usize),
            ("Backspace"@, "Close"@, 2usize),
            ("?"@, "Help"@, 0usize),
        ]
    }
}

impl ObjectDetailPage {
    pub closed spec fn wf(&self) -> bool {
        &&& self.version_tab_state.wf()
        &&& self.version_tab_state.count == self.file_versions@.len()
        &&& match self.view_state {
            DetailViewState::CopyDetailDialog(i) => i < COPY_ITEM_COUNT,
            _ => true,
        }
    }

    pub closed spec fn spec_detail(&self) -> FileDetail {
        self.file_detail
    }

    pub closed spec fn spec_versions(&self) -> Seq<FileVersion> {
        self.file_versions@
    }

    pub closed spec fn spec_tab(&self) -> DetailTab {
        self.tab
    }

    pub closed spec fn spec_items(&self) -> Seq<ObjectItem> {
        self.object_items@
    }

    pub closed spec fn spec_list(&self) -> ScrollListState {
        self.list_state
    }

    pub closed spec fn spec_detail_tab(&self) -> DetailTabState {
        self.detail_tab_state
    }

    pub closed spec fn spec_version_tab(&self) -> VersionTabState {
        self.version_tab_state
    }

    /// 0: no dialog; 1: the save dialog; 2: the copy dialog.
    pub closed spec fn spec_view(&self) -> int {
        match self.view_state {
            DetailViewState::Default => 0,
            DetailViewState::SaveDialog(_) => 1,
            DetailViewState::CopyDetailDialog(_) => 2,
        }
    }

    /// The text typed into the save dialog.
    pub closed spec fn spec_save_input(&self) -> Seq<char> {
        match self.view_state {
            DetailViewState::SaveDialog(s) => s@,
            _ => Seq::empty(),
        }
    }

    /// The row under the cursor of the copy dialog.
    pub closed spec fn spec_copy_selected(&self) -> int {
        match self.view_state {
            DetailViewState::CopyDetailDialog(i) => i as int,
            _ => 0,
        }
    }

    /// The version that a download or preview asks for: the selected one on the version tab.
    pub open spec fn spec_version_id(&self) -> Option<String> {
        if self.spec_tab() == DetailTab::Version && self.spec_version_tab().selected < self.spec_versions().len() {
            Some(self.spec_versions()[self.spec_version_tab().selected as int].version_id)
        } else {
            None
        }
    }

    /// Everything but the dialog is as in `self`.
    pub open spec fn same_but_view(&self, other: &Self) -> bool {
        &&& other.spec_detail() == self.spec_detail()
        &&& other.spec_versions() == self.spec_versions()
        &&& other.spec_tab() == self.spec_tab()
        &&& other.spec_items() == self.spec_items()
        &&& other.spec_list() == self.spec_list()
        &&& other.spec_detail_tab() == self.spec_detail_tab()
        &&& other.spec_version_tab() == self.spec_version_tab()
    }

    /// Only the scroll and cursor of the two tabs may differ from `self`, and no dialog is open.
    pub open spec fn same_but_tabs(&self, other: &Self) -> bool {
        &&& other.spec_detail() == self.spec_detail()
        &&& other.spec_versions() == self.spec_versions()
        &&& other.spec_tab() == self.spec_tab()
        &&& other.spec_items() == self.spec_items()
        &&& other.spec_list() == self.spec_list()
        &&& other.spec_view() == 0
    }

    /// The tab states after a cursor key on the tab shown.
    pub open spec fn moved(&self, other: &Self, detail: DetailTabState, version: VersionTabState) -> bool {
        &&& self.same_but_tabs(other)
        &&& other.spec_detail_tab() == detail
        &&& other.spec_version_tab() == version
    }

    /// Only the dialog state may differ from `self`.
    pub open spec fn same_view(&self, other: &Self) -> bool {
        &&& self.same_but_view(other)
        &&& other.spec_view() == self.spec_view()
        &&& other.spec_save_input() == self.spec_save_input()
        &&& other.spec_copy_selected() == self.spec_copy_selected()
    }

    pub fn new(
        file_detail: FileDetail,
        file_versions: Vec<FileVersion>,
        object_items: Vec<ObjectItem>,
        list_state: ScrollListState,
    ) -> (r: Self)
        ensures
            r.wf(),
            r.spec_detail() == file_detail,
            r.spec_versions() == file_versions@,
            r.spec_items() == object_items@,
            r.spec_list() == list_state,
            r.spec_tab() == DetailTab::Detail,
            r.spec_view() == 0,
            r.spec_detail_tab().offset == 0,
            r.spec_detail_tab().lines == detail_line_count(file_detail),
            r.spec_version_tab() == (VersionTabState {
                selected: 0,
                offset: 0,
                height: 0,
                count: file_versions.len(),
            }),
    {
        let detail_tab_state = DetailTabState::new(&file_detail);
        let version_tab_state = VersionTabState::new(&file_versions);
        ObjectDetailPage {
            file_detail,
            file_versions,
            tab: DetailTab::Detail,
            view_state: DetailViewState::Default,
            object_items,
            list_state,
            detail_tab_state,
            version_tab_state,
        }
    }

    pub fn file_detail(&self) -> (r: &FileDetail)
        ensures
            *r == self.spec_detail(),
    {
        &self.file_detail
    }

    pub fn file_versions(&self) -> (r: &Vec<FileVersion>)
        ensures
            r@ == self.spec_versions(),
    {
        &self.file_versions
    }

    pub fn object_list(&self) -> (r: &Vec<ObjectItem>)
        ensures
            r@ == self.spec_items(),
    {
        &self.object_items
    }

    pub fn list_state(&self) -> (r: ScrollListState)
        ensures
            r == self.spec_list(),
    {
        self.list_state
    }

    pub fn tab(&self) -> (r: DetailTab)
        ensures
            r == self.spec_tab(),
    {
        self.tab
    }

    pub fn detail_tab_state(&self) -> (r: DetailTabState)
        ensures
            r == self.spec_detail_tab(),
    {
        self.detail_tab_state
    }

    pub fn version_tab_state(&self) -> (r: VersionTabState)
        ensures
            r == self.spec_version_tab(),
    {
        self.version_tab_state
    }

    /// Records how many rows the version tab shows.
    pub fn set_version_tab_height(&mut self, height: usize)
        requires
            old(self).wf(),
        ensures
            final(self).wf(),
            final(self).spec_version_tab() == (VersionTabState { height, ..old(self).spec_version_tab() }),
            final(self).spec_detail() == old(self).spec_detail(),
            final(self).spec_versions() == old(self).spec_versions(),
            final(self).spec_tab() == old(self).spec_tab(),
            final(self).spec_view() == old(self).spec_view(),
            final(self).spec_save_input() == old(self).spec_save_input(),
            final(self).spec_copy_selected() == old(self).spec_copy_selected(),
    {
        self.version_tab_state.height = height;
    }

    /// Whether the save dialog, and whether the copy dialog, is open.
    pub fn status(&self) -> (r: (bool, bool))
        ensures
            r == (self.spec_view() == 1, self.spec_view() == 2),
    {
        match self.view_state {
            DetailViewState::Default => (false, false),
            DetailViewState::SaveDialog(_) => (true, false),
            DetailViewState::CopyDetailDialog(_) => (false, true),
        }
    }

    /// The text typed into the save dialog, when it is open.
    pub fn save_dialog_key_input(&self) -> (r: Option<&String>)
        ensures
            r is Some == (self.spec_view() == 1),
            r is Some ==> r->0@ == self.spec_save_input(),
    {
        match &self.view_state {
            DetailViewState::SaveDialog(s) => Some(s),
            _ => None,
        }
    }

    /// The label and value under the cursor of the copy dialog, when it is open.
    pub fn copy_detail_dialog_selected(&self) -> (r: Option<(String, String)>)
        requires
            self.wf(),
        ensures
            r is Some == (self.spec_view() == 2),
            r matches Some((name, value)) ==> name@ == copy_item_name(self.spec_copy_selected()) && value
                == copy_item_value(self.spec_detail(), self.spec_copy_selected()),
    {
        match &self.view_state {
            DetailViewState::CopyDetailDialog(i) => Some(copy_item(&self.file_detail, *i)),
            _ => None,
        }
    }

    /// What one key press does to the page, and the event it sends.
    pub open spec fn key_step(o: &Self, n: &Self, key: Key, r: Option<AppEventType>) -> bool {
        &&& (o.spec_view() == 0 ==> match key {
            Key::Char('q') => r == Some(AppEventType::Quit) && *n == *o,
            Key::Esc | Key::Char('h') => r == Some(AppEventType::CloseCurrentPage) && *n == *o,
            Key::Tab | Key::BackTab => r is None && n.spec_tab() == o.spec_tab().spec_next() && n.spec_view() == 0 && n.spec_version_tab() == o.spec_version_tab() && n.spec_detail_tab() == o.spec_detail_tab() && n.spec_detail() == o.spec_detail() && n.spec_versions() == o.spec_versions() && n.spec_items() == o.spec_items() && n.spec_list() == o.spec_list(),
            Key::Char('j') => r is None && if o.spec_tab() == DetailTab::Detail {
                o.moved(n, o.spec_detail_tab().spec_forward(), o.spec_version_tab())
            } else {
                o.moved(n, o.spec_detail_tab(), o.spec_version_tab().spec_next())
            },
            Key::Char('k') => r is None && if o.spec_tab() == DetailTab::Detail {
                o.moved(n, o.spec_detail_tab().spec_backward(), o.spec_version_tab())
            } else {
                o.moved(n, o.spec_detail_tab(), o.spec_version_tab().spec_prev())
            },
            Key::Char('g') => r is None && if o.spec_tab() == DetailTab::Detail {
                *n == *o
            } else {
                o.moved(n, o.spec_detail_tab(), o.spec_version_tab().spec_first())
            },
            Key::Char('G') => r is None && if o.spec_tab() == DetailTab::Detail {
                *n == *o
            } else {
                o.moved(n, o.spec_detail_tab(), o.spec_version_tab().spec_last())
            },
            Key::Char('s') => r == Some(AppEventType::DetailDownloadObject(o.spec_detail(), o.spec_version_id())) && *n == *o,
            Key::Char('S') => r is None && n.spec_view() == 1 && n.spec_save_input() == Seq::<char>::empty() && o.same_but_view(n),
            Key::Char('p') | Key::Char('l') => r == Some(AppEventType::OpenPreview(o.spec_detail(), o.spec_version_id())) && *n == *o,
            Key::Char('r') => r is None && n.spec_view() == 2 && n.spec_copy_selected() == 0 && o.same_but_view(n),
            Key::Char('x') => r == Some(AppEventType::ObjectDetailOpenManagementConsole(o.spec_detail().name)) && *n == *o,
            Key::Char('?') => r == Some(AppEventType::OpenHelp) && *n == *o,
            _ => r is None && *n == *o,
        })
        &&& (o.spec_view() == 1 ==> match key {
            Key::Esc => r is None && n.spec_view() == 0 && o.same_but_view(n),
            Key::Enter => o.same_view(n) && if trim_spec(o.spec_save_input()).len() == 0 {
                r is None
            } else {
                match r {
                    Some(AppEventType::DetailDownloadObjectAs(d, name, v)) => d == o.spec_detail() && name@ == trim_spec(o.spec_save_input()) && v == o.spec_version_id(),
                    _ => false,
                }
            },
            Key::Char('?') => r == Some(AppEventType::OpenHelp) && *n == *o,
            _ => r is None && n.spec_view() == 1 && n.spec_save_input() == edit_input( o.spec_save_input(), key) && o.same_but_view(n),
        })
        &&& (o.spec_view() == 2 ==> match key {
            Key::Esc | Key::Backspace => r is None && n.spec_view() == 0 && o.same_but_view(n),
            Key::Enter => *n == *o && match r {
                Some(AppEventType::CopyToClipboard(name, value)) => name@ == copy_item_name( o.spec_copy_selected()) && value == copy_item_value(o.spec_detail(), o.spec_copy_selected()),
                _ => false,
            },
            Key::Char('j') => r is None && n.spec_view() == 2 && n.spec_copy_selected() == (o.spec_copy_selected() + 1) % 5 && o.same_but_view(n),
            Key::Char('k') => r is None && n.spec_view() == 2 && n.spec_copy_selected() == (o.spec_copy_selected() + 4) % 5 && o.same_but_view(n),
            Key::Char('?') => r == Some(AppEventType::OpenHelp) && *n == *o,
            _ => r is None && *n == *o,
        })
    }

    /// Handles one key press; returns the event to send, if any.
    pub fn handle_key(&mut self, key: Key) -> (r: Option<AppEventType>)
        requires
            old(self).wf(),
        ensures
            final(self).wf(),
            Self::key_step(old(self), final(self), key, r),
    {
        match self.view_state {
            DetailViewState::Default => match key {
                Key::Char('q') => Some(AppEventType::Quit),
                Key::Esc => Some(AppEventType::CloseCurrentPage),
                Key::Char('h') => Some(AppEventType::CloseCurrentPage),
                Key::Tab | Key::BackTab => {
                    self.toggle_tab();
                    None
                },
                Key::Char('j') => {
                    match self.tab {
                        DetailTab::Detail => self.detail_tab_state.scroll_forward(),
                        DetailTab::Version => self.version_tab_state.select_next(),
                    }
                    None
                },
                Key::Char('k') => {
                    match self.tab {
                        DetailTab::Detail => self.detail_tab_state.scroll_backward(),
                        DetailTab::Version => self.version_tab_state.select_prev(),
                    }
                    None
                },
                Key::Char('g') => {
                    if self.tab == DetailTab::Version {
                        self.version_tab_state.select_first();
                    }
                    None
                },
                Key::Char('G') => {
                    if self.tab == DetailTab::Version {
                        self.version_tab_state.select_last();
                    }
                    None
                },
                Key::Char('s') => Some(self.download()),
                Key::Char('S') => {
                    self.open_save_dialog();
                    None
                },
                Key::Char('p') | Key::Char('l') => Some(self.preview()),
                Key::Char('r') => {
                    self.open_copy_detail_dialog();
                    None
                },
                Key::Char('x') => Some(self.open_management_console()),
                Key::Char('?') => Some(AppEventType::OpenHelp),
                _ => None,
            },
            DetailViewState::SaveDialog(_) => match key {
                Key::Esc => {
                    self.close_save_dialog();
                    None
                },
                Key::Enter => {
                    let input = match &self.view_state {
                        DetailViewState::SaveDialog(s) => s.clone(),
                        _ => String::new(),
                    };
                    self.download_as(input)
                },
                Key::Char('?') => Some(AppEventType::OpenHelp),
                _ => {
                    if let DetailViewState::SaveDialog(s) = &mut self.view_state {
                        match key {
                            Key::Char(c) => push_char(s, c),
                            Key::Backspace => pop_char(s),
                            _ => {},
                        }
                    }
                    None
                },
            },
            DetailViewState::CopyDetailDialog(i) => match key {
                Key::Esc | Key::Backspace => {
                    self.close_copy_detail_dialog();
                    None
                },
                Key::Enter => {
                    let (name, value) = copy_item(&self.file_detail, i);
                    Some(AppEventType::CopyToClipboard(name, value))
                },
                Key::Char('j') => {
                    self.view_state = DetailViewState::CopyDetailDialog(
                        if i + 1 >= COPY_ITEM_COUNT {
                            0
                        } else {
                            i + 1
                        },
                    );
                    None
                },
                Key::Char('k') => {
                    self.view_state = DetailViewState::CopyDetailDialog(
                        if i == 0 {
                            COPY_ITEM_COUNT - 1
                        } else {
                            i - 1
                        },
                    );
                    None
                },
                Key::Char('?') => Some(AppEventType::OpenHelp),
                _ => None,
            },
        }
    }

    pub fn helps(&self) -> (r: Vec<String>)
        ensures
            texts(r@) == help_lines(detail_help_table(self.spec_view(), self.spec_tab())),
    {
        let t: Vec<(&str, &str)> = match self.view_state {
            DetailViewState::Default => match self.tab {
                DetailTab::Detail => vec![
                    ("Esc/Ctrl-c", "Quit app"),
                    ("h/l", "Select tabs"),
                    ("Backspace", "Close detail panel"),
                    ("j/k", "Scroll forward/backward"),
                    ("r", "Open copy dialog"),
                    ("s", "Download object"),
                    ("S", "Download object as"),
                    ("p", "Preview object"),
                    ("x", "Open management console in browser"),
                ],
                DetailTab::Version => vec![
                    ("Esc/Ctrl-c", "Quit app"),
                    ("h/l", "Select tabs"),
                    ("j/k", "Select version"),
                    ("g/G", "Go to top/bottom"),
                    ("Backspace", "Close detail panel"),
                    ("r", "Open copy dialog"),
                    ("s", "Download object"),
                    ("S", "Download object as"),
                    ("p", "Preview object"),
                    ("x", "Open management console in browser"),
                ],
            },
            DetailViewState::SaveDialog(_) => vec![
                ("Ctrl-c", "Quit app"),
                ("Esc", "Close save dialog"),
                ("Enter", "Download object"),
            ],
            DetailViewState::CopyDetailDialog(_) => vec![
                ("Ctrl-c", "Quit app"),
                ("Esc/Backspace", "Close copy dialog"),
                ("j/k", "Select item"),
                ("Enter", "Copy selected value to clipboard"),
            ],
        };
        let r = build_helps(&t);
        assert(table_view(t@) =~= detail_help_table(self.spec_view(), self.spec_tab()));
        r
    }

    pub fn short_helps(&self) -> (r: Vec<(String, usize)>)
        ensures
            short_helps_view(r@) == short_help_lines(detail_short_help_table(self.spec_view(), self.spec_tab())),
    {
        let t: Vec<(&str, &str, usize)> = match self.view_state {
            DetailViewState::Default => match self.tab {
                DetailTab::Detail => vec![
                    ("Esc", "Quit", 0),
                    ("h/l", "Select tabs", 3),
                    ("j/k", "Scroll", 5),
                    ("s/S", "Download", 1),
                    ("p", "Preview", 4),
                    ("Backspace", "Close", 2),
                    ("?", "Help", 0),
                ],
                DetailTab::Version => vec![
                    ("Esc", "Quit", 0),
                    ("h/l", "Select tabs", 3),
                    ("j/k", "Select", 5),
                    ("s/S", "Download", 1),
                    ("p", "Preview", 4),
                    ("Backspace", "Close", 2),
                    ("?", "Help", 0),
                ],
            },
            DetailViewState::SaveDialog(_) => vec![
                ("Esc", "Close", 2),
                ("Enter", "Download", 1),
                ("?", "Help", 0),
            ],
            DetailViewState::CopyDetailDialog(_) => vec![
                ("Esc", "Close", 2),
                ("j/k", "Select", 3),
                ("Enter", "Copy", 1),
                ("?", "Help", 0),
            ],
        };
        let r = build_short_helps(&t);
        assert(short_table_view(t@) =~= detail_short_help_table(self.spec_view(), self.spec_tab()));
        r
    }

    fn toggle_tab(&mut self)
        ensures
            *final(self) == (ObjectDetailPage { tab: old(self).tab.spec_next(), ..*old(self) }),
    {
        self.tab = self.tab.next();
    }

    fn open_save_dialog(&mut self)
        ensures
            *final(self) == (ObjectDetailPage {
                view_state: DetailViewState::SaveDialog(final(self).spec_save_input_string()),
                ..*old(self)
            }),
            final(self).spec_save_input() == Seq::<char>::empty(),
    {
        self.view_state = DetailViewState::SaveDialog(String::new());
    }

    closed spec fn spec_save_input_string(&self) -> String {
        match self.view_state {
            DetailViewState::SaveDialog(s) => s,
            _ => arbitrary(),
        }
    }

    /// Closes whichever dialog is open.
    pub fn close_save_dialog(&mut self)
        requires
            old(self).wf(),
        ensures
            final(self).wf(),
            final(self).spec_view() == 0,
            old(self).same_but_view(final(self)),
    {
        self.view_state = DetailViewState::Default;
    }

    fn open_copy_detail_dialog(&mut self)
        ensures
            *final(self) == (ObjectDetailPage { view_state: DetailViewState::CopyDetailDialog(0), ..*old(self) }),
    {
        self.view_state = DetailViewState::CopyDetailDialog(0);
    }

    fn close_copy_detail_dialog(&mut self)
        ensures
            *final(self) == (ObjectDetailPage { view_state: DetailViewState::Default, ..*old(self) }),
    {
        self.view_state = DetailViewState::Default;
    }

    fn download(&self) -> (r: AppEventType)
        ensures
            r == AppEventType::DetailDownloadObject(self.spec_detail(), self.spec_version_id()),
    {
        let file_detail = self.file_detail.clone();
        let version_id = self.current_selected_version_id();
        AppEventType::DetailDownloadObject(file_detail, version_id)
    }

    fn download_as(&self, input: String) -> (r: Option<AppEventType>)
        ensures
            trim_spec(input@).len() == 0 ==> r is None,
            trim_spec(input@).len() > 0 ==> match r {
                Some(AppEventType::DetailDownloadObjectAs(d, name, v)) => d == self.spec_detail() && name@
                    == trim_spec(input@) && v == self.spec_version_id(),
                _ => false,
            },
    {
        let input = trim(input.as_str());
        if input.as_str().unicode_len() == 0 {
            return None;
        }
        let file_detail = self.file_detail.clone();
        let version_id = self.current_selected_version_id();
        Some(AppEventType::DetailDownloadObjectAs(file_detail, input, version_id))
    }

    fn preview(&self) -> (r: AppEventType)
        ensures
            r == AppEventType::OpenPreview(self.spec_detail(), self.spec_version_id()),
    {
        let file_detail = self.file_detail.clone();
        let version_id = self.current_selected_version_id();
        AppEventType::OpenPreview(file_detail, version_id)
    }

    fn open_management_console(&self) -> (r: AppEventType)
        ensures
            r == AppEventType::ObjectDetailOpenManagementConsole(self.spec_detail().name),
    {
        AppEventType::ObjectDetailOpenManagementConsole(self.file_detail.name.clone())
    }

    fn current_selected_version_id(&self) -> (r: Option<String>)
        ensures
            r == self.spec_version_id(),
    {
        match self.tab {
            DetailTab::Detail => None,
            DetailTab::Version => {
                let i = self.version_tab_state.selected;
                if i < self.file_versions.len() {
                    Some(self.file_versions[i].version_id.clone())
                } else {
                    None
                }
            },
        }
    }
}

} // verus!
