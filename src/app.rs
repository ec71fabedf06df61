use vstd::prelude::*;
use vstd::string::StringExecFns;

use crate::bucket_list::BucketListPage;
use crate::cache::AppObjects;
use crate::event::AppEventType;
use crate::help::texts;
use crate::object::{
    segments_view, AppError, BucketItem, FileDetail, FileVersion, KeyView, Object,
    ObjectItem, ObjectKey,
};
use crate::object_detail::ObjectDetailPage;
use crate::object_list::ObjectListPage;
use crate::object_preview::ObjectPreviewPage;
use crate::page::{page_helps, HelpPage, Page, PageStack};
use crate::progress::{handle_loading_size, Progress};
use crate::scroll::{fresh_list, ScrollListState};
use crate::text::{trim, trim_spec};

verus! {

/// Which kind of page is shown, with its open dialog.
#[derive(Debug, Clone, Copy, PartialEq, Eq, Structural, Hash)]
pub enum ViewStateTag {
    Initializing,
    BucketList,
    ObjectList,
    Detail,
    DetailSave,
    CopyDetail,
    Preview,
    PreviewSave,
    Help,
}

/// The one message shown to the user; a new one replaces the old.
#[derive(Debug, PartialEq, Eq)]
pub enum Notification {
    Blank,
    Info(String),
    Success(String),
    Error(String),
}

pub struct AppViewState {
    pub notification: Notification,
    pub is_loading: bool,
    pub width: usize,
    pub height: usize,
}

impl AppViewState {
    pub open spec fn spec_size(&self) -> (usize, usize) {
        (self.width, self.height)
    }

    pub fn new(width: usize, height: usize) -> (r: AppViewState)
        ensures
            r.notification is Blank,
            r.is_loading,
            r.spec_size() == (width, height),
    {
        AppViewState { notification: Notification::Blank, is_loading: true, width, height }
    }

    pub fn reset_size(&mut self, width: usize, height: usize)
        ensures
            final(self).spec_size() == (width, height),
            final(self).notification == old(self).notification,
            final(self).is_loading == old(self).is_loading,
    {
        self.width = width;
        self.height = height;
    }

    pub fn size(&self) -> (r: (usize, usize))
        ensures
            r == self.spec_size(),
    {
        (self.width, self.height)
    }
}

/// The buckets, once fetched.
pub struct CompleteInitializeResult {
    pub buckets: Vec<BucketItem>,
}

/// A listing, with the key it was asked for.
pub struct CompleteLoadObjectsResult {
    pub items: Vec<ObjectItem>,
    pub key: ObjectKey,
}

/// The details and versions of an object, with the key they were asked for.
pub struct CompleteLoadObjectResult {
    pub detail: FileDetail,
    pub versions: Vec<FileVersion>,
    pub map_key: ObjectKey,
}

/// A downloaded object, to be shown.
pub struct CompletePreviewObjectResult {
    pub obj: Object,
    pub file_detail: FileDetail,
    pub path: String,
}

/// What to list: a bucket, a prefix in it, and the key to store the listing under.
pub struct ObjectsRequest {
    pub bucket: String,
    pub prefix: String,
    pub key: ObjectKey,
}

/// Which object's details to fetch, and the key to store them under.
pub struct ObjectRequest {
    pub bucket: String,
    pub key: String,
    pub name: String,
    pub size_byte: usize,
    pub map_key: ObjectKey,
}

/// What to download, where to write it, and how to report progress.
pub struct DownloadRequest {
    pub bucket: String,
    pub key: String,
    pub size_byte: usize,
    pub path: String,
    pub progress: Progress,
}

/// An object that is already downloaded, and where to write it.
pub struct DownloadedObject {
    pub obj: Object,
    pub path: String,
}

/// The directory name selected on a page, when the page is a listing whose cursor is on a directory.
pub open spec fn selected_dir(p: Page) -> Option<Seq<char>> {
    match p {
        Page::ObjectList(o) => o.spec_selected_dir(),
        _ => None,
    }
}

/// The current path: the selected directory of each listing page, from bottom to top.
pub open spec fn path_of(pages: Seq<Page>) -> Seq<Seq<char>>
    decreases pages.len(),
{
    if pages.len() == 0 {
        Seq::empty()
    } else {
        let rest = path_of(pages.drop_last());
        match selected_dir(pages.last()) {
            Some(name) => rest.push(name),
            None => rest,
        }
    }
}

/// Each segment followed by a slash; empty for the bucket root.
pub open spec fn prefix_of(path: Seq<Seq<char>>) -> Seq<char>
    decreases path.len(),
{
    if path.len() == 0 {
        Seq::empty()
    } else {
        prefix_of(path.drop_last()) + path.last() + seq!['/']
    }
}

/// Where a download of `name` is written.
pub open spec fn download_path(dir: Seq<char>, name: Seq<char>) -> Seq<char> {
    dir + seq!['/'] + name
}

pub open spec fn tag_of(p: Page) -> ViewStateTag {
    match p {
        Page::Initializing(_) => ViewStateTag::Initializing,
        Page::BucketList(_) => ViewStateTag::BucketList,
        Page::ObjectList(_) => ViewStateTag::ObjectList,
        Page::ObjectDetail(d) => if d.spec_view() == 1 {
            ViewStateTag::DetailSave
        } else if d.spec_view() == 2 {
            ViewStateTag::CopyDetail
        } else {
            ViewStateTag::Detail
        },
        Page::ObjectPreview(v) => if v.spec_save_input() is Some {
            ViewStateTag::PreviewSave
        } else {
            ViewStateTag::Preview
        },
        Page::Help(_) => ViewStateTag::Help,
    }
}

/// A fresh listing page over `items`.
pub open spec fn is_object_list_of(p: Page, items: Seq<ObjectItem>) -> bool {
    p matches Page::ObjectList(o) && o.wf() && o.spec_items() == items && o.spec_list() == fresh_list(
        items.len() as usize,
    )
}

/// A fresh detail page over `detail` and `versions`, beside the listing `items`.
pub open spec fn is_detail_page_of(
    p: Page,
    detail: FileDetail,
    versions: Seq<FileVersion>,
    items: Seq<ObjectItem>,
    list: ScrollListState,
) -> bool {
    p matches Page::ObjectDetail(d) && d.wf() && d.spec_detail() == detail && d.spec_versions() == versions
        && d.spec_items() == items && d.spec_list() == list && d.spec_tab()
        == crate::object_detail::DetailTab::Detail && d.spec_view() == 0
}

/// The message shown after a download was written.
pub open spec fn download_done_message(path: Seq<char>) -> Seq<char> {
    "Download completed successfully: "@ + path
}

/// The message shown after a value was copied.
pub open spec fn copied_message(name: Seq<char>) -> Seq<char> {
    "Copied '"@ + name + "' to clipboard successfully"@
}

/// The session: the page stack, what was fetched, and what the user sees.
pub struct App {
    pub app_view_state: AppViewState,
    pub page_stack: PageStack,
    pub app_objects: AppObjects,
    pub download_dir: String,
}

impl App {
    pub open spec fn wf(&self) -> bool {
        &&& self.page_stack.wf()
        &&& self.app_objects.wf()
    }

    pub open spec fn objects(&self) -> AppObjects {
        self.app_objects
    }

    pub open spec fn spec_download_dir(&self) -> Seq<char> {
        self.download_dir@
    }

    pub open spec fn pages(&self) -> Seq<Page> {
        self.page_stack.spec_pages()
    }

    pub open spec fn top(&self) -> Page {
        self.page_stack.spec_top()
    }

    pub open spec fn buckets(&self) -> Seq<BucketItem> {
        self.objects().spec_buckets()
    }

    /// Whether a bucket is selected: the bottom page is a bucket list with its cursor on a bucket.
    pub open spec fn has_bucket(&self) -> bool {
        self.pages()[0] matches Page::BucketList(b) && b.spec_non_empty()
    }

    pub open spec fn spec_bucket(&self) -> Seq<char> {
        match self.pages()[0] {
            Page::BucketList(b) => b.spec_selected_item().name@,
            _ => Seq::empty(),
        }
    }

    pub open spec fn spec_path(&self) -> Seq<Seq<char>> {
        path_of(self.pages())
    }

    /// The key of the listing below the current position.
    pub open spec fn spec_key(&self) -> KeyView {
        (self.spec_bucket(), self.spec_path())
    }

    /// Only the page stack may differ from `self`.
    pub open spec fn same_but_pages(&self, other: &Self) -> bool {
        &&& other.objects() == self.objects()
        &&& other.app_view_state == self.app_view_state
        &&& other.spec_download_dir() == self.spec_download_dir()
    }

    pub fn new(width: usize, height: usize) -> (r: App)
        ensures
            r.wf(),
            r.pages().len() == 1,
            r.pages()[0] is Initializing,
            r.buckets().len() == 0,
            r.objects().children_map().is_empty(),
            r.objects().details_map().is_empty(),
            r.app_view_state.is_loading,
            r.app_view_state.notification is Blank,
            r.app_view_state.spec_size() == (width, height),
            r.spec_download_dir() == Seq::<char>::empty(),
    {
        let r = App {
            app_view_state: AppViewState::new(width, height),
            page_stack: PageStack::new(),
            app_objects: AppObjects::new(),
            download_dir: String::new(),
        };
        assert(r.objects().children_map() =~= Map::empty());
        assert(r.objects().details_map() =~= Map::empty());
        r
    }

    /// Records the directory that downloads are written to.
    pub fn initialize(&mut self, download_dir: String)
        ensures
            final(self).spec_download_dir() == download_dir@,
            final(self).objects() == old(self).objects(),
            final(self).page_stack == old(self).page_stack,
            final(self).app_view_state == old(self).app_view_state,
    {
        self.download_dir = download_dir;
    }

    pub fn resize(&mut self, width: usize, height: usize)
        ensures
            final(self).app_view_state.spec_size() == (width, height),
            final(self).app_view_state.notification == old(self).app_view_state.notification,
            final(self).app_view_state.is_loading == old(self).app_view_state.is_loading,
            final(self).objects() == old(self).objects(),
            final(self).page_stack == old(self).page_stack,
            final(self).spec_download_dir() == old(self).spec_download_dir(),
    {
        self.app_view_state.reset_size(width, height);
    }

    pub fn view_state_tag(&self) -> (r: ViewStateTag)
        requires
            self.wf(),
        ensures
            r == tag_of(self.top()),
    {
        match self.page_stack.current_page() {
            Page::Initializing(_) => ViewStateTag::Initializing,
            Page::BucketList(_) => ViewStateTag::BucketList,
            Page::ObjectList(_) => ViewStateTag::ObjectList,
            Page::ObjectDetail(p) => match p.status() {
                (true, false) => ViewStateTag::DetailSave,
                (false, true) => ViewStateTag::CopyDetail,
                _ => ViewStateTag::Detail,
            },
            Page::ObjectPreview(p) => match p.status() {
                true => ViewStateTag::PreviewSave,
                _ => ViewStateTag::Preview,
            },
            Page::Help(_) => ViewStateTag::Help,
        }
    }

    /// The name of the selected bucket.
    pub fn current_bucket(&self) -> (r: String)
        requires
            self.wf(),
            self.has_bucket(),
        ensures
            r@ == self.spec_bucket(),
    {
        match self.page_stack.head() {
            Page::BucketList(b) => b.current_selected_item().name.clone(),
            _ => String::new(),
        }
    }

    /// The selected directory of each listing page, from bottom to top.
    pub fn current_path(&self) -> (r: Vec<String>)
        requires
            self.wf(),
        ensures
            texts(r@) == self.spec_path(),
    {
        let pages = self.page_stack.pages();
        let mut r: Vec<String> = Vec::new();
        let mut i: usize = 0;
        while i < pages.len()
            invariant
                pages@ == self.pages(),
                self.page_stack.wf(),
                i <= pages@.len(),
                texts(r@) == path_of(pages@.subrange(0, i as int)),
            decreases pages@.len() - i,
        {
            let ghost before = r@;
            assert(pages@.subrange(0, i + 1).drop_last() =~= pages@.subrange(0, i as int));
            assert(pages@[i as int].wf());
            if let Page::ObjectList(p) = &pages[i] {
                if let Some(ObjectItem::Dir { name }) = p.current_selected_item() {
                    r.push(name.clone());
                }
            }
            assert(texts(r@) =~= path_of(pages@.subrange(0, i + 1)));
            i = i + 1;
        }
        assert(pages@.subrange(0, i as int) =~= pages@);
        r
    }

    /// The current path written as a prefix: each segment followed by a slash.
    pub fn current_object_prefix(&self) -> (r: String)
        requires
            self.wf(),
        ensures
            r@ == prefix_of(self.spec_path()),
    {
        object_prefix(&self.current_path())
    }

    /// The key of the listing below the current position.
    pub fn current_object_key(&self) -> (r: ObjectKey)
        requires
            self.wf(),
            self.has_bucket(),
        ensures
            r@ == self.spec_key(),
    {
        let object_path = self.current_path();
        ObjectKey { bucket_name: self.current_bucket(), object_path }
    }

    /// The key of the object `name` at the current position.
    pub fn current_object_key_with_name(&self, name: String) -> (r: ObjectKey)
        requires
            self.wf(),
            self.has_bucket(),
        ensures
            r@ == (self.spec_bucket(), self.spec_path().push(name@)),
    {
        let mut object_path = self.current_path();
        let ghost before = object_path@;
        object_path.push(name);
        assert(segments_view(object_path@) =~= segments_view(before).push(name@));
        ObjectKey { bucket_name: self.current_bucket(), object_path }
    }

    pub fn bucket_items(&self) -> (r: Vec<BucketItem>)
        ensures
            r@ == self.buckets(),
    {
        self.app_objects.get_bucket_items()
    }

    /// The stored listing below the current position; empty when none is stored.
    pub fn current_object_items(&self) -> (r: Vec<ObjectItem>)
        requires
            self.wf(),
            self.has_bucket(),
        ensures
            r@ == if self.objects().children_map().contains_key(self.spec_key()) {
                self.objects().children_map()[self.spec_key()]
            } else {
                Seq::empty()
            },
    {
        self.app_objects.get_object_items(&self.current_object_key())
    }

    fn exists_current_object_detail(&self, object_name: &String) -> (r: bool)
        requires
            self.wf(),
            self.has_bucket(),
        ensures
            r == self.objects().details_map().contains_key(
                (self.spec_bucket(), self.spec_path().push(object_name@)),
            ),
    {
        let key = self.current_object_key_with_name(object_name.clone());
        self.app_objects.exists_object_details(&key)
    }

    fn exists_current_objects(&self) -> (r: bool)
        requires
            self.wf(),
            self.has_bucket(),
        ensures
            r == self.objects().children_map().contains_key(self.spec_key()),
    {
        self.app_objects.exists_object_item(&self.current_object_key())
    }
}

/// The outcome of a descent into the listing below the current position: the stored listing is
/// pushed at once, or, when none is stored, the listing is asked for and the session is loading.
pub open spec fn descended(old: App, new: App, r: Option<AppEventType>) -> bool {
    &&& new.objects() == old.objects()
    &&& new.spec_download_dir() == old.spec_download_dir()
    &&& if old.objects().children_map().contains_key(old.spec_key()) {
        &&& r is None
        &&& new.pages().len() == old.pages().len() + 1
        &&& new.pages().drop_last() == old.pages()
        &&& is_object_list_of(new.top(), old.objects().children_map()[old.spec_key()])
        &&& new.app_view_state == old.app_view_state
    } else {
        &&& r == Some(AppEventType::LoadObjects)
        &&& new.pages() == old.pages()
        &&& new.app_view_state.is_loading
        &&& new.app_view_state.notification == old.app_view_state.notification
    }
}

/// The stack after a guarded pop: the top page goes, unless it is the only one.
pub open spec fn popped(pages: Seq<Page>) -> Seq<Page> {
    if pages.len() > 1 {
        pages.drop_last()
    } else {
        pages
    }
}

/// The effect of the help key: nothing while initializing, closing the help page when it is
/// shown, else opening it over the page shown with that page's help lines.
pub open spec fn toggled_help(old: App, new: App) -> bool {
    &&& new.same_but_pages(&old)
    &&& match old.top() {
        Page::Initializing(_) => new.pages() == old.pages(),
        Page::Help(_) => new.pages() == old.pages().drop_last(),
        _ => {
            &&& new.pages().len() == old.pages().len() + 1
            &&& new.pages().drop_last() == old.pages()
            &&& new.top() matches Page::Help(h) && h.spec_helps() == page_helps(old.top())
        },
    }
}

/// A failed command: the error is shown and must be logged; nothing else changes but loading.
pub open spec fn failed(old: App, new: App, e: AppError, r: Option<AppEventType>) -> bool {
    &&& r == Some(AppEventType::LogError(e))
    &&& new.pages() == old.pages()
    &&& new.objects() == old.objects()
    &&& new.spec_download_dir() == old.spec_download_dir()
    &&& !new.app_view_state.is_loading
    &&& new.app_view_state.notification == Notification::Error(e.msg)
}

impl App {
    /// Descends from the bucket list into the selected bucket.
    pub fn bucket_list_move_down(&mut self) -> (r: Option<AppEventType>)
        requires
            old(self).wf(),
            old(self).has_bucket(),
        ensures
            final(self).wf(),
            descended(*old(self), *final(self), r),
    {
        if self.exists_current_objects() {
            let items = self.current_object_items();
            let page = Page::ObjectList(ObjectListPage::new(items));
            self.page_stack.push(page);
            assert(self.pages().drop_last() =~= old(self).pages());
            None
        } else {
            self.app_view_state.is_loading = true;
            Some(AppEventType::LoadObjects)
        }
    }

    /// Opens the entry under the cursor of the listing shown: a directory is descended into,
    /// a file opens its detail page; either is fetched first when it is not stored.
    pub fn object_list_move_down(&mut self) -> (r: Option<AppEventType>)
        requires
            old(self).wf(),
            old(self).has_bucket(),
            old(self).top() is ObjectList,
        ensures
            final(self).wf(),
            old(self).top() matches Page::ObjectList(o) && match o.spec_selected() {
                None => r is None && *final(self) == *old(self),
                Some(ObjectItem::Dir { .. }) => descended(*old(self), *final(self), r),
                Some(ObjectItem::File { name, .. }) => {
                    let k = (old(self).spec_bucket(), old(self).spec_path().push(name@));
                    &&& final(self).objects() == old(self).objects()
                    &&& final(self).spec_download_dir() == old(self).spec_download_dir()
                    &&& if old(self).objects().details_map().contains_key(k) {
                        &&& r is None
                        &&& final(self).app_view_state == old(self).app_view_state
                        &&& final(self).pages().len() == old(self).pages().len() + 1
                        &&& final(self).pages().drop_last() == old(self).pages()
                        &&& is_detail_page_of(
                            final(self).top(),
                            old(self).objects().details_map()[k].0,
                            old(self).objects().details_map()[k].1,
                            o.spec_items(),
                            o.spec_list(),
                        )
                    } else {
                        &&& r == Some(AppEventType::LoadObject)
                        &&& final(self).pages() == old(self).pages()
                        &&& final(self).app_view_state.is_loading
                        &&& final(self).app_view_state.notification == old(self).app_view_state.notification
                    }
                },
            },
    {
        let (selected, items, list) = match self.page_stack.current_page() {
            Page::ObjectList(o) => {
                let selected = match o.current_selected_item() {
                    Some(item) => Some(item.clone()),
                    None => None,
                };
                let items = o.object_list().clone();
                assert(items@ =~= o.spec_items());
                (selected, items, o.list_state())
            },
            _ => (None, Vec::new(), ScrollListState::new(0)),
        };
        match selected {
            None => None,
            Some(ObjectItem::File { name, .. }) => {
                if self.exists_current_object_detail(&name) {
                    let key = self.current_object_key_with_name(name);
                    let detail = match self.app_objects.get_object_detail(&key) {
                        Some(d) => d.clone(),
                        None => return None,
                    };
                    let versions = match self.app_objects.get_object_versions(&key) {
                        Some(v) => {
                            let c = v.clone();
                            assert(c@ =~= v@);
                            c
                        },
                        None => return None,
                    };
                    let page = Page::ObjectDetail(ObjectDetailPage::new(detail, versions, items, list));
                    self.page_stack.push(page);
                    assert(self.pages().drop_last() =~= old(self).pages());
                    None
                } else {
                    self.app_view_state.is_loading = true;
                    Some(AppEventType::LoadObject)
                }
            },
            Some(ObjectItem::Dir { .. }) => self.bucket_list_move_down(),
        }
    }

    /// Goes up one level; with a single bucket the listing of its root is never left.
    pub fn object_list_move_up(&mut self)
        requires
            old(self).wf(),
        ensures
            final(self).wf(),
            final(self).same_but_pages(old(self)),
            final(self).pages() == if old(self).pages().len() == 2 && old(self).buckets().len() == 1 {
                old(self).pages()
            } else {
                popped(old(self).pages())
            },
    {
        if self.page_stack.len() == 2 && self.app_objects.bucket_count() == 1 {
            return;
        }
        self.page_stack.pop();
    }

    pub fn detail_close(&mut self)
        requires
            old(self).wf(),
        ensures
            final(self).wf(),
            final(self).same_but_pages(old(self)),
            final(self).pages() == popped(old(self).pages()),
    {
        self.page_stack.pop();
    }

    pub fn preview_close(&mut self)
        requires
            old(self).wf(),
        ensures
            final(self).wf(),
            final(self).same_but_pages(old(self)),
            final(self).pages() == popped(old(self).pages()),
    {
        self.page_stack.pop();
    }

    pub fn help_close(&mut self)
        requires
            old(self).wf(),
        ensures
            final(self).wf(),
            toggled_help(*old(self), *final(self)),
    {
        self.toggle_help();
    }

    /// Goes back to the bucket list; with a single bucket nothing happens.
    pub fn object_list_back_to_bucket_list(&mut self)
        requires
            old(self).wf(),
        ensures
            final(self).wf(),
            final(self).same_but_pages(old(self)),
            final(self).pages() == if old(self).buckets().len() == 1 {
                old(self).pages()
            } else {
                old(self).pages().subrange(0, 1)
            },
    {
        if self.app_objects.bucket_count() == 1 {
            return;
        }
        self.page_stack.clear();
    }

    pub fn toggle_help(&mut self)
        requires
            old(self).wf(),
        ensures
            final(self).wf(),
            toggled_help(*old(self), *final(self)),
    {
        match self.view_state_tag() {
            ViewStateTag::Initializing => {},
            ViewStateTag::Help => {
                self.page_stack.pop();
            },
            _ => {
                let helps = self.page_stack.current_page().helps();
                let help_page = Page::Help(HelpPage::new(helps));
                self.page_stack.push(help_page);
                assert(self.pages().drop_last() =~= old(self).pages());
            },
        }
    }
}

impl App {
    /// Applies the fetched bucket list: the bucket list page becomes the only page. With exactly
    /// one bucket, the session descends into it at once, so that its root listing is what the
    /// user first sees, and stays loading until that listing arrives.
    pub fn complete_initialize(&mut self, result: Result<CompleteInitializeResult, AppError>) -> (r: Option<
        AppEventType,
    >)
        requires
            old(self).wf(),
        ensures
            final(self).wf(),
            match result {
                Ok(res) => {
                    &&& final(self).buckets() == res.buckets@
                    &&& final(self).objects().children_map() == old(self).objects().children_map()
                    &&& final(self).objects().details_map() == old(self).objects().details_map()
                    &&& final(self).pages()[0] matches Page::BucketList(b) && b.spec_items() == res.buckets@
                        && b.spec_filter().len() == 0 && !b.spec_dialog()
                    &&& if res.buckets@.len() == 1 {
                        &&& final(self).pages().len() >= 1
                        &&& final(self).top() !is BucketList || (r == Some(AppEventType::LoadObjects)
                            && final(self).app_view_state.is_loading)
                        &&& (!old(self).objects().children_map().contains_key(
                            (res.buckets@[0].name@, Seq::empty()),
                        ) ==> r == Some(AppEventType::LoadObjects) && final(self).app_view_state.is_loading
                            && final(self).pages().len() == 1)
                        &&& (old(self).objects().children_map().contains_key(
                            (res.buckets@[0].name@, Seq::empty()),
                        ) ==> r is None && final(self).pages().len() == 2 && is_object_list_of(
                            final(self).top(),
                            old(self).objects().children_map()[(res.buckets@[0].name@, Seq::empty())],
                        ))
                    } else {
                        &&& r is None
                        &&& !final(self).app_view_state.is_loading
                        &&& final(self).pages().len() == 1
                    }
                },
                Err(e) => failed(*old(self), *final(self), e, r),
            },
    {
        match result {
            Ok(CompleteInitializeResult { buckets }) => {
                let page_items = buckets.clone();
                assert(page_items@ =~= buckets@);
                self.app_objects.set_bucket_items(buckets);
                let bucket_list_page = Page::BucketList(BucketListPage::new(page_items));
                self.page_stack.clear();
                self.page_stack.replace_top(bucket_list_page);
                assert(self.pages().len() == 1);
                if self.app_objects.bucket_count() == 1 {
                    proof {
                        let b = self.pages()[0];
                        assert(self.pages().drop_last() =~= Seq::<Page>::empty());
                        assert(self.pages().last() is BucketList);
                        assert(path_of(Seq::<Page>::empty()) == Seq::<Seq<char>>::empty());
                        assert(selected_dir(self.pages().last()) is None);
                        assert(self.spec_path() == Seq::<Seq<char>>::empty());
                        if let Page::BucketList(bl) = b {
                            assert(bl.spec_filtered()[0] == 0);
                        }
                    }
                    self.bucket_list_move_down()
                } else {
                    self.app_view_state.is_loading = false;
                    None
                }
            },
            Err(e) => {
                let logged = e.clone();
                self.error_notification(e);
                self.app_view_state.is_loading = false;
                Some(AppEventType::LogError(logged))
            },
        }
    }

    /// What to list for the position below the current one.
    pub fn load_objects(&self) -> (r: ObjectsRequest)
        requires
            self.wf(),
            self.has_bucket(),
        ensures
            r.bucket@ == self.spec_bucket(),
            r.prefix@ == prefix_of(self.spec_path()),
            r.key@ == self.spec_key(),
    {
        ObjectsRequest {
            bucket: self.current_bucket(),
            prefix: self.current_object_prefix(),
            key: self.current_object_key(),
        }
    }

    /// Applies a fetched listing: it is stored under the key it was asked for and shown.
    pub fn complete_load_objects(&mut self, result: Result<CompleteLoadObjectsResult, AppError>) -> (r: Option<
        AppEventType,
    >)
        requires
            old(self).wf(),
        ensures
            final(self).wf(),
            match result {
                Ok(res) => {
                    &&& r is None
                    &&& final(self).objects().children_map() == old(self).objects().children_map().insert(
                        res.key@,
                        res.items@,
                    )
                    &&& final(self).objects().details_map() == old(self).objects().details_map()
                    &&& final(self).buckets() == old(self).buckets()
                    &&& final(self).pages().len() == old(self).pages().len() + 1
                    &&& final(self).pages().drop_last() == old(self).pages()
                    &&& is_object_list_of(final(self).top(), res.items@)
                    &&& !final(self).app_view_state.is_loading
                    &&& final(self).app_view_state.notification == old(self).app_view_state.notification
                },
                Err(e) => failed(*old(self), *final(self), e, r),
            },
    {
        match result {
            Ok(CompleteLoadObjectsResult { items, key }) => {
                let page_items = items.clone();
                assert(page_items@ =~= items@);
                self.app_objects.set_object_items(key, items);
                let object_list_page = Page::ObjectList(ObjectListPage::new(page_items));
                self.page_stack.push(object_list_page);
                assert(self.pages().drop_last() =~= old(self).pages());
                self.app_view_state.is_loading = false;
                None
            },
            Err(e) => {
                let logged = e.clone();
                self.error_notification(e);
                self.app_view_state.is_loading = false;
                Some(AppEventType::LogError(logged))
            },
        }
    }

    /// What to fetch for the file under the cursor of the listing shown; none for a directory.
    pub fn load_object(&self) -> (r: Option<ObjectRequest>)
        requires
            self.wf(),
            self.has_bucket(),
        ensures
            match self.top() {
                Page::ObjectList(o) => match o.spec_selected() {
                    Some(ObjectItem::File { name, size_byte, .. }) => r matches Some(q) && q.bucket@
                        == self.spec_bucket() && q.key@ == prefix_of(self.spec_path()) + name@ && q.name@
                        == name@ && q.size_byte == size_byte && q.map_key@ == (
                        self.spec_bucket(),
                        self.spec_path().push(name@),
                    ),
                    _ => r is None,
                },
                _ => r is None,
            },
    {
        let selected = match self.page_stack.current_page() {
            Page::ObjectList(o) => match o.current_selected_item() {
                Some(ObjectItem::File { name, size_byte, .. }) => Some((name.clone(), *size_byte)),
                _ => None,
            },
            _ => None,
        };
        match selected {
            Some((name, size_byte)) => {
                let bucket = self.current_bucket();
                let mut key = self.current_object_prefix();
                key.append(name.as_str());
                let map_key = self.current_object_key_with_name(name.clone());
                Some(ObjectRequest { bucket, key, name, size_byte, map_key })
            },
            None => None,
        }
    }

    /// Applies fetched details: they are stored under the key they were asked for, and the
    /// detail page is shown beside the listing shown, if any.
    pub fn complete_load_object(&mut self, result: Result<CompleteLoadObjectResult, AppError>) -> (r: Option<
        AppEventType,
    >)
        requires
            old(self).wf(),
        ensures
            final(self).wf(),
            match result {
                Ok(res) => {
                    &&& r is None
                    &&& final(self).objects().details_map() == old(self).objects().details_map().insert(
                        res.map_key@,
                        (res.detail, res.versions@),
                    )
                    &&& final(self).objects().children_map() == old(self).objects().children_map()
                    &&& final(self).buckets() == old(self).buckets()
                    &&& final(self).pages().len() == old(self).pages().len() + 1
                    &&& final(self).pages().drop_last() == old(self).pages()
                    &&& match old(self).top() {
                        Page::ObjectList(o) => is_detail_page_of(
                            final(self).top(),
                            res.detail,
                            res.versions@,
                            o.spec_items(),
                            o.spec_list(),
                        ),
                        _ => is_detail_page_of(
                            final(self).top(),
                            res.detail,
                            res.versions@,
                            Seq::empty(),
                            fresh_list(0),
                        ),
                    }
                    &&& !final(self).app_view_state.is_loading
                    &&& final(self).app_view_state.notification == old(self).app_view_state.notification
                },
                Err(e) => failed(*old(self), *final(self), e, r),
            },
    {
        match result {
            Ok(CompleteLoadObjectResult { detail, versions, map_key }) => {
                let page_detail = detail.clone();
                let page_versions = versions.clone();
                assert(page_versions@ =~= versions@);
                self.app_objects.set_object_details(map_key, detail, versions);
                let (items, list) = match self.page_stack.current_page() {
                    Page::ObjectList(o) => {
                        let items = o.object_list().clone();
                        assert(items@ =~= o.spec_items());
                        (items, o.list_state())
                    },
                    _ => (Vec::new(), ScrollListState::new(0)),
                };
                let page = Page::ObjectDetail(ObjectDetailPage::new(page_detail, page_versions, items, list));
                self.page_stack.push(page);
                assert(self.pages().drop_last() =~= old(self).pages());
                self.app_view_state.is_loading = false;
                None
            },
            Err(e) => {
                let logged = e.clone();
                self.error_notification(e);
                self.app_view_state.is_loading = false;
                Some(AppEventType::LogError(logged))
            },
        }
    }

    pub fn clear_notification(&mut self)
        ensures
            final(self).app_view_state.notification == Notification::Blank,
            final(self).app_view_state.is_loading == old(self).app_view_state.is_loading,
            final(self).app_view_state.spec_size() == old(self).app_view_state.spec_size(),
            final(self).page_stack == old(self).page_stack,
            final(self).objects() == old(self).objects(),
            final(self).spec_download_dir() == old(self).spec_download_dir(),
    {
        self.app_view_state.notification = Notification::Blank;
    }

    pub fn info_notification(&mut self, msg: String)
        ensures
            final(self).app_view_state.notification == Notification::Info(msg),
            final(self).app_view_state.is_loading == old(self).app_view_state.is_loading,
            final(self).app_view_state.spec_size() == old(self).app_view_state.spec_size(),
            final(self).page_stack == old(self).page_stack,
            final(self).objects() == old(self).objects(),
            final(self).spec_download_dir() == old(self).spec_download_dir(),
    {
        self.app_view_state.notification = Notification::Info(msg);
    }

    pub fn success_notification(&mut self, msg: String)
        ensures
            final(self).app_view_state.notification == Notification::Success(msg),
            final(self).app_view_state.is_loading == old(self).app_view_state.is_loading,
            final(self).app_view_state.spec_size() == old(self).app_view_state.spec_size(),
            final(self).page_stack == old(self).page_stack,
            final(self).objects() == old(self).objects(),
            final(self).spec_download_dir() == old(self).spec_download_dir(),
    {
        self.app_view_state.notification = Notification::Success(msg);
    }

    /// Shows an error; the caller appends it to the error log.
    pub fn error_notification(&mut self, e: AppError)
        ensures
            final(self).app_view_state.notification == Notification::Error(e.msg),
            final(self).app_view_state.is_loading == old(self).app_view_state.is_loading,
            final(self).app_view_state.spec_size() == old(self).app_view_state.spec_size(),
            final(self).page_stack == old(self).page_stack,
            final(self).objects() == old(self).objects(),
            final(self).spec_download_dir() == old(self).spec_download_dir(),
    {
        self.app_view_state.notification = Notification::Error(e.msg);
    }
}

impl App {
    /// Asks for a download of the object shown on the detail page.
    pub fn detail_download_object(&mut self) -> (r: Option<AppEventType>)
        requires
            old(self).wf(),
            old(self).top() is ObjectDetail,
        ensures
            final(self).wf(),
            old(self).top() matches Page::ObjectDetail(d) && r == Some(
                AppEventType::DownloadObject(d.spec_detail()),
            ),
            final(self).pages() == old(self).pages(),
            final(self).objects() == old(self).objects(),
            final(self).app_view_state.is_loading,
            final(self).app_view_state.notification == old(self).app_view_state.notification,
    {
        let file_detail = match self.page_stack.current_page() {
            Page::ObjectDetail(d) => d.file_detail().clone(),
            _ => return None,
        };
        self.app_view_state.is_loading = true;
        Some(AppEventType::DownloadObject(file_detail))
    }

    /// Asks for a preview of the object shown on the detail page.
    pub fn detail_preview(&mut self) -> (r: Option<AppEventType>)
        requires
            old(self).wf(),
            old(self).top() is ObjectDetail,
        ensures
            final(self).wf(),
            old(self).top() matches Page::ObjectDetail(d) && r == Some(
                AppEventType::PreviewObject(d.spec_detail()),
            ),
            final(self).pages() == old(self).pages(),
            final(self).objects() == old(self).objects(),
            final(self).app_view_state.is_loading,
            final(self).app_view_state.notification == old(self).app_view_state.notification,
    {
        let file_detail = match self.page_stack.current_page() {
            Page::ObjectDetail(d) => d.file_detail().clone(),
            _ => return None,
        };
        self.app_view_state.is_loading = true;
        Some(AppEventType::PreviewObject(file_detail))
    }

    /// The previewed object and its destination: it is already downloaded and only needs writing.
    pub fn preview_download_object(&self) -> (r: Option<DownloadedObject>)
        requires
            self.wf(),
        ensures
            match self.top() {
                Page::ObjectPreview(v) => r matches Some(o) && o.obj.bytes@ == v.spec_bytes() && o.path@
                    == v.spec_path(),
                _ => r is None,
            },
    {
        match self.page_stack.current_page() {
            Page::ObjectPreview(v) => {
                let bytes = v.object().bytes.clone();
                assert(bytes@ =~= v.spec_bytes());
                Some(DownloadedObject { obj: Object { bytes }, path: v.path().clone() })
            },
            _ => None,
        }
    }

    /// The file that downloads of `name` are written to.
    pub fn download_file_path(&self, name: &String) -> (r: String)
        ensures
            r@ == download_path(self.spec_download_dir(), name@),
    {
        let mut path = self.download_dir.clone();
        path.append("/");
        path.append(name.as_str());
        proof {
            reveal_strlit("/");
        }
        assert(path@ =~= download_path(self.spec_download_dir(), name@));
        path
    }

    fn download_object_and(&self, object_name: &String, size_byte: usize, save_file_name: Option<&String>) -> (r:
        DownloadRequest)
        requires
            self.wf(),
            self.has_bucket(),
        ensures
            r.bucket@ == self.spec_bucket(),
            r.key@ == prefix_of(self.spec_path()) + object_name@,
            r.size_byte == size_byte,
            r.path@ == download_path(
                self.spec_download_dir(),
                match save_file_name {
                    Some(n) => n@,
                    None => object_name@,
                },
            ),
            r.progress.wf(),
            r.progress.spec_total() == size_byte,
    {
        let bucket = self.current_bucket();
        let mut key = self.current_object_prefix();
        key.append(object_name.as_str());
        let path = match save_file_name {
            Some(n) => self.download_file_path(n),
            None => self.download_file_path(object_name),
        };
        let progress = handle_loading_size(size_byte);
        DownloadRequest { bucket, key, size_byte, path, progress }
    }

    /// What to fetch to download `file_detail` under its own name.
    pub fn download_object(&self, file_detail: FileDetail) -> (r: DownloadRequest)
        requires
            self.wf(),
            self.has_bucket(),
        ensures
            r.bucket@ == self.spec_bucket(),
            r.key@ == prefix_of(self.spec_path()) + file_detail.name@,
            r.size_byte == file_detail.size_byte,
            r.path@ == download_path(self.spec_download_dir(), file_detail.name@),
            r.progress.wf(),
            r.progress.spec_total() == file_detail.size_byte,
    {
        self.download_object_and(&file_detail.name, file_detail.size_byte, None)
    }

    /// What to fetch to download `file_detail` under the name `input`.
    pub fn download_object_as(&self, file_detail: FileDetail, input: String) -> (r: DownloadRequest)
        requires
            self.wf(),
            self.has_bucket(),
        ensures
            r.bucket@ == self.spec_bucket(),
            r.key@ == prefix_of(self.spec_path()) + file_detail.name@,
            r.size_byte == file_detail.size_byte,
            r.path@ == download_path(self.spec_download_dir(), input@),
            r.progress.wf(),
            r.progress.spec_total() == file_detail.size_byte,
    {
        self.download_object_and(&file_detail.name, file_detail.size_byte, Some(&input))
    }

    /// What to fetch to preview `file_detail`.
    pub fn preview_object(&self, file_detail: FileDetail) -> (r: DownloadRequest)
        requires
            self.wf(),
            self.has_bucket(),
        ensures
            r.bucket@ == self.spec_bucket(),
            r.key@ == prefix_of(self.spec_path()) + file_detail.name@,
            r.size_byte == file_detail.size_byte,
            r.path@ == download_path(self.spec_download_dir(), file_detail.name@),
            r.progress.wf(),
            r.progress.spec_total() == file_detail.size_byte,
    {
        self.download_object_and(&file_detail.name, file_detail.size_byte, None)
    }

    /// Applies the end of a download: the path written to, or the error on the way.
    pub fn complete_download_object(&mut self, result: Result<String, AppError>) -> (r: Option<AppEventType>)
        requires
            old(self).wf(),
        ensures
            final(self).wf(),
            match result {
                Ok(path) => {
                    &&& r is None
                    &&& final(self).pages() == old(self).pages()
                    &&& final(self).objects() == old(self).objects()
                    &&& !final(self).app_view_state.is_loading
                    &&& final(self).app_view_state.notification matches Notification::Success(m) && m@
                        == download_done_message(path@)
                },
                Err(e) => failed(*old(self), *final(self), e, r),
            },
    {
        let r = match result {
            Ok(path) => {
                let mut msg = String::from_str("Download completed successfully: ");
                msg.append(path.as_str());
                self.success_notification(msg);
                None
            },
            Err(e) => {
                let logged = e.clone();
                self.error_notification(e);
                Some(AppEventType::LogError(logged))
            },
        };
        self.app_view_state.is_loading = false;
        r
    }

    /// Applies the end of a download for preview: the preview page is shown.
    pub fn complete_preview_object(&mut self, result: Result<CompletePreviewObjectResult, AppError>) -> (r:
        Option<AppEventType>)
        requires
            old(self).wf(),
        ensures
            final(self).wf(),
            match result {
                Ok(res) => {
                    &&& r is None
                    &&& final(self).objects() == old(self).objects()
                    &&& final(self).pages().len() == old(self).pages().len() + 1
                    &&& final(self).pages().drop_last() == old(self).pages()
                    &&& final(self).top() matches Page::ObjectPreview(v) && v.spec_detail() == res.file_detail
                        && v.spec_bytes() == res.obj.bytes@ && v.spec_path() == res.path@
                        && v.spec_save_input() is None && v.spec_offset() == 0
                    &&& !final(self).app_view_state.is_loading
                    &&& final(self).app_view_state.notification == Notification::Blank
                },
                Err(e) => failed(*old(self), *final(self), e, r),
            },
    {
        let r = match result {
            Ok(CompletePreviewObjectResult { obj, file_detail, path }) => {
                let page = Page::ObjectPreview(ObjectPreviewPage::new(file_detail, obj, path));
                self.page_stack.push(page);
                assert(self.pages().drop_last() =~= old(self).pages());
                self.clear_notification();
                None
            },
            Err(e) => {
                let logged = e.clone();
                self.error_notification(e);
                Some(AppEventType::LogError(logged))
            },
        };
        self.app_view_state.is_loading = false;
        r
    }

    /// Applies the outcome of opening the bucket list's console page in a browser.
    pub fn bucket_list_open_management_console(&mut self, result: Result<(), AppError>) -> (r: Option<
        AppEventType,
    >)
        requires
            old(self).wf(),
        ensures
            final(self).wf(),
            final(self).pages() == old(self).pages(),
            final(self).objects() == old(self).objects(),
            final(self).app_view_state.is_loading == old(self).app_view_state.is_loading,
            match result {
                Ok(_) => r is None && final(self).app_view_state.notification == old(self).app_view_state.notification,
                Err(e) => r == Some(AppEventType::LogError(e)) && final(self).app_view_state.notification
                    == Notification::Error(e.msg),
            },
    {
        match result {
            Ok(_) => None,
            Err(e) => {
                let logged = e.clone();
                self.error_notification(e);
                Some(AppEventType::LogError(logged))
            },
        }
    }

    /// The bucket and prefix whose console page to open.
    pub fn object_list_open_management_console(&self) -> (r: (String, String))
        requires
            self.wf(),
            self.has_bucket(),
        ensures
            r.0@ == self.spec_bucket(),
            r.1@ == prefix_of(self.spec_path()),
    {
        (self.current_bucket(), self.current_object_prefix())
    }

    /// The bucket, prefix and object name whose console page to open.
    pub fn detail_open_management_console(&self) -> (r: Option<(String, String, String)>)
        requires
            self.wf(),
            self.has_bucket(),
        ensures
            match self.top() {
                Page::ObjectDetail(d) => r matches Some((b, p, n)) && b@ == self.spec_bucket() && p@ == prefix_of(
                    self.spec_path(),
                ) && n == d.spec_detail().name,
                _ => r is None,
            },
    {
        match self.page_stack.current_page() {
            Page::ObjectDetail(d) => Some(
                (self.current_bucket(), self.current_object_prefix(), d.file_detail().name.clone()),
            ),
            _ => None,
        }
    }

    /// Confirms the save dialog of the detail page: a name that is not blank, once trimmed,
    /// asks for a download under that name. The dialog closes either way.
    pub fn detail_save_download_object_as(&mut self) -> (r: Option<AppEventType>)
        requires
            old(self).wf(),
        ensures
            final(self).wf(),
            final(self).objects() == old(self).objects(),
            final(self).app_view_state.notification == old(self).app_view_state.notification,
            final(self).pages().len() == old(self).pages().len(),
            final(self).pages().drop_last() == old(self).pages().drop_last(),
            match old(self).top() {
                Page::ObjectDetail(d) if d.spec_view() == 1 => {
                    &&& final(self).top() matches Page::ObjectDetail(e) && e.spec_view() == 0 && d.same_but_view(&e)
                    &&& if trim_spec(d.spec_save_input()).len() > 0 {
                        &&& r matches Some(AppEventType::DownloadObjectAs(f, n)) && f == d.spec_detail() && n@
                            == trim_spec(d.spec_save_input())
                        &&& final(self).app_view_state.is_loading
                    } else {
                        &&& r is None
                        &&& final(self).app_view_state.is_loading == old(self).app_view_state.is_loading
                    }
                },
                _ => r is None && *final(self) == *old(self),
            },
    {
        let (file_detail, input) = match self.page_stack.current_page() {
            Page::ObjectDetail(d) => match d.save_dialog_key_input() {
                Some(input) => (d.file_detail().clone(), trim(input.as_str())),
                None => return None,
            },
            _ => return None,
        };
        let r = if input.as_str().unicode_len() > 0 {
            self.app_view_state.is_loading = true;
            Some(AppEventType::DownloadObjectAs(file_detail, input))
        } else {
            None
        };
        self.page_stack.close_save_dialog();
        r
    }

    /// Confirms the save dialog of the preview page, as on the detail page.
    pub fn preview_save_download_object_as(&mut self) -> (r: Option<AppEventType>)
        requires
            old(self).wf(),
        ensures
            final(self).wf(),
            final(self).objects() == old(self).objects(),
            final(self).app_view_state.notification == old(self).app_view_state.notification,
            final(self).pages().len() == old(self).pages().len(),
            final(self).pages().drop_last() == old(self).pages().drop_last(),
            match old(self).top() {
                Page::ObjectPreview(v) if v.spec_save_input() is Some => {
                    let input = v.spec_save_input()->0;
                    &&& final(self).top() matches Page::ObjectPreview(w) && w.spec_save_input() is None
                        && w.spec_detail() == v.spec_detail() && w.spec_bytes() == v.spec_bytes() && w.spec_path()
                        == v.spec_path()
                    &&& if trim_spec(input).len() > 0 {
                        &&& r matches Some(AppEventType::DownloadObjectAs(f, n)) && f == v.spec_detail() && n@
                            == trim_spec(input)
                        &&& final(self).app_view_state.is_loading
                    } else {
                        &&& r is None
                        &&& final(self).app_view_state.is_loading == old(self).app_view_state.is_loading
                    }
                },
                _ => r is None && *final(self) == *old(self),
            },
    {
        let (file_detail, input) = match self.page_stack.current_page() {
            Page::ObjectPreview(v) => match v.save_dialog_key_input() {
                Some(input) => (v.file_detail().clone(), trim(input.as_str())),
                None => return None,
            },
            _ => return None,
        };
        let r = if input.as_str().unicode_len() > 0 {
            self.app_view_state.is_loading = true;
            Some(AppEventType::DownloadObjectAs(file_detail, input))
        } else {
            None
        };
        self.page_stack.close_save_dialog();
        r
    }

    /// The label and value under the cursor of the copy dialog, to put on the clipboard.
    pub fn copy_detail_copy_selected_value(&self) -> (r: Option<AppEventType>)
        requires
            self.wf(),
        ensures
            match self.top() {
                Page::ObjectDetail(d) if d.spec_view() == 2 => r matches Some(
                    AppEventType::CopyToClipboard(n, v),
                ) && n@ == crate::object_detail::copy_item_name(d.spec_copy_selected()) && v
                    == crate::object_detail::copy_item_value(d.spec_detail(), d.spec_copy_selected()),
                _ => r is None,
            },
    {
        match self.page_stack.current_page() {
            Page::ObjectDetail(d) => match d.copy_detail_dialog_selected() {
                Some((name, value)) => Some(AppEventType::CopyToClipboard(name, value)),
                None => None,
            },
            _ => None,
        }
    }

    /// Applies the outcome of copying the value labelled `name` to the clipboard.
    pub fn copy_to_clipboard(&mut self, name: String, result: Result<(), AppError>) -> (r: Option<AppEventType>)
        requires
            old(self).wf(),
        ensures
            final(self).wf(),
            final(self).pages() == old(self).pages(),
            final(self).objects() == old(self).objects(),
            final(self).app_view_state.is_loading == old(self).app_view_state.is_loading,
            match result {
                Ok(_) => r is None && (final(self).app_view_state.notification matches Notification::Success(m)
                    && m@ == copied_message(name@)),
                Err(e) => r == Some(AppEventType::LogError(e)) && final(self).app_view_state.notification
                    == Notification::Error(e.msg),
            },
    {
        match result {
            Ok(_) => {
                let mut msg = String::from_str("Copied '");
                msg.append(name.as_str());
                msg.append("' to clipboard successfully");
                assert(msg@ =~= copied_message(name@));
                self.success_notification(msg);
                None
            },
            Err(e) => {
                let logged = e.clone();
                self.error_notification(e);
                Some(AppEventType::LogError(logged))
            },
        }
    }
}

impl App {
    // Cursor, scroll, tab and dialog keys are handled by the page shown, which owns that
    // state (see `PageStack::handle_key`); these session-level commands leave the session as it is.

    pub fn bucket_list_select_next(&mut self)
        ensures
            *final(self) == *old(self),
    {
    }

    pub fn object_list_select_next(&mut self)
        ensures
            *final(self) == *old(self),
    {
    }

    pub fn copy_detail_select_next(&mut self)
        ensures
            *final(self) == *old(self),
    {
    }

    pub fn bucket_list_select_prev(&mut self)
        ensures
            *final(self) == *old(self),
    {
    }

    pub fn object_list_select_prev(&mut self)
        ensures
            *final(self) == *old(self),
    {
    }

    pub fn copy_detail_select_prev(&mut self)
        ensures
            *final(self) == *old(self),
    {
    }

    pub fn bucket_list_select_next_page(&mut self)
        ensures
            *final(self) == *old(self),
    {
    }

    pub fn object_list_select_next_page(&mut self)
        ensures
            *final(self) == *old(self),
    {
    }

    pub fn bucket_list_select_prev_page(&mut self)
        ensures
            *final(self) == *old(self),
    {
    }

    pub fn object_list_select_prev_page(&mut self)
        ensures
            *final(self) == *old(self),
    {
    }

    pub fn bucket_list_select_first(&mut self)
        ensures
            *final(self) == *old(self),
    {
    }

    pub fn object_list_select_first(&mut self)
        ensures
            *final(self) == *old(self),
    {
    }

    pub fn bucket_list_select_last(&mut self)
        ensures
            *final(self) == *old(self),
    {
    }

    pub fn object_list_select_last(&mut self)
        ensures
            *final(self) == *old(self),
    {
    }

    pub fn copy_detail_close(&mut self)
        ensures
            *final(self) == *old(self),
    {
    }

    pub fn preview_scroll_forward(&mut self)
        ensures
            *final(self) == *old(self),
    {
    }

    pub fn preview_scroll_backward(&mut self)
        ensures
            *final(self) == *old(self),
    {
    }

    pub fn preview_scroll_to_top(&mut self)
        ensures
            *final(self) == *old(self),
    {
    }

    pub fn preview_scroll_to_end(&mut self)
        ensures
            *final(self) == *old(self),
    {
    }

    pub fn detail_select_tabs(&mut self)
        ensures
            *final(self) == *old(self),
    {
    }

    pub fn detail_open_download_object_as(&mut self)
        ensures
            *final(self) == *old(self),
    {
    }

    pub fn preview_open_download_object_as(&mut self)
        ensures
            *final(self) == *old(self),
    {
    }

    pub fn detail_open_copy_details(&mut self)
        ensures
            *final(self) == *old(self),
    {
    }

}

/// Writes a path as a prefix: each segment followed by a slash.
pub fn object_prefix(path: &Vec<String>) -> (r: String)
    ensures
        r@ == prefix_of(texts(path@)),
{
    let mut prefix = String::new();
    let mut i: usize = 0;
    while i < path.len()
        invariant
            i <= path@.len(),
            prefix@ == prefix_of(texts(path@.subrange(0, i as int))),
        decreases path@.len() - i,
    {
        prefix.append(path[i].as_str());
        prefix.append("/");
        proof {
            reveal_strlit("/");
            let s = texts(path@.subrange(0, i + 1));
            assert(s.drop_last() =~= texts(path@.subrange(0, i as int)));
            assert(prefix@ =~= prefix_of(s));
        }
        i = i + 1;
    }
    assert(path@.subrange(0, i as int) =~= path@);
    prefix
}

} // verus!
