use vstd::prelude::*;

use crate::bucket_list::{bucket_list_help_table, BucketListPage};
use crate::event::AppEventType;
use crate::help::{build_helps, help_lines, table_view, texts};
use crate::key::Key;
use crate::object_detail::{detail_help_table, ObjectDetailPage};
use crate::object_list::{object_list_help_table, ObjectListPage};
use crate::object_preview::{preview_help_table, ObjectPreviewPage};

verus! {

/// The page shown while the bucket list is being fetched.
pub struct InitializingPage {}

/// The key table of the help page itself.
pub open spec fn help_page_help_table() -> Seq<(Seq<char>, Seq<char>)> {
    seq![("Esc/Ctrl-c"@, "Quit app"@), ("?"@, "Close help"@)]
}

/// The help overlay: the help lines of the page it was opened over.
pub struct HelpPage {
    helps: Vec<String>,
}

impl HelpPage {
    pub closed spec fn spec_helps(&self) -> Seq<Seq<char>> {
        texts(self.helps@)
    }

    pub fn new(helps: Vec<String>) -> (r: Self)
        ensures
            r.spec_helps() == texts(helps@),
    {
        HelpPage { helps }
    }

    /// The lines shown on the help page.
    pub fn help_lines(&self) -> (r: &Vec<String>)
        ensures
            texts(r@) == self.spec_helps(),
    {
        &self.helps
    }

    pub fn helps(&self) -> (r: Vec<String>)
        ensures
            texts(r@) == help_lines(help_page_help_table()),
    {
        let t: Vec<(&str, &str)> = vec![("Esc/Ctrl-c", "Quit app"), ("?", "Close help")];
        let r = build_helps(&t);
        assert(table_view(t@) =~= help_page_help_table());
        r
    }

    /// The event one key press sends from the help page, which it leaves as it is.
    pub open spec fn key_event(key: Key) -> Option<AppEventType> {
        match key {
            Key::Char('q') => Some(AppEventType::Quit),
            Key::Esc | Key::Backspace | Key::Char('?') => Some(AppEventType::CloseCurrentPage),
            _ => None,
        }
    }

    /// Handles one key press; returns the event to send, if any.
    pub fn handle_key(&self, key: Key) -> (r: Option<AppEventType>)
        ensures
            r == Self::key_event(key),
    {
        match key {
            Key::Char('q') => Some(AppEventType::Quit),
            Key::Esc | Key::Backspace | Key::Char('?') => Some(AppEventType::CloseCurrentPage),
            _ => None,
        }
    }
}

/// One frame of the navigation stack.
pub enum Page {
    Initializing(InitializingPage),
    BucketList(BucketListPage),
    ObjectList(ObjectListPage),
    ObjectDetail(ObjectDetailPage),
    ObjectPreview(ObjectPreviewPage),
    Help(HelpPage),
}

/// The help lines of a page, as its own `helps` gives them.
pub open spec fn page_helps(p: Page) -> Seq<Seq<char>> {
    match p {
        Page::Initializing(_) => Seq::empty(),
        Page::BucketList(b) => help_lines(bucket_list_help_table(b.spec_dialog(), b.spec_filter().len() > 0)),
        Page::ObjectList(_) => help_lines(object_list_help_table()),
        Page::ObjectDetail(d) => help_lines(detail_help_table(d.spec_view(), d.spec_tab())),
        Page::ObjectPreview(v) => help_lines(preview_help_table(v.spec_save_input() is Some)),
        Page::Help(_) => help_lines(help_page_help_table()),
    }
}

/// What one key press does to a page, and the event it sends: the page's own key step.
/// The page keeps its kind; the initializing page ignores keys.
pub open spec fn page_key_step(o: Page, n: Page, key: Key, r: Option<AppEventType>) -> bool {
    match (o, n) {
        (Page::Initializing(_), Page::Initializing(_)) => r is None && n == o,
        (Page::BucketList(p), Page::BucketList(q)) => BucketListPage::key_step(&p, &q, key, r),
        (Page::ObjectList(p), Page::ObjectList(q)) => ObjectListPage::key_step(&p, &q, key, r),
        (Page::ObjectDetail(p), Page::ObjectDetail(q)) => ObjectDetailPage::key_step(&p, &q, key, r),
        (Page::ObjectPreview(p), Page::ObjectPreview(q)) => ObjectPreviewPage::key_step(&p, &q, key, r),
        (Page::Help(_), Page::Help(_)) => n == o && r == HelpPage::key_event(key),
        _ => false,
    }
}

impl Page {
    pub open spec fn wf(&self) -> bool {
        match self {
            Page::Initializing(_) => true,
            Page::BucketList(p) => p.wf(),
            Page::ObjectList(p) => p.wf(),
            Page::ObjectDetail(p) => p.wf(),
            Page::ObjectPreview(p) => p.wf(),
            Page::Help(_) => true,
        }
    }

    pub fn helps(&self) -> (r: Vec<String>)
        ensures
            texts(r@) == page_helps(*self),
    {
        match self {
            Page::Initializing(_) => {
                let r: Vec<String> = Vec::new();
                assert(texts(r@) =~= Seq::<Seq<char>>::empty());
                r
            },
            Page::BucketList(p) => p.helps(),
            Page::ObjectList(p) => p.helps(),
            Page::ObjectDetail(p) => p.helps(),
            Page::ObjectPreview(p) => p.helps(),
            Page::Help(p) => p.helps(),
        }
    }

    /// Hands a key press to the page.
    pub fn handle_key(&mut self, key: Key) -> (r: Option<AppEventType>)
        requires
            old(self).wf(),
        ensures
            final(self).wf(),
            page_key_step(*old(self), *final(self), key, r),
    {
        match self {
            Page::Initializing(_) => None,
            Page::BucketList(p) => p.handle_key(key),
            Page::ObjectList(p) => p.handle_key(key),
            Page::ObjectDetail(p) => p.handle_key(key),
            Page::ObjectPreview(p) => p.handle_key(key),
            Page::Help(p) => p.handle_key(key),
        }
    }
}

/// Whether a page may stand at the bottom of the stack.
pub open spec fn is_root_page(p: Page) -> bool {
    p is Initializing || p is BucketList
}

/// The navigation history; the last page is the one shown. Never empty.
pub struct PageStack {
    pages: Vec<Page>,
}

impl PageStack {
    pub closed spec fn spec_pages(&self) -> Seq<Page> {
        self.pages@
    }

    /// Never empty, every page valid, and the bottom page is the initializing page or,
    /// once the buckets are known, the bucket list.
    pub open spec fn wf(&self) -> bool {
        &&& self.spec_pages().len() >= 1
        &&& forall|i: int| 0 <= i < self.spec_pages().len() ==> (#[trigger] self.spec_pages()[i]).wf()
        &&& is_root_page(self.spec_pages()[0])
    }

    pub open spec fn spec_top(&self) -> Page {
        self.spec_pages().last()
    }

    /// A stack holding only the initializing page.
    pub fn new() -> (r: Self)
        ensures
            r.wf(),
            r.spec_pages().len() == 1,
            r.spec_pages()[0] is Initializing,
    {
        PageStack { pages: vec![Page::Initializing(InitializingPage {})] }
    }

    pub fn len(&self) -> (r: usize)
        ensures
            r == self.spec_pages().len(),
    {
        self.pages.len()
    }

    pub fn push(&mut self, page: Page)
        requires
            old(self).wf(),
            page.wf(),
        ensures
            final(self).wf(),
            final(self).spec_pages() == old(self).spec_pages().push(page),
    {
        self.pages.push(page);
    }

    /// Removes the top page, unless it is the only one.
    pub fn pop(&mut self)
        requires
            old(self).wf(),
        ensures
            final(self).wf(),
            final(self).spec_pages() == if old(self).spec_pages().len() > 1 {
                old(self).spec_pages().drop_last()
            } else {
                old(self).spec_pages()
            },
    {
        if self.pages.len() > 1 {
            self.pages.pop();
        }
    }

    /// Removes every page but the bottom one.
    pub fn clear(&mut self)
        requires
            old(self).wf(),
        ensures
            final(self).wf(),
            final(self).spec_pages() == old(self).spec_pages().subrange(0, 1),
    {
        self.pages.truncate(1);
    }

    /// The bottom page.
    pub fn head(&self) -> (r: &Page)
        requires
            self.wf(),
        ensures
            *r == self.spec_pages()[0],
    {
        &self.pages[0]
    }

    /// The page shown.
    pub fn current_page(&self) -> (r: &Page)
        requires
            self.wf(),
        ensures
            *r == self.spec_top(),
    {
        &self.pages[self.pages.len() - 1]
    }

    /// The pages from bottom to top.
    pub fn pages(&self) -> (r: &Vec<Page>)
        ensures
            r@ == self.spec_pages(),
    {
        &self.pages
    }

    /// Takes the top page off the stack, to be put back with `put_back`.
    fn take_top(&mut self) -> (r: Page)
        requires
            old(self).wf(),
        ensures
            r == old(self).spec_top(),
            r.wf(),
            final(self).spec_pages() == old(self).spec_pages().drop_last(),
            forall|i: int| 0 <= i < final(self).spec_pages().len() ==> (#[trigger] final(self).spec_pages()[i]).wf(),
            final(self).spec_pages().len() > 0 ==> is_root_page(final(self).spec_pages()[0]),
            final(self).spec_pages().len() == 0 ==> is_root_page(r),
    {
        let r = self.pages.pop();
        match r {
            Some(p) => p,
            None => Page::Initializing(InitializingPage {}),
        }
    }

    fn put_back(&mut self, page: Page)
        requires
            page.wf(),
            forall|i: int| 0 <= i < old(self).spec_pages().len() ==> (#[trigger] old(self).spec_pages()[i]).wf(),
            old(self).spec_pages().len() > 0 ==> is_root_page(old(self).spec_pages()[0]),
            old(self).spec_pages().len() == 0 ==> is_root_page(page),
        ensures
            final(self).wf(),
            final(self).spec_pages() == old(self).spec_pages().push(page),
    {
        self.pages.push(page);
        assert forall|i: int| 0 <= i < self.spec_pages().len() implies (#[trigger] self.spec_pages()[i]).wf() by {
            if i < old(self).spec_pages().len() {
                assert(self.spec_pages()[i] == old(self).spec_pages()[i]);
            }
        }
    }

    /// Replaces the page shown; the only page may be replaced only by a root page.
    pub fn replace_top(&mut self, page: Page)
        requires
            old(self).wf(),
            page.wf(),
            old(self).spec_pages().len() == 1 ==> is_root_page(page),
        ensures
            final(self).wf(),
            final(self).spec_pages() == old(self).spec_pages().drop_last().push(page),
    {
        let _ = self.take_top();
        self.put_back(page);
    }

    /// Hands a key press to the page shown; the pages below it are left as they are.
    pub fn handle_key(&mut self, key: Key) -> (r: Option<AppEventType>)
        requires
            old(self).wf(),
        ensures
            final(self).wf(),
            final(self).spec_pages().len() == old(self).spec_pages().len(),
            final(self).spec_pages().drop_last() == old(self).spec_pages().drop_last(),
            page_key_step(old(self).spec_top(), final(self).spec_top(), key, r),
    {
        let mut p = self.take_top();
        let r = p.handle_key(key);
        self.put_back(p);
        assert(self.spec_pages().drop_last() =~= old(self).spec_pages().drop_last());
        r
    }

    /// Closes the save dialog of the detail or preview page shown; other pages are left alone.
    pub fn close_save_dialog(&mut self)
        requires
            old(self).wf(),
        ensures
            final(self).wf(),
            final(self).spec_pages().len() == old(self).spec_pages().len(),
            final(self).spec_pages().drop_last() == old(self).spec_pages().drop_last(),
            old(self).spec_top() matches Page::ObjectDetail(d) ==> final(self).spec_top() matches Page::ObjectDetail(e) && e.spec_view() == 0 && d.same_but_view(&e),
            old(self).spec_top() matches Page::ObjectPreview(d) ==> final(self).spec_top() matches Page::ObjectPreview(e) && e.spec_save_input() is None && e.spec_detail() == d.spec_detail() && e.spec_bytes()
                == d.spec_bytes() && e.spec_path() == d.spec_path() && e.spec_offset() == d.spec_offset(),
            !(old(self).spec_top() is ObjectDetail || old(self).spec_top() is ObjectPreview) ==> final(self).spec_pages() == old(self).spec_pages(),
    {
        let mut p = self.take_top();
        match &mut p {
            Page::ObjectDetail(d) => d.close_save_dialog(),
            Page::ObjectPreview(v) => v.close_save_dialog(),
            _ => {},
        }
        self.put_back(p);
        assert(self.spec_pages().drop_last() =~= old(self).spec_pages().drop_last());
        assert(!(old(self).spec_top() is ObjectDetail || old(self).spec_top() is ObjectPreview) ==> self.spec_pages()
            =~= old(self).spec_pages());
    }

    /// Records how many rows the list of the page shown has on screen.
    pub fn set_list_height(&mut self, height: usize)
        requires
            old(self).wf(),
        ensures
            final(self).wf(),
            final(self).spec_pages().len() == old(self).spec_pages().len(),
            final(self).spec_pages().drop_last() == old(self).spec_pages().drop_last(),
    {
        let mut p = self.take_top();
        match &mut p {
            Page::BucketList(b) => b.set_list_height(height),
            Page::ObjectList(o) => o.set_list_height(height),
            Page::ObjectDetail(d) => d.set_version_tab_height(height),
            _ => {},
        }
        self.put_back(p);
        assert(self.spec_pages().drop_last() =~= old(self).spec_pages().drop_last());
    }
}

} // verus!
