use vstd::prelude::*;

use crate::event::AppEventType;
use crate::help::{build_helps, help_lines, table_view, texts};
use crate::key::{edit_input, Key};
use crate::object::{FileDetail, Object};
use crate::text::{pop_char, push_char};

verus! {

/// The number of line breaks in `s`.
pub open spec fn newline_count(s: Seq<u8>) -> nat
    decreases s.len(),
{
    if s.len() == 0 {
        0
    } else {
        newline_count(s.drop_last()) + if s.last() == 10u8 {
            1nat
        } else {
            0
        }
    }
}

/// The key table of the preview's help page.
pub open spec fn preview_help_table(dialog: bool) -> Seq<(Seq<char>, Seq<char>)> {
    if dialog {
        seq![("Ctrl-c"@, "Quit app"@), ("Esc"@, "Close save dialog"@), ("Enter"@, "Download object"@)]
    } else {
        seq![
            ("Esc/Ctrl-c"@, "Quit app"@),
            ("Backspace"@, "Close preview"@),
            ("j/k"@, "Scroll forward/backward"@),
            ("g/G"@, "Scroll to top/bottom"@),
            ("s"@, "Download object"@),
            ("S"@, "Download object as"@),
        ]
    }
}

/// The downloaded content of one object, shown as text.
pub struct ObjectPreviewPage {
    file_detail: FileDetail,
    object: Object,
    path: String,
    save_dialog: Option<String>,
    offset: usize,
    last_line: usize,
}

impl ObjectPreviewPage {
    pub closed spec fn wf(&self) -> bool {
        &&& self.last_line == newline_count(self.object.bytes@)
        &&& self.offset <= self.last_line
    }

    pub closed spec fn spec_detail(&self) -> FileDetail {
        self.file_detail
    }

    pub closed spec fn spec_bytes(&self) -> Seq<u8> {
        self.object.bytes@
    }

    pub closed spec fn spec_path(&self) -> Seq<char> {
        self.path@
    }

    /// The text typed into the save dialog, if it is open.
    pub closed spec fn spec_save_input(&self) -> Option<Seq<char>> {
        match self.save_dialog {
            Some(s) => Some(s@),
            None => None,
        }
    }

    /// The first line shown.
    pub closed spec fn spec_offset(&self) -> nat {
        self.offset as nat
    }

    /// Only the scroll position may differ from `self`.
    pub open spec fn same_but_offset(&self, other: &Self) -> bool {
        &&& other.spec_detail() == self.spec_detail()
        &&& other.spec_bytes() == self.spec_bytes()
        &&& other.spec_path() == self.spec_path()
        &&& other.spec_save_input() == self.spec_save_input()
    }

    /// The index of the last line: lines are separated by line breaks.
    pub open spec fn spec_last_line(&self) -> nat {
        newline_count(self.spec_bytes())
    }

    pub fn new(file_detail: FileDetail, object: Object, path: String) -> (r: Self)
        ensures
            r.wf(),
            r.spec_detail() == file_detail,
            r.spec_bytes() == object.bytes@,
            r.spec_path() == path@,
            r.spec_save_input() is None,
            r.spec_offset() == 0,
    {
        let mut count: usize = 0;
        let mut i: usize = 0;
        while i < object.bytes.len()
            invariant
                i <= object.bytes@.len(),
                count == newline_count(object.bytes@.subrange(0, i as int)),
                count <= i,
            decreases object.bytes@.len() - i,
        {
            proof {
                assert(object.bytes@.subrange(0, i + 1).drop_last() =~= object.bytes@.subrange(0, i as int));
            }
            if object.bytes[i] == 10u8 {
                count = count + 1;
            }
            i = i + 1;
        }
        assert(object.bytes@.subrange(0, i as int) =~= object.bytes@);
        ObjectPreviewPage { file_detail, object, path, save_dialog: None, offset: 0, last_line: count }
    }

    pub fn file_detail(&self) -> (r: &FileDetail)
        ensures
            *r == self.spec_detail(),
    {
        &self.file_detail
    }

    pub fn object(&self) -> (r: &Object)
        ensures
            r.bytes@ == self.spec_bytes(),
    {
        &self.object
    }

    pub fn path(&self) -> (r: &String)
        ensures
            r@ == self.spec_path(),
    {
        &self.path
    }

    pub fn offset(&self) -> (r: usize)
        ensures
            r == self.spec_offset(),
    {
        self.offset
    }

    /// Whether the save dialog is open.
    pub fn status(&self) -> (r: bool)
        ensures
            r == self.spec_save_input() is Some,
    {
        self.save_dialog.is_some()
    }

    /// The text typed into the save dialog, when it is open.
    pub fn save_dialog_key_input(&self) -> (r: Option<&String>)
        ensures
            r is Some == self.spec_save_input() is Some,
            r matches Some(s) ==> self.spec_save_input() == Some(s@),
    {
        match &self.save_dialog {
            Some(s) => Some(s),
            None => None,
        }
    }

    pub fn open_save_dialog(&mut self)
        requires
            old(self).wf(),
        ensures
            final(self).wf(),
            final(self).spec_save_input() == Some(Seq::<char>::empty()),
            final(self).spec_detail() == old(self).spec_detail(),
            final(self).spec_bytes() == old(self).spec_bytes(),
            final(self).spec_path() == old(self).spec_path(),
            final(self).spec_offset() == old(self).spec_offset(),
    {
        self.save_dialog = Some(String::new());
    }

    pub fn close_save_dialog(&mut self)
        requires
            old(self).wf(),
        ensures
            final(self).wf(),
            final(self).spec_save_input() is None,
            final(self).spec_detail() == old(self).spec_detail(),
            final(self).spec_bytes() == old(self).spec_bytes(),
            final(self).spec_path() == old(self).spec_path(),
            final(self).spec_offset() == old(self).spec_offset(),
    {
        self.save_dialog = None;
    }

    /// Scrolls one line down, stopping at the last line.
    pub fn scroll_forward(&mut self)
        requires
            old(self).wf(),
        ensures
            final(self).wf(),
            old(self).same_but_offset(final(self)),
            final(self).spec_offset() == if old(self).spec_offset() < old(self).spec_last_line() {
                old(self).spec_offset() + 1
            } else {
                old(self).spec_offset()
            },
    {
        if self.offset < self.last_line {
            self.offset = self.offset + 1;
        }
    }

    /// Scrolls one line up, stopping at the first line.
    pub fn scroll_backward(&mut self)
        requires
            old(self).wf(),
        ensures
            final(self).wf(),
            old(self).same_but_offset(final(self)),
            final(self).spec_offset() == if old(self).spec_offset() > 0 {
                old(self).spec_offset() - 1
            } else {
                0
            },
    {
        if self.offset > 0 {
            self.offset = self.offset - 1;
        }
    }

    pub fn scroll_to_top(&mut self)
        requires
            old(self).wf(),
        ensures
            final(self).wf(),
            old(self).same_but_offset(final(self)),
            final(self).spec_offset() == 0,
    {
        self.offset = 0;
    }

    pub fn scroll_to_end(&mut self)
        requires
            old(self).wf(),
        ensures
            final(self).wf(),
            old(self).same_but_offset(final(self)),
            final(self).spec_offset() == old(self).spec_last_line(),
    {
        self.offset = self.last_line;
    }

    /// What one key press does to the page, and the event it sends.
    pub open spec fn key_step(o: &Self, n: &Self, key: Key, r: Option<AppEventType>) -> bool {
        &&& (n.spec_detail() == o.spec_detail())
        &&& (n.spec_bytes() == o.spec_bytes())
        &&& (n.spec_path() == o.spec_path())
        &&& (o.spec_save_input() is None ==> match key {
            Key::Char('q') => r == Some(AppEventType::Quit) && *n == *o,
            Key::Esc | Key::Backspace => r == Some(AppEventType::CloseCurrentPage) && *n == *o,
            Key::Char('j') => r is None && n.spec_save_input() is None && n.spec_offset() == if o.spec_offset() < o.spec_last_line() {
                o.spec_offset() + 1
            } else {
                o.spec_offset()
            },
            Key::Char('k') => r is None && n.spec_save_input() is None && n.spec_offset() == if o.spec_offset() > 0 {
                o.spec_offset() - 1
            } else {
                0
            },
            Key::Char('g') => r is None && n.spec_save_input() is None && n.spec_offset() == 0,
            Key::Char('G') => r is None && n.spec_save_input() is None && n.spec_offset() == o.spec_last_line(),
            Key::Char('s') => r == Some(AppEventType::PreviewDownloadObject) && *n == *o,
            Key::Char('S') => r is None && n.spec_save_input() == Some(Seq::<char>::empty()) && n.spec_offset() == o.spec_offset(),
            Key::Char('?') => r == Some(AppEventType::OpenHelp) && *n == *o,
            _ => r is None && *n == *o,
        })
        &&& (o.spec_save_input() matches Some(input) ==> n.spec_offset() == o.spec_offset() && match key {
            Key::Esc => r is None && n.spec_save_input() is None,
            Key::Enter => r == Some(AppEventType::PreviewSaveDownloadObjectAs) && *n == *o,
            Key::Char('?') => r == Some(AppEventType::OpenHelp) && *n == *o,
            _ => r is None && n.spec_save_input() == Some(edit_input(input, key)),
        })
    }

    /// Handles one key press; returns the event to send, if any.
    pub fn handle_key(&mut self, key: Key) -> (r: Option<AppEventType>)
        requires
            old(self).wf(),
        ensures
            final(self).wf(),
            Self::key_step(old(self), final(self), key, r),
    {
        if self.save_dialog.is_none() {
            match key {
                Key::Char('q') => Some(AppEventType::Quit),
                Key::Esc | Key::Backspace => Some(AppEventType::CloseCurrentPage),
                Key::Char('j') => {
                    self.scroll_forward();
                    None
                },
                Key::Char('k') => {
                    self.scroll_backward();
                    None
                },
                Key::Char('g') => {
                    self.scroll_to_top();
                    None
                },
                Key::Char('G') => {
                    self.scroll_to_end();
                    None
                },
                Key::Char('s') => Some(AppEventType::PreviewDownloadObject),
                Key::Char('S') => {
                    self.open_save_dialog();
                    None
                },
                Key::Char('?') => Some(AppEventType::OpenHelp),
                _ => None,
            }
        } else {
            match key {
                Key::Esc => {
                    self.close_save_dialog();
                    None
                },
                Key::Enter => Some(AppEventType::PreviewSaveDownloadObjectAs),
                Key::Char('?') => Some(AppEventType::OpenHelp),
                _ => {
                    if let Some(s) = &mut self.save_dialog {
                        match key {
                            Key::Char(c) => push_char(s, c),
                            Key::Backspace => pop_char(s),
                            _ => {},
                        }
                    }
                    None
                },
            }
        }
    }

    pub fn helps(&self) -> (r: Vec<String>)
        ensures
            texts(r@) == help_lines(preview_help_table(self.spec_save_input() is Some)),
    {
        let t: Vec<(&str, &str)> = if self.save_dialog.is_some() {
            vec![("Ctrl-c", "Quit app"), ("Esc", "Close save dialog"), ("Enter", "Download object")]
        } else {
            vec![
                ("Esc/Ctrl-c", "Quit app"),
                ("Backspace", "Close preview"),
                ("j/k", "Scroll forward/backward"),
                ("g/G", "Scroll to top/bottom"),
                ("s", "Download object"),
                ("S", "Download object as"),
            ]
        };
        let r = build_helps(&t);
        assert(table_view(t@) =~= preview_help_table(self.spec_save_input() is Some));
        r
    }
}

} // verus!
