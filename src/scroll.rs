use vstd::prelude::*;

verus! {

/// Selection and scroll position in a list of `total` rows, of which `height` are visible.
/// A height of zero means that the list has not been laid out yet.
#[derive(Clone, Copy, PartialEq, Eq, Structural, Debug)]
pub struct ScrollListState {
    pub selected: usize,
    pub offset: usize,
    pub height: usize,
    pub total: usize,
}

/// The first visible row that keeps `selected` in view, moving `offset` as little as possible.
pub open spec fn follow(selected: int, offset: int, height: int) -> int {
    if selected < offset {
        selected
    } else if height > 0 && selected >= offset + height {
        selected + 1 - height
    } else {
        offset
    }
}

/// A list of `total` rows, not laid out yet, with the cursor on the first row.
pub open spec fn fresh_list(total: usize) -> ScrollListState {
    ScrollListState { selected: 0, offset: 0, height: 0, total }
}

/// How many rows one page moves.
pub open spec fn page_step(height: int) -> int {
    if height > 0 {
        height
    } else {
        1
    }
}

impl ScrollListState {
    pub open spec fn wf(&self) -> bool {
        &&& self.offset <= self.selected
        &&& (self.total == 0 ==> self.selected == 0)
        &&& (self.total > 0 ==> self.selected < self.total)
    }

    pub open spec fn at(self, selected: int, offset: int) -> Self {
        ScrollListState { selected: selected as usize, offset: offset as usize, ..self }
    }

    pub open spec fn spec_next(self) -> Self {
        if self.total == 0 {
            self
        } else if self.selected + 1 >= self.total {
            self.at(0, 0)
        } else {
            self.at(self.selected + 1, follow(self.selected + 1, self.offset as int, self.height as int))
        }
    }

    pub open spec fn spec_prev(self) -> Self {
        if self.total == 0 {
            self
        } else if self.selected == 0 {
            self.spec_last()
        } else {
            self.at(self.selected - 1, follow(self.selected - 1, self.offset as int, self.height as int))
        }
    }

    pub open spec fn spec_first(self) -> Self {
        self.at(0, 0)
    }

    pub open spec fn spec_last(self) -> Self {
        if self.total == 0 {
            self
        } else if self.height > 0 && self.total > self.height {
            self.at(self.total - 1, self.total - self.height)
        } else {
            self.at(self.total - 1, 0)
        }
    }

    pub open spec fn spec_next_page(self) -> Self {
        if self.total == 0 {
            self
        } else {
            let target = if self.selected + page_step(self.height as int) >= self.total {
                self.total - 1
            } else {
                self.selected + page_step(self.height as int)
            };
            self.at(target, follow(target, self.offset as int, self.height as int))
        }
    }

    pub open spec fn spec_prev_page(self) -> Self {
        let target = if self.selected < page_step(self.height as int) {
            0
        } else {
            self.selected - page_step(self.height as int)
        };
        self.at(target, follow(target, self.offset as int, self.height as int))
    }

    pub fn new(total: usize) -> (r: Self)
        ensures
            r.wf(),
            r == fresh_list(total),
    {
        ScrollListState { selected: 0, offset: 0, height: 0, total }
    }

    fn follow(selected: usize, offset: usize, height: usize) -> (r: usize)
        ensures
            r == follow(selected as int, offset as int, height as int),
    {
        if selected < offset {
            selected
        } else if height > 0 && selected - offset >= height {
            selected - height + 1
        } else {
            offset
        }
    }

    /// Moves to the next row, from the last row back to the first.
    pub fn select_next(&mut self)
        requires
            old(self).wf(),
        ensures
            final(self).wf(),
            *final(self) == old(self).spec_next(),
    {
        if self.total == 0 {
        } else if self.selected >= self.total - 1 {
            self.selected = 0;
            self.offset = 0;
        } else {
            let s = self.selected + 1;
            self.offset = Self::follow(s, self.offset, self.height);
            self.selected = s;
        }
    }

    /// Moves to the previous row, from the first row round to the last.
    pub fn select_prev(&mut self)
        requires
            old(self).wf(),
        ensures
            final(self).wf(),
            *final(self) == old(self).spec_prev(),
    {
        if self.total == 0 {
        } else if self.selected == 0 {
            self.select_last();
        } else {
            let s = self.selected - 1;
            self.offset = Self::follow(s, self.offset, self.height);
            self.selected = s;
        }
    }

    pub fn select_first(&mut self)
        requires
            old(self).wf(),
        ensures
            final(self).wf(),
            *final(self) == old(self).spec_first(),
    {
        self.selected = 0;
        self.offset = 0;
    }

    pub fn select_last(&mut self)
        requires
            old(self).wf(),
        ensures
            final(self).wf(),
            *final(self) == old(self).spec_last(),
    {
        if self.total == 0 {
        } else if self.height > 0 && self.total > self.height {
            self.selected = self.total - 1;
            self.offset = self.total - self.height;
        } else {
            self.selected = self.total - 1;
            self.offset = 0;
        }
    }

    /// Moves one page down, stopping at the last row.
    pub fn select_next_page(&mut self)
        requires
            old(self).wf(),
        ensures
            final(self).wf(),
            *final(self) == old(self).spec_next_page(),
    {
        if self.total == 0 {
            return;
        }
        let step: usize = if self.height > 0 {
            self.height
        } else {
            1
        };
        let target = if step >= self.total - self.selected {
            self.total - 1
        } else {
            self.selected + step
        };
        self.offset = Self::follow(target, self.offset, self.height);
        self.selected = target;
    }

    /// Moves one page up, stopping at the first row.
    pub fn select_prev_page(&mut self)
        requires
            old(self).wf(),
        ensures
            final(self).wf(),
            *final(self) == old(self).spec_prev_page(),
    {
        let step: usize = if self.height > 0 {
            self.height
        } else {
            1
        };
        let target = if self.selected < step {
            0
        } else {
            self.selected - step
        };
        self.offset = Self::follow(target, self.offset, self.height);
        self.selected = target;
    }

    /// Records how many rows are visible, scrolling so that the selected row stays in view.
    pub fn set_height(&mut self, height: usize)
        requires
            old(self).wf(),
        ensures
            final(self).wf(),
            *final(self) == (ScrollListState {
                height,
                offset: follow(old(self).selected as int, old(self).offset as int, height as int) as usize,
                ..*old(self)
            }),
    {
        self.offset = Self::follow(self.selected, self.offset, height);
        self.height = height;
    }
}

} // verus!
