use vstd::prelude::*;

use crate::action::Action;

verus! {

/// The number of tabs on the home screen.
pub const TAB_COUNT: usize = 7;

/// The home screen: which of its tabs is active.
#[derive(Debug, Clone, Copy, PartialEq, Eq, Structural)]
pub struct Home {
    active_tab: usize,
}

/// What the home screen does with an action: nothing, activate the tab that became active, or
/// hand the action to the active tab.
#[derive(Debug, Clone, Copy, PartialEq, Eq, Structural)]
pub enum HomeStep {
    Stay,
    Activate(usize),
    Forward(usize),
}

/// The tab selected by asking for tab `index` while `active` is active: `index` when it is
/// another tab that exists.
pub open spec fn tab_after_select(active: usize, index: usize) -> usize {
    if index != active && index < TAB_COUNT {
        index
    } else {
        active
    }
}

/// The tab after moving right, if there is one.
pub open spec fn tab_after_next(active: usize) -> usize {
    if active < TAB_COUNT - 1 {
        (active + 1) as usize
    } else {
        active
    }
}

/// The tab after moving left, if there is one.
pub open spec fn tab_after_prev(active: usize) -> usize {
    if active > 0 {
        (active - 1) as usize
    } else {
        active
    }
}

/// The tab active after `action` while `active` is active.
pub open spec fn tab_after_action(active: usize, action: Action) -> usize {
    match action {
        Action::SelectTab(i) => tab_after_select(active, i),
        Action::NextTab => tab_after_next(active),
        Action::PrevTab => tab_after_prev(active),
        _ => active,
    }
}

/// What the home screen does with `action` while `active` is active: a change of tab
/// activates the new tab, an attempt that changes nothing does nothing, and every other action
/// goes to the active tab.
pub open spec fn home_step(active: usize, action: Action) -> HomeStep {
    match action {
        Action::SelectTab(_) | Action::NextTab | Action::PrevTab => {
            let next = tab_after_action(active, action);
            if next != active {
                HomeStep::Activate(next)
            } else {
                HomeStep::Stay
            }
        },
        _ => HomeStep::Forward(active),
    }
}

impl Home {
    /// The active tab.
    pub closed spec fn active(&self) -> usize {
        self.active_tab
    }

    /// The home screen's invariant: the active tab exists.
    pub open spec fn wf(&self) -> bool {
        self.active() < TAB_COUNT
    }

    /// The home screen with the first tab active.
    pub fn new() -> (h: Home)
        ensures
            h.wf(),
            h.active() == 0,
    {
        Home { active_tab: 0 }
    }

    /// The active tab.
    pub fn active_tab(&self) -> (i: usize)
        ensures
            i == self.active(),
    {
        self.active_tab
    }

    /// Makes tab `index` active, when it is another tab that exists; tells whether it did, in
    /// which case the tab is to be activated.
    pub fn select_tab(&mut self, index: usize) -> (changed: bool)
        requires
            old(self).wf(),
        ensures
            final(self).wf(),
            final(self).active() == tab_after_select(old(self).active(), index),
            changed == (final(self).active() != old(self).active()),
    {
        if index != self.active_tab && index < TAB_COUNT {
            self.active_tab = index;
            true
        } else {
            false
        }
    }

    /// Makes the tab to the right active, if there is one; tells whether it did.
    pub fn next_tab(&mut self) -> (changed: bool)
        requires
            old(self).wf(),
        ensures
            final(self).wf(),
            final(self).active() == tab_after_next(old(self).active()),
            changed == (final(self).active() != old(self).active()),
    {
        if self.active_tab < TAB_COUNT - 1 {
            self.active_tab = self.active_tab + 1;
            true
        } else {
            false
        }
    }

    /// Makes the tab to the left active, if there is one; tells whether it did.
    pub fn prev_tab(&mut self) -> (changed: bool)
        requires
            old(self).wf(),
        ensures
            final(self).wf(),
            final(self).active() == tab_after_prev(old(self).active()),
            changed == (final(self).active() != old(self).active()),
    {
        if self.active_tab > 0 {
            self.active_tab = self.active_tab - 1;
            true
        } else {
            false
        }
    }

    /// Handles an action (see `home_step`).
    pub fn update(&mut self, action: &Action) -> (step: HomeStep)
        requires
            old(self).wf(),
        ensures
            final(self).wf(),
            final(self).active() == tab_after_action(old(self).active(), *action),
            step == home_step(old(self).active(), *action),
    {
        let changed = match action {
            Action::SelectTab(i) => self.select_tab(*i),
            Action::NextTab => self.next_tab(),
            Action::PrevTab => self.prev_tab(),
            _ => {
                return HomeStep::Forward(self.active_tab);
            },
        };
        if changed {
            HomeStep::Activate(self.active_tab)
        } else {
            HomeStep::Stay
        }
    }
}

/// Moving right and then left comes back to the tab one started from, when there was a tab to
/// the right.
pub proof fn lemma_next_then_prev_tab(active: usize)
    requires
        active < TAB_COUNT - 1,
    ensures
        tab_after_prev(tab_after_next(active)) == active,
{
}

/// Moving left and then right comes back to the tab one started from, when there was a tab to
/// the left.
pub proof fn lemma_prev_then_next_tab(active: usize)
    requires
        0 < active < TAB_COUNT,
    ensures
        tab_after_next(tab_after_prev(active)) == active,
{
}

/// The lines of key hints and the hints of the line being filled, with its width, after the
/// hints `items` were laid out in lines at most `max_width` wide. Each hint takes its length
/// and one space; a line is ended before a hint that does not fit, unless the line is empty.
pub open spec fn split_state(items: Seq<Seq<char>>, max_width: int) -> (Seq<Seq<Seq<char>>>, Seq<Seq<char>>, int)
    decreases items.len(),
{
    if items.len() == 0 {
        (Seq::empty(), Seq::empty(), 0)
    } else {
        let (lines, current, width) = split_state(items.drop_last(), max_width);
        let item = items.last();
        let len: int = item.len() as int + 1;
        if width + len > max_width && width != 0 {
            (lines.push(current), seq![item], len)
        } else {
            (lines, current.push(item), width + len)
        }
    }
}

/// The lines of the key hints `items` laid out at most `max_width` wide.
pub open spec fn spec_split_at_width(items: Seq<Seq<char>>, max_width: int) -> Seq<Seq<Seq<char>>> {
    let (lines, current, _) = split_state(items, max_width);
    lines.push(current)
}

/// All hints of `lines`, line after line.
pub open spec fn flatten_lines(lines: Seq<Seq<Seq<char>>>) -> Seq<Seq<char>>
    decreases lines.len(),
{
    if lines.len() == 0 {
        Seq::empty()
    } else {
        flatten_lines(lines.drop_last()) + lines.last()
    }
}

proof fn lemma_flatten_push(lines: Seq<Seq<Seq<char>>>, line: Seq<Seq<char>>)
    ensures
        flatten_lines(lines.push(line)) == flatten_lines(lines) + line,
{
    assert(lines.push(line).drop_last() =~= lines);
}

proof fn lemma_split_state_keeps(items: Seq<Seq<char>>, max_width: int)
    ensures
        ({
            let (lines, current, _) = split_state(items, max_width);
            flatten_lines(lines) + current == items
        }),
    decreases items.len(),
{
    if items.len() > 0 {
        lemma_split_state_keeps(items.drop_last(), max_width);
        let (lines, current, width) = split_state(items.drop_last(), max_width);
        let item = items.last();
        lemma_flatten_push(lines, current);
        assert(items =~= items.drop_last().push(item));
        assert((flatten_lines(lines) + current).push(item) =~= flatten_lines(lines) + current.push(item));
        assert(flatten_lines(lines) + current + seq![item] =~= (flatten_lines(lines) + current).push(item));
    } else {
        assert(flatten_lines(Seq::<Seq<Seq<char>>>::empty()) + Seq::<Seq<char>>::empty() =~= items);
    }
}

/// Laying key hints out in lines loses none of them and keeps their order.
pub proof fn lemma_split_keeps_hints(items: Seq<Seq<char>>, max_width: int)
    ensures
        flatten_lines(spec_split_at_width(items, max_width)) == items,
{
    lemma_split_state_keeps(items, max_width);
    let (lines, current, _) = split_state(items, max_width);
    lemma_flatten_push(lines, current);
}

pub open spec fn line_views(lines: Seq<Vec<String>>) -> Seq<Seq<Seq<char>>> {
    lines.map_values(|l: Vec<String>| l@.map_values(|s: String| s@))
}

/// Lays the key hints `items` out in lines at most `max_width` wide (see `split_state`).
pub fn split_at_width(items: &Vec<String>, max_width: u16) -> (lines: Vec<Vec<String>>)
    requires
        forall|i: int| 0 <= i < items@.len() ==> #[trigger] items@[i]@.len() < u16::MAX,
    ensures
        line_views(lines@) == spec_split_at_width(items@.map_values(|s: String| s@), max_width as int),
{
    let ghost hints = items@.map_values(|s: String| s@);
    let mut lines: Vec<Vec<String>> = Vec::new();
    let mut current: Vec<String> = Vec::new();
    let mut width: u32 = 0;
    let mut i: usize = 0;
    while i < items.len()
        invariant
            i <= items@.len(),
            hints == items@.map_values(|s: String| s@),
            forall|j: int| 0 <= j < items@.len() ==> #[trigger] items@[j]@.len() < u16::MAX,
            ({
                let (l, c, w) = split_state(hints.take(i as int), max_width as int);
                line_views(lines@) == l && current@.map_values(|s: String| s@) == c && width as int == w
            }),
            width <= u16::MAX as u32,
        decreases items@.len() - i,
    {
        let item = &items[i];
        let len = item.as_str().unicode_len() as u32 + 1;
        assert(hints.take(i + 1).drop_last() =~= hints.take(i as int));
        assert(hints.take(i + 1).last() == item@);
        let ghost old_lines = lines@;
        let ghost old_current = current@;
        if width + len > max_width as u32 && width != 0 {
            lines.push(current);
            current = Vec::new();
            width = 0;
            assert(line_views(lines@) =~= line_views(old_lines).push(old_current.map_values(|s: String| s@)));
        }
        let ghost before = current@;
        width = width + len;
        current.push(item.clone());
        assert(current@.map_values(|s: String| s@) =~= before.map_values(|s: String| s@).push(item@));
        i = i + 1;
    }
    let ghost old_lines = lines@;
    let ghost last = current@;
    lines.push(current);
    assert(line_views(lines@) =~= line_views(old_lines).push(last.map_values(|s: String| s@)));
    assert(hints.take(items@.len() as int) =~= hints);
    lines
}

} // verus!
