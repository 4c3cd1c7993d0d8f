use crate::entry::{groups_view, Entry, EntryGroup, EntryGroupView, EntryView};
use vstd::prelude::*;

verus! {

/// How far a session has come.
#[derive(Clone, Copy, Debug, PartialEq, Eq, Structural)]
pub enum RunningState {
    /// Nothing was taken in from the store yet.
    Empty,
    /// The store was taken in; the menu is in use.
    Loaded,
    /// The session is over.
    Done,
}

/// Screen that is currently shown.
#[derive(Clone, Copy, Debug, PartialEq, Eq, Structural)]
pub enum CurrentScreen {
    /// The list of groups.
    Main,
    /// The entries of the selected group.
    Secondary,
}

impl RunningState {
    /// How far the session has come, as a number: a later state has a
    /// greater one.
    pub open spec fn progress(self) -> nat {
        match self {
            RunningState::Empty => 0,
            RunningState::Loaded => 1,
            RunningState::Done => 2,
        }
    }
}

impl Default for RunningState {
    fn default() -> (state: RunningState)
        ensures
            state == RunningState::Empty,
    {
        RunningState::Empty
    }
}

impl Default for CurrentScreen {
    fn default() -> (screen: CurrentScreen)
        ensures
            screen == CurrentScreen::Main,
    {
        CurrentScreen::Main
    }
}

/// The menu: where its groups are stored, the groups, how far the session
/// has come, which screen is shown, and one cursor for each screen.
///
/// `idx_entrygroup` counts in `entries`, `idx_entry` in the entries of the
/// group that `idx_entrygroup` points at. A group without entries can be
/// stored and shown, but not entered. The fields are open to the caller, so
/// every function says in its `requires` what it needs of the cursors, and
/// `ModelView::well_formed` says what every function keeps.
#[derive(Debug)]
pub struct Model {
    pub file: String,
    pub entries: Vec<EntryGroup>,
    pub running_state: RunningState,
    pub idx_entrygroup: usize,
    pub idx_entry: usize,
    pub current_screen: CurrentScreen,
}

/// A [`Model`] as a value: texts, sequences and natural numbers.
pub struct ModelView {
    pub file: Seq<char>,
    pub entries: Seq<EntryGroupView>,
    pub running_state: RunningState,
    pub idx_entrygroup: nat,
    pub idx_entry: nat,
    pub current_screen: CurrentScreen,
}

/// The place on which a count falls in a ring of `len` places, counted
/// round from place 0 in either direction.
pub open spec fn ring_place(count: int, len: nat) -> nat {
    (count % (len as int)) as nat
}

/// The cursor after `cursor` in a ring of `len` places: place 0 comes after
/// the last place.
pub open spec fn ring_next(cursor: nat, len: nat) -> nat {
    ring_place((cursor + 1) as int, len)
}

/// The cursor before `cursor` in a ring of `len` places: the last place
/// comes before place 0.
pub open spec fn ring_previous(cursor: nat, len: nat) -> nat {
    ring_place(cursor - 1, len)
}

/// The entry cursor that goes with a group of `len` entries: it stays where
/// it is if the group has an entry there, and goes to the first place if not.
pub open spec fn kept_or_first(cursor: nat, len: nat) -> nat {
    if cursor < len {
        cursor
    } else {
        0
    }
}

/// What a read of the store handed over, as a value: `None` where nothing
/// was stored.
pub open spec fn stored_view(stored: Option<Vec<EntryGroup>>) -> Option<Seq<EntryGroupView>> {
    match stored {
        Some(groups) => Some(groups_view(groups@)),
        None => None,
    }
}

impl ModelView {
    /// The menu of a session that starts: no groups, the list of groups
    /// shown, both cursors at 0.
    pub open spec fn initial(file: Seq<char>) -> ModelView {
        ModelView {
            file,
            entries: Seq::empty(),
            running_state: RunningState::Empty,
            idx_entrygroup: 0,
            idx_entry: 0,
            current_screen: CurrentScreen::Main,
        }
    }

    /// The group cursor points at a group.
    pub open spec fn group_selected(self) -> bool {
        self.idx_entrygroup < self.entries.len()
    }

    /// The group that the group cursor points at.
    pub open spec fn selected_group(self) -> EntryGroupView
        recommends
            self.group_selected(),
    {
        self.entries[self.idx_entrygroup as int]
    }

    /// Both cursors point at something: the group cursor at a group, the
    /// entry cursor at an entry of that group.
    pub open spec fn entry_selected(self) -> bool {
        self.group_selected() && self.idx_entry < self.selected_group().entries.len()
    }

    /// The entry that the two cursors point at.
    pub open spec fn selected_entry(self) -> EntryView
        recommends
            self.entry_selected(),
    {
        self.selected_group().entries[self.idx_entry as int]
    }

    /// Unless there are no groups, both cursors point at something.
    pub open spec fn cursors_in_range(self) -> bool {
        self.entries.len() > 0 ==> self.entry_selected()
    }

    /// No group is without entries.
    pub open spec fn every_group_has_an_entry(self) -> bool {
        forall|i: int| 0 <= i < self.entries.len() ==> (#[trigger] self.entries[i]).entries.len() > 0
    }

    /// What every step of a session keeps. The cursors are at 0 and the
    /// main screen is shown while there are no groups; else the group cursor
    /// points at a group, and the entry cursor at one of its entries, or at
    /// 0 where it has none; and the secondary screen is shown only of a
    /// group that has entries.
    pub open spec fn well_formed(self) -> bool {
        &&& self.entries.len() == 0 ==> {
            &&& self.idx_entrygroup == 0
            &&& self.idx_entry == 0
            &&& self.current_screen == CurrentScreen::Main
        }
        &&& self.entries.len() > 0 ==> {
            &&& self.group_selected()
            &&& self.idx_entry == kept_or_first(self.idx_entry, self.selected_group().entries.len())
        }
        &&& self.current_screen == CurrentScreen::Secondary ==> self.entry_selected()
    }

    /// The menu with the group cursor at `group`, and the entry cursor where
    /// it was if that group has an entry there, else at its first place.
    pub open spec fn at_group(self, group: nat) -> ModelView
        recommends
            group < self.entries.len(),
    {
        ModelView {
            idx_entrygroup: group,
            idx_entry: kept_or_first(self.idx_entry, self.entries[group as int].entries.len()),
            ..self
        }
    }

    /// The two menus differ in their cursors at most.
    pub open spec fn same_but_for_cursors(self, other: ModelView) -> bool {
        &&& self.file == other.file
        &&& self.entries == other.entries
        &&& self.running_state == other.running_state
        &&& self.current_screen == other.current_screen
    }

    /// Every group has an entry where the entry cursor is.
    pub open spec fn entry_cursor_fits_every_group(self) -> bool {
        forall|i: int|
            0 <= i < self.entries.len() ==> self.idx_entry < (#[trigger] self.entries[i]).entries.len()
    }

    /// Enter has something to open or to choose: both cursors point at
    /// something. A group without entries cannot be entered.
    pub open spec fn can_enter(self) -> bool {
        self.entry_selected()
    }

    /// The list that the current screen shows has an item to go to: a group
    /// on the main screen, an entry of the selected group on the secondary.
    pub open spec fn can_move(self) -> bool {
        match self.current_screen {
            CurrentScreen::Main => self.entries.len() > 0,
            CurrentScreen::Secondary => self.group_selected() && self.selected_group().entries.len()
                > 0,
        }
    }

    /// The menu after a step to the next item of the current screen, the
    /// first item coming after the last. A step to another group takes the
    /// entry cursor along if the group has an entry at that place, and puts
    /// it at the first place if not.
    pub open spec fn next_entry(self) -> ModelView
        recommends
            self.can_move(),
    {
        match self.current_screen {
            CurrentScreen::Main => self.at_group(
                ring_next(self.idx_entrygroup, self.entries.len()),
            ),
            CurrentScreen::Secondary => ModelView {
                idx_entry: ring_next(self.idx_entry, self.selected_group().entries.len()),
                ..self
            },
        }
    }

    /// The menu after a step to the previous item of the current screen,
    /// the last item coming before the first. A step to another group takes
    /// the entry cursor along if the group has an entry at that place, and
    /// puts it at the first place if not.
    pub open spec fn previous_entry(self) -> ModelView
        recommends
            self.can_move(),
    {
        match self.current_screen {
            CurrentScreen::Main => self.at_group(
                ring_previous(self.idx_entrygroup, self.entries.len()),
            ),
            CurrentScreen::Secondary => ModelView {
                idx_entry: ring_previous(self.idx_entry, self.selected_group().entries.len()),
                ..self
            },
        }
    }

    /// The menu after `times` steps to the next item.
    pub open spec fn next_entries(self, times: nat) -> ModelView
        decreases times,
    {
        if times == 0 {
            self
        } else {
            self.next_entries((times - 1) as nat).next_entry()
        }
    }

    /// The menu after `times` steps to the previous item.
    pub open spec fn previous_entries(self, times: nat) -> ModelView
        decreases times,
    {
        if times == 0 {
            self
        } else {
            self.previous_entries((times - 1) as nat).previous_entry()
        }
    }

    /// The menu after Enter: from the list of groups into the selected
    /// group, with both cursors where they were; on the entries of a group,
    /// the session is over and the selected entry is the one chosen.
    pub open spec fn enter(self) -> ModelView
        recommends
            self.can_enter(),
    {
        match self.current_screen {
            CurrentScreen::Main => ModelView { current_screen: CurrentScreen::Secondary, ..self },
            CurrentScreen::Secondary => ModelView { running_state: RunningState::Done, ..self },
        }
    }

    /// The menu after Back: the list of groups is shown, whichever screen
    /// was shown before.
    pub open spec fn back(self) -> ModelView {
        ModelView { current_screen: CurrentScreen::Main, ..self }
    }

    /// The menu after the store was read: what was stored comes behind the
    /// groups that are there, and the menu is in use.
    pub open spec fn load_from_cache(self, stored: Option<Seq<EntryGroupView>>) -> ModelView {
        ModelView {
            entries: match stored {
                Some(groups) => self.entries + groups,
                None => self.entries,
            },
            running_state: RunningState::Loaded,
            ..self
        }
    }

    /// The menu after its groups were stored: the session is over.
    pub open spec fn save_to_cache(self) -> ModelView {
        ModelView { running_state: RunningState::Done, ..self }
    }
}

impl View for Model {
    type V = ModelView;

    open spec fn view(&self) -> ModelView {
        ModelView {
            file: self.file@,
            entries: groups_view(self.entries@),
            running_state: self.running_state,
            idx_entrygroup: self.idx_entrygroup as nat,
            idx_entry: self.idx_entry as nat,
            current_screen: self.current_screen,
        }
    }
}

/// A step from the place of a count leads to the place of the count one
/// further, in either direction; a whole round leads nowhere; and a count
/// below `len` falls on its own place.
pub proof fn lemma_ring_step(count: int, len: nat)
    requires
        len > 0,
    ensures
        ring_next(ring_place(count, len), len) == ring_place(count + 1, len),
        ring_previous(ring_place(count, len), len) == ring_place(count - 1, len),
        ring_place(count + len, len) == ring_place(count, len),
        ring_place(count - len, len) == ring_place(count, len),
        ring_place(count, len) < len,
        0 <= count < len ==> ring_place(count, len) == count,
{
    let n = len as int;
    assert(0 <= count % n < n) by (nonlinear_arith)
        requires
            n > 0,
    ;
    assert(((count % n) + 1) % n == (count + 1) % n) by (nonlinear_arith)
        requires
            n > 0,
    ;
    assert(((count % n) - 1) % n == (count - 1) % n) by (nonlinear_arith)
        requires
            n > 0,
    ;
    assert((count + n) % n == count % n) by (nonlinear_arith)
        requires
            n > 0,
    ;
    assert((count - n) % n == count % n) by (nonlinear_arith)
        requires
            n > 0,
    ;
    if 0 <= count < n {
        assert(count % n == count) by (nonlinear_arith)
            requires
                0 <= count < n,
        ;
    }
}

impl Default for Model {
    /// The menu of a session that starts, with no place to store its
    /// groups.
    fn default() -> (model: Model)
        ensures
            model@ == ModelView::initial(Seq::empty()),
    {
        let model = Model {
            file: String::new(),
            entries: Vec::new(),
            running_state: RunningState::Empty,
            idx_entrygroup: 0,
            idx_entry: 0,
            current_screen: CurrentScreen::Main,
        };
        assert(model@.entries =~= Seq::empty());
        model
    }
}

impl Model {
    /// The menu of a session that starts, with its groups stored under
    /// `file`.
    pub fn new(file: String) -> (model: Model)
        ensures
            model.file == file,
            model@ == ModelView::initial(file@),
    {
        let model = Model {
            file,
            entries: Vec::new(),
            running_state: RunningState::Empty,
            idx_entrygroup: 0,
            idx_entry: 0,
            current_screen: CurrentScreen::Main,
        };
        assert(model@.entries =~= Seq::empty());
        model
    }

    /// Whether the group cursor points at a group.
    pub fn has_selected_group(&self) -> (yes: bool)
        ensures
            yes == self@.group_selected(),
    {
        self.idx_entrygroup < self.entries.len()
    }

    /// Whether both cursors point at something.
    pub fn has_selected_entry(&self) -> (yes: bool)
        ensures
            yes == self@.entry_selected(),
    {
        self.idx_entrygroup < self.entries.len() && self.idx_entry
            < self.entries[self.idx_entrygroup].entries.len()
    }

    /// Whether the list that the current screen shows has an item to go to.
    pub fn can_move(&self) -> (yes: bool)
        ensures
            yes == self@.can_move(),
    {
        match self.current_screen {
            CurrentScreen::Main => self.entries.len() > 0,
            CurrentScreen::Secondary => self.idx_entrygroup < self.entries.len()
                && self.entries[self.idx_entrygroup].entries.len() > 0,
        }
    }

    /// Whether Enter has something to open or to choose.
    pub fn can_enter(&self) -> (yes: bool)
        ensures
            yes == self@.can_enter(),
    {
        self.has_selected_entry()
    }

    /// Put the entry cursor at the first place unless the selected group has
    /// an entry where it is.
    fn settle_entry_cursor(&mut self)
        requires
            old(self)@.group_selected(),
        ensures
            final(self)@ == old(self)@.at_group(old(self)@.idx_entrygroup),
    {
        if self.idx_entry >= self.entries[self.idx_entrygroup].entries.len() {
            self.idx_entry = 0;
        }
    }

    /// The group that the group cursor points at.
    pub fn selected_group(&self) -> (group: &EntryGroup)
        requires
            self@.group_selected(),
        ensures
            *group == self.entries@[self.idx_entrygroup as int],
            group@ == self@.selected_group(),
    {
        &self.entries[self.idx_entrygroup]
    }

    /// The entry that the two cursors point at.
    pub fn selected_entry(&self) -> (entry: &Entry)
        requires
            self@.entry_selected(),
        ensures
            *entry == self.entries@[self.idx_entrygroup as int].entries@[self.idx_entry as int],
            entry@ == self@.selected_entry(),
    {
        &self.entries[self.idx_entrygroup].entries[self.idx_entry]
    }

    /// The command of the entry that the two cursors point at: what a
    /// session hands out when an entry was chosen.
    pub fn selected_command(&self) -> (command: String)
        requires
            self@.entry_selected(),
        ensures
            command@ == self@.selected_entry().command,
    {
        self.entries[self.idx_entrygroup].entries[self.idx_entry].command.clone()
    }

    /// Update entry/entrygroup cursor to highlight the next item: the next
    /// group on the main screen, the next entry of the selected group on the
    /// secondary. The first item comes after the last. On the main screen the
    /// entry cursor goes along with the group cursor: it stays where it is
    /// if the new group has an entry there, and goes to its first place if
    /// not.
    pub fn next_entry(&mut self)
        requires
            old(self)@.can_move(),
        ensures
            final(self)@ == old(self)@.next_entry(),
            final(self)@.current_screen == CurrentScreen::Main ==> final(self)@.group_selected(),
            final(self)@.current_screen == CurrentScreen::Secondary
                ==> final(self)@.entry_selected(),
            old(self)@.current_screen == CurrentScreen::Main
                && final(self)@.selected_group().entries.len() > 0
                ==> final(self)@.entry_selected(),
    {
        match self.current_screen {
            CurrentScreen::Main => {
                let len: usize = self.entries.len();
                proof {
                    lemma_ring_step(self.idx_entrygroup as int, len as nat);
                }
                self.idx_entrygroup = (self.idx_entrygroup % len + 1) % len;
                self.settle_entry_cursor();
            },
            CurrentScreen::Secondary => {
                let len: usize = self.entries[self.idx_entrygroup].entries.len();
                proof {
                    lemma_ring_step(self.idx_entry as int, len as nat);
                }
                self.idx_entry = (self.idx_entry % len + 1) % len;
            },
        }
    }

    /// Update entry/entrygroup cursor to highlight the previous item: the
    /// previous group on the main screen, the previous entry of the selected
    /// group on the secondary. The last item comes before the first. On the
    /// main screen the entry cursor goes along with the group cursor: it
    /// stays where it is if the new group has an entry there, and goes to
    /// its first place if not.
    pub fn previous_entry(&mut self)
        requires
            old(self)@.can_move(),
        ensures
            final(self)@ == old(self)@.previous_entry(),
            final(self)@.current_screen == CurrentScreen::Main ==> final(self)@.group_selected(),
            final(self)@.current_screen == CurrentScreen::Secondary
                ==> final(self)@.entry_selected(),
            old(self)@.current_screen == CurrentScreen::Main
                && final(self)@.selected_group().entries.len() > 0
                ==> final(self)@.entry_selected(),
    {
        match self.current_screen {
            CurrentScreen::Main => {
                let len: usize = self.entries.len();
                proof {
                    lemma_ring_step(self.idx_entrygroup - 1, len as nat);
                    lemma_ring_step(len - 1, len as nat);
                }
                self.idx_entrygroup = match self.idx_entrygroup {
                    0 => len - 1,
                    _ => (self.idx_entrygroup - 1) % len,
                };
                self.settle_entry_cursor();
            },
            CurrentScreen::Secondary => {
                let len: usize = self.entries[self.idx_entrygroup].entries.len();
                proof {
                    lemma_ring_step(self.idx_entry - 1, len as nat);
                    lemma_ring_step(len - 1, len as nat);
                }
                self.idx_entry = match self.idx_entry {
                    0 => len - 1,
                    _ => (self.idx_entry - 1) % len,
                };
            },
        }
    }

    /// Enter: on the main screen, show the entries of the selected group,
    /// with both cursors where they were; on the secondary screen, end the
    /// session with the selected entry as the one chosen. Either way both
    /// cursors have to point at something: a group without entries is not
    /// entered.
    pub fn enter(&mut self)
        requires
            old(self)@.can_enter(),
        ensures
            final(self)@ == old(self)@.enter(),
            final(self)@.entry_selected(),
            old(self)@.current_screen == CurrentScreen::Main ==> {
                &&& final(self)@.current_screen == CurrentScreen::Secondary
                &&& final(self)@.idx_entrygroup == old(self)@.idx_entrygroup
                &&& final(self)@.idx_entry == old(self)@.idx_entry
            },
    {
        match self.current_screen {
            CurrentScreen::Main => {
                self.current_screen = CurrentScreen::Secondary;
            },
            CurrentScreen::Secondary => {
                self.running_state = RunningState::Done;
            },
        }
    }

    /// Back: show the list of groups, with both cursors where they were.
    pub fn back(&mut self)
        ensures
            final(self)@ == old(self)@.back(),
            final(self)@.current_screen == CurrentScreen::Main,
            final(self)@.idx_entry == old(self)@.idx_entry,
    {
        self.current_screen = CurrentScreen::Main;
    }

    /// Take in what a read of the store handed over: `None` where nothing
    /// was stored under `file`, which is how a first session starts. The
    /// groups come behind those that are there, so a second call doubles
    /// them. After the call the menu is in use.
    pub fn load_from_cache(&mut self, stored: Option<Vec<EntryGroup>>)
        requires
            old(self)@.file.len() > 0,
        ensures
            final(self)@ == old(self)@.load_from_cache(stored_view(stored)),
            final(self)@.running_state == RunningState::Loaded,
            stored is None ==> final(self)@.entries == old(self)@.entries,
    {
        match stored {
            Some(groups) => {
                let mut groups = groups;
                let ghost before = self.entries@;
                let ghost added = groups@;
                self.entries.append(&mut groups);
                assert(groups_view(self.entries@) =~= groups_view(before) + groups_view(added));
            },
            None => {},
        }
        self.running_state = RunningState::Loaded;
    }

    /// Mark that the groups were stored under `file`: the session is over.
    pub fn save_to_cache(&mut self)
        requires
            old(self)@.file.len() > 0,
        ensures
            final(self)@ == old(self)@.save_to_cache(),
            final(self)@.running_state == RunningState::Done,
    {
        self.running_state = RunningState::Done;
    }
}

} // verus!
