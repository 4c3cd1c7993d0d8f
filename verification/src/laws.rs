use crate::entry::EntryGroupView;
use crate::message::{Effect, Message};
use crate::model::{
    lemma_ring_step, ring_next, ring_place, ring_previous, CurrentScreen, ModelView, RunningState,
};
use vstd::prelude::*;

verus! {

/// Steps on the main screen move the group cursor round the groups. They
/// change nothing but the cursors, and leave the entry cursor too where
/// every group has an entry at its place.
proof fn lemma_steps_on_main(m: ModelView, times: nat)
    requires
        m.current_screen == CurrentScreen::Main,
        m.entries.len() > 0,
        times > 0,
    ensures
        m.next_entries(times).idx_entrygroup == ring_place(
            (m.idx_entrygroup + times) as int,
            m.entries.len(),
        ),
        m.previous_entries(times).idx_entrygroup == ring_place(
            m.idx_entrygroup - times,
            m.entries.len(),
        ),
        m.next_entries(times).same_but_for_cursors(m),
        m.previous_entries(times).same_but_for_cursors(m),
        m.entry_cursor_fits_every_group() ==> {
            &&& m.next_entries(times).idx_entry == m.idx_entry
            &&& m.previous_entries(times).idx_entry == m.idx_entry
        },
    decreases times,
{
    let before = (times - 1) as nat;
    let len = m.entries.len();
    if before > 0 {
        lemma_steps_on_main(m, before);
        lemma_ring_step((m.idx_entrygroup + before) as int, len);
        lemma_ring_step(m.idx_entrygroup - before, len);
    } else {
        assert(m.next_entries(0) == m);
        assert(m.previous_entries(0) == m);
        lemma_ring_step((m.idx_entrygroup + 1) as int, len);
        lemma_ring_step(m.idx_entrygroup - 1, len);
    }
}

/// Steps on the secondary screen move the entry cursor round the entries
/// of the selected group and leave the rest of the menu as it is.
proof fn lemma_steps_on_secondary(m: ModelView, times: nat)
    requires
        m.current_screen == CurrentScreen::Secondary,
        m.group_selected(),
        m.selected_group().entries.len() > 0,
        times > 0,
    ensures
        m.next_entries(times) == (ModelView {
            idx_entry: ring_place((m.idx_entry + times) as int, m.selected_group().entries.len()),
            ..m
        }),
        m.previous_entries(times) == (ModelView {
            idx_entry: ring_place(m.idx_entry - times, m.selected_group().entries.len()),
            ..m
        }),
    decreases times,
{
    let before = (times - 1) as nat;
    let len = m.selected_group().entries.len();
    if before > 0 {
        lemma_steps_on_secondary(m, before);
        lemma_ring_step((m.idx_entry + before) as int, len);
        lemma_ring_step(m.idx_entry - before, len);
    } else {
        assert(m.next_entries(0) == m);
        assert(m.previous_entries(0) == m);
    }
}

/// In a ring, the place before the next place and the place after the
/// previous place are the place itself.
proof fn lemma_ring_undo(cursor: nat, len: nat)
    requires
        cursor < len,
    ensures
        ring_previous(ring_next(cursor, len), len) == cursor,
        ring_next(ring_previous(cursor, len), len) == cursor,
        ring_next(cursor, len) < len,
        ring_previous(cursor, len) < len,
{
    lemma_ring_step(cursor as int, len);
    lemma_ring_step((cursor + 1) as int, len);
    lemma_ring_step(cursor - 1, len);
}

/// On the main screen, with the group cursor at a group, as many steps to
/// the next group as there are groups lead back to the same group, and so
/// do as many steps to the previous group. Nothing but the cursors has
/// changed by then, and where every group has an entry at the place of the
/// entry cursor the menu is the same as before.
pub proof fn lemma_group_cursor_cycles(m: ModelView)
    requires
        m.current_screen == CurrentScreen::Main,
        m.group_selected(),
    ensures
        m.next_entries(m.entries.len()).idx_entrygroup == m.idx_entrygroup,
        m.previous_entries(m.entries.len()).idx_entrygroup == m.idx_entrygroup,
        m.next_entries(m.entries.len()).same_but_for_cursors(m),
        m.previous_entries(m.entries.len()).same_but_for_cursors(m),
        m.entry_cursor_fits_every_group() ==> {
            &&& m.next_entries(m.entries.len()) == m
            &&& m.previous_entries(m.entries.len()) == m
        },
{
    lemma_steps_on_main(m, m.entries.len());
    lemma_ring_step(m.idx_entrygroup as int, m.entries.len());
}

/// On the secondary screen, with both cursors at something, as many steps
/// to the next entry as the selected group has entries lead back to the
/// same menu, and so do as many steps to the previous entry.
pub proof fn lemma_entry_cursor_cycles(m: ModelView)
    requires
        m.current_screen == CurrentScreen::Secondary,
        m.entry_selected(),
    ensures
        m.next_entries(m.selected_group().entries.len()) == m,
        m.previous_entries(m.selected_group().entries.len()) == m,
        m.next_entries(m.selected_group().entries.len()).idx_entry == m.idx_entry,
        m.previous_entries(m.selected_group().entries.len()).idx_entry == m.idx_entry,
{
    let len = m.selected_group().entries.len();
    lemma_steps_on_secondary(m, len);
    lemma_ring_step(m.idx_entry as int, len);
}

/// A step to the next item and a step to the previous item undo each
/// other, where the cursor of the current screen points at something: on
/// the secondary screen the menu is the same as before; on the main screen
/// the group cursor is, nothing but the cursors has changed, and the entry
/// cursor is the same too where the group in between has an entry at its
/// place.
pub proof fn lemma_next_and_previous_undo(m: ModelView)
    requires
        m.current_screen == CurrentScreen::Main ==> m.group_selected(),
        m.current_screen == CurrentScreen::Secondary ==> m.entry_selected(),
    ensures
        m.next_entry().previous_entry().idx_entrygroup == m.idx_entrygroup,
        m.previous_entry().next_entry().idx_entrygroup == m.idx_entrygroup,
        m.next_entry().previous_entry().same_but_for_cursors(m),
        m.previous_entry().next_entry().same_but_for_cursors(m),
        m.current_screen == CurrentScreen::Secondary ==> {
            &&& m.next_entry().previous_entry() == m
            &&& m.previous_entry().next_entry() == m
        },
        m.entry_selected() && m.idx_entry < m.next_entry().selected_group().entries.len()
            ==> m.next_entry().previous_entry() == m,
        m.entry_selected() && m.idx_entry < m.previous_entry().selected_group().entries.len()
            ==> m.previous_entry().next_entry() == m,
{
    match m.current_screen {
        CurrentScreen::Main => {
            lemma_ring_undo(m.idx_entrygroup, m.entries.len());
        },
        CurrentScreen::Secondary => {
            lemma_ring_undo(m.idx_entry, m.selected_group().entries.len());
        },
    }
}

/// A move on the main screen always ends at a group, and at an entry of it
/// unless it has none; a move on the secondary screen always ends at an
/// entry of the selected group; wherever the cursors stood before.
pub proof fn lemma_moves_end_in_range(m: ModelView)
    requires
        m.can_move(),
    ensures
        m.next_entry().group_selected(),
        m.previous_entry().group_selected(),
        m.next_entry().selected_group().entries.len() > 0 ==> m.next_entry().entry_selected(),
        m.previous_entry().selected_group().entries.len() > 0
            ==> m.previous_entry().entry_selected(),
{
    match m.current_screen {
        CurrentScreen::Main => {
            lemma_ring_step((m.idx_entrygroup + 1) as int, m.entries.len());
            lemma_ring_step(m.idx_entrygroup - 1, m.entries.len());
        },
        CurrentScreen::Secondary => {
            lemma_ring_step((m.idx_entry + 1) as int, m.selected_group().entries.len());
            lemma_ring_step(m.idx_entry - 1, m.selected_group().entries.len());
        },
    }
}

/// Enter on the main screen shows the secondary screen and moves neither
/// cursor; Back on the secondary screen shows the main screen and moves
/// neither cursor. Going in and out again changes nothing.
pub proof fn lemma_enter_and_back_keep_cursors(m: ModelView)
    ensures
        m.current_screen == CurrentScreen::Main ==> {
            &&& m.enter().current_screen == CurrentScreen::Secondary
            &&& m.enter().idx_entrygroup == m.idx_entrygroup
            &&& m.enter().idx_entry == m.idx_entry
            &&& m.enter().back() == m
        },
        m.current_screen == CurrentScreen::Secondary ==> {
            &&& m.back().current_screen == CurrentScreen::Main
            &&& m.back().idx_entry == m.idx_entry
            &&& m.back().idx_entrygroup == m.idx_entrygroup
            &&& m.back().enter() == m
        },
        m.current_screen == CurrentScreen::Main ==> m.back() == m,
        m.can_enter() ==> m.enter().entry_selected(),
{
}

/// A session starts well formed, and a first read of a store that holds
/// nothing leaves the menu without groups, in use and well formed.
pub proof fn lemma_first_load_of_nothing(file: Seq<char>)
    ensures
        ModelView::initial(file).well_formed(),
        ModelView::initial(file).load_from_cache(None).entries == Seq::<EntryGroupView>::empty(),
        ModelView::initial(file).load_from_cache(None).running_state == RunningState::Loaded,
        ModelView::initial(file).load_from_cache(None).well_formed(),
        ModelView::initial(file).load_from_cache(None).cursors_in_range(),
{
}

/// A first read hands the menu just the groups that were stored, in their
/// order, with both cursors at the first entry of the first group where
/// there is one.
pub proof fn lemma_first_load(file: Seq<char>, stored: Seq<EntryGroupView>)
    ensures
        ModelView::initial(file).load_from_cache(Some(stored)).entries == stored,
        ModelView::initial(file).load_from_cache(Some(stored)).running_state
            == RunningState::Loaded,
        ModelView::initial(file).load_from_cache(Some(stored)).well_formed(),
        stored.len() > 0 && stored[0].entries.len() > 0
            ==> ModelView::initial(file).load_from_cache(Some(stored)).entry_selected(),
{
    assert(Seq::<EntryGroupView>::empty() + stored =~= stored);
}

/// A well formed menu whose groups all have entries has both cursors in
/// range.
pub proof fn lemma_well_formed_is_in_range(m: ModelView)
    requires
        m.well_formed(),
        m.every_group_has_an_entry(),
    ensures
        m.cursors_in_range(),
{
}

/// Every message that the menu can take leaves a well formed menu well
/// formed, and changes neither the groups nor the name of the store.
pub proof fn lemma_update_keeps_well_formed(m: ModelView, msg: Message)
    requires
        m.well_formed(),
        m.accepts(msg),
    ensures
        m.update(msg).well_formed(),
        m.update(msg).entries == m.entries,
        m.update(msg).file == m.file,
{
    if m.can_move() {
        lemma_moves_end_in_range(m);
    }
}

/// Where no group is without entries and both cursors point at something,
/// they still do after any message that the menu can take.
pub proof fn lemma_update_keeps_cursors_in_range(m: ModelView, msg: Message)
    requires
        m.cursors_in_range(),
        m.every_group_has_an_entry(),
        m.accepts(msg),
    ensures
        m.update(msg).cursors_in_range(),
        m.update(msg).every_group_has_an_entry(),
        m.update(msg).entries == m.entries,
        m.update(msg).file == m.file,
{
    if m.can_move() {
        lemma_moves_end_in_range(m);
    }
}

/// The work on the store that a step asked for leaves a well formed menu
/// well formed, whatever was stored. Where no group is without entries,
/// neither in the menu nor in what was stored, both cursors are in range
/// afterwards.
pub proof fn lemma_complete_keeps_well_formed(
    m: ModelView,
    effect: Effect,
    stored: Option<Seq<EntryGroupView>>,
)
    requires
        m.well_formed(),
    ensures
        m.complete(effect, stored).well_formed(),
        m.load_from_cache(stored).well_formed(),
        m.save_to_cache().well_formed(),
        m.every_group_has_an_entry() && (stored matches Some(groups) ==> forall|i: int|
            0 <= i < groups.len() ==> (#[trigger] groups[i]).entries.len() > 0) ==> {
            &&& m.complete(effect, stored).every_group_has_an_entry()
            &&& m.complete(effect, stored).cursors_in_range()
        },
{
    match stored {
        Some(groups) => {
            if m.entries.len() == 0 {
                assert(m.entries + groups =~= groups);
            }
        },
        None => {},
    }
}

/// `Quit` and the write that it asks for end the session, with the groups
/// and the cursors as they were. `Init` and the read that it asks for take
/// in what was stored. Every other message asks for no work on the store.
pub proof fn lemma_store_messages(m: ModelView, msg: Message, stored: Option<Seq<EntryGroupView>>)
    ensures
        msg.effect() == Effect::WriteCache <==> msg == Message::Quit,
        msg.effect() == Effect::ReadCache <==> msg == Message::Init,
        m.update_and_complete(Message::Quit, stored) == m.save_to_cache(),
        m.update_and_complete(Message::Quit, stored).running_state == RunningState::Done,
        m.update_and_complete(Message::Quit, stored).entries == m.entries,
        m.update_and_complete(Message::Quit, stored).idx_entrygroup == m.idx_entrygroup,
        m.update_and_complete(Message::Quit, stored).idx_entry == m.idx_entry,
        m.update_and_complete(Message::Quit, stored).current_screen == m.current_screen,
        m.update_and_complete(Message::Init, stored) == m.load_from_cache(stored),
        m.update_and_complete(Message::Init, stored).running_state == RunningState::Loaded,
        msg.effect() == Effect::Nothing ==> m.update_and_complete(msg, stored) == m.update(msg),
{
}

/// A session only goes forward: no message takes it back to an earlier
/// state, storing ends it, and taking in the store takes nothing back
/// unless the session was over.
pub proof fn lemma_session_only_advances(
    m: ModelView,
    msg: Message,
    stored: Option<Seq<EntryGroupView>>,
)
    ensures
        m.running_state.progress() <= m.update(msg).running_state.progress(),
        m.running_state.progress() <= m.save_to_cache().running_state.progress(),
        m.running_state != RunningState::Done ==> m.running_state.progress()
            <= m.load_from_cache(stored).running_state.progress(),
        m.update(msg).running_state != m.running_state ==> msg == Message::Enter
            && m.current_screen == CurrentScreen::Secondary && m.update(msg).running_state
            == RunningState::Done,
{
}

} // verus!
