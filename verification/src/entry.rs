use vstd::prelude::*;
use vstd::std_specs::cmp::PartialEqSpecImpl;

verus! {

/// What an [`Entry`] holds, as text.
pub struct EntryView {
    pub command: Seq<char>,
    pub short_info: Seq<char>,
    pub long_info: Seq<char>,
}

/// What an [`EntryGroup`] holds, as text.
pub struct EntryGroupView {
    pub description: Seq<char>,
    pub entries: Seq<EntryView>,
}

/// One command that can be chosen: the command itself, a line that says
/// what it does, and a longer text to explain it or give an example.
#[derive(Debug)]
pub struct Entry {
    pub command: String,
    pub short_info: String,
    pub long_info: String,
}

/// Commands that belong together under one description, in the order in
/// which they are shown.
/// e.g. cmake - 1. create build files 2. build 3. install
#[derive(Debug)]
pub struct EntryGroup {
    pub description: String,
    pub entries: Vec<Entry>,
}

/// The views of the entries of a group, in their order.
pub open spec fn entries_view(entries: Seq<Entry>) -> Seq<EntryView> {
    Seq::new(entries.len(), |i: int| entries[i]@)
}

/// The views of groups, in their order.
pub open spec fn groups_view(groups: Seq<EntryGroup>) -> Seq<EntryGroupView> {
    Seq::new(groups.len(), |i: int| groups[i]@)
}

impl View for Entry {
    type V = EntryView;

    open spec fn view(&self) -> EntryView {
        EntryView {
            command: self.command@,
            short_info: self.short_info@,
            long_info: self.long_info@,
        }
    }
}

impl View for EntryGroup {
    type V = EntryGroupView;

    open spec fn view(&self) -> EntryGroupView {
        EntryGroupView {
            description: self.description@,
            entries: entries_view(self.entries@),
        }
    }
}

impl Default for Entry {
    /// The entry whose three texts are empty.
    fn default() -> (entry: Entry)
        ensures
            entry@.command.len() == 0,
            entry@.short_info.len() == 0,
            entry@.long_info.len() == 0,
    {
        Entry { command: String::new(), short_info: String::new(), long_info: String::new() }
    }
}

impl Clone for Entry {
    fn clone(&self) -> (copy: Entry)
        ensures
            copy@ == self@,
    {
        Entry {
            command: self.command.clone(),
            short_info: self.short_info.clone(),
            long_info: self.long_info.clone(),
        }
    }
}

impl PartialEq for Entry {
    fn eq(&self, other: &Entry) -> (equal: bool) {
        self.command == other.command && self.short_info == other.short_info && self.long_info
            == other.long_info
    }
}

impl PartialEqSpecImpl for Entry {
    open spec fn obeys_eq_spec() -> bool {
        true
    }

    /// Two entries are equal when their three texts are.
    open spec fn eq_spec(&self, other: &Entry) -> bool {
        self@ == other@
    }
}

impl Eq for Entry {

}

impl EntryGroup {
    /// The group with this description and these entries, taken as they
    /// are: a group without entries can be made.
    pub fn new(description: String, entries: Vec<Entry>) -> (group: EntryGroup)
        ensures
            group.description == description,
            group.entries == entries,
    {
        EntryGroup { description, entries }
    }
}

impl Default for EntryGroup {
    /// The group with an empty description and no entries.
    fn default() -> (group: EntryGroup)
        ensures
            group@.description.len() == 0,
            group@.entries.len() == 0,
    {
        EntryGroup { description: String::new(), entries: Vec::new() }
    }
}

impl Clone for EntryGroup {
    fn clone(&self) -> (copy: EntryGroup)
        ensures
            copy@ == self@,
    {
        let mut entries: Vec<Entry> = Vec::new();
        let mut i: usize = 0;
        while i < self.entries.len()
            invariant
                i <= self.entries.len(),
                entries@.len() == i,
                forall|k: int| 0 <= k < i ==> entries@[k]@ == self.entries@[k]@,
            decreases self.entries.len() - i,
        {
            entries.push(self.entries[i].clone());
            i += 1;
        }
        assert(entries_view(entries@) =~= entries_view(self.entries@));
        EntryGroup { description: self.description.clone(), entries }
    }
}

impl PartialEq for EntryGroup {
    fn eq(&self, other: &EntryGroup) -> (equal: bool) {
        if self.description != other.description || self.entries.len() != other.entries.len() {
            assert(self@.entries.len() == self.entries@.len());
            assert(other@.entries.len() == other.entries@.len());
            return false;
        }
        let mut i: usize = 0;
        while i < self.entries.len()
            invariant
                i <= self.entries.len(),
                self.entries.len() == other.entries.len(),
                forall|k: int| 0 <= k < i ==> self.entries@[k]@ == other.entries@[k]@,
            decreases self.entries.len() - i,
        {
            if self.entries[i] != other.entries[i] {
                assert(self@.entries[i as int] == self.entries@[i as int]@);
                assert(other@.entries[i as int] == other.entries@[i as int]@);
                return false;
            }
            i += 1;
        }
        assert(self@.entries =~= other@.entries);
        true
    }
}

impl PartialEqSpecImpl for EntryGroup {
    open spec fn obeys_eq_spec() -> bool {
        true
    }

    /// Two groups are equal when their descriptions are and they hold equal
    /// entries in the same order.
    open spec fn eq_spec(&self, other: &EntryGroup) -> bool {
        self@ == other@
    }
}

impl Eq for EntryGroup {

}

} // verus!
