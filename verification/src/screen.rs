use crate::model::{CurrentScreen, Model, ModelView, RunningState};
use vstd::prelude::*;
use vstd::string::StringExecFns;

verus! {

/// What the main screen shows.
#[derive(Debug)]
pub struct MainScreen {
    /// One line for each group: a bullet and the group's description.
    pub groups: Vec<String>,
    /// The line of `groups` that is highlighted.
    pub selected: usize,
    /// The short text of each entry of the selected group.
    pub preview: Vec<String>,
}

/// What the secondary screen shows.
#[derive(Debug)]
pub struct SecondaryScreen {
    /// The command of each entry of the selected group.
    pub commands: Vec<String>,
    /// The line of `commands` that is highlighted.
    pub selected: usize,
    /// The long text of the selected entry.
    pub long_info: String,
}

/// What there is to draw.
#[derive(Debug)]
pub enum Scene {
    /// Nothing yet.
    Blank,
    Main(MainScreen),
    Secondary(SecondaryScreen),
}

/// A [`MainScreen`] as a value.
pub struct MainScreenView {
    pub groups: Seq<Seq<char>>,
    pub selected: nat,
    pub preview: Seq<Seq<char>>,
}

/// A [`SecondaryScreen`] as a value.
pub struct SecondaryScreenView {
    pub commands: Seq<Seq<char>>,
    pub selected: nat,
    pub long_info: Seq<char>,
}

/// A [`Scene`] as a value.
pub enum SceneView {
    Blank,
    Main(MainScreenView),
    Secondary(SecondaryScreenView),
}

/// The texts of lines, in their order.
pub open spec fn lines_view(lines: Seq<String>) -> Seq<Seq<char>> {
    Seq::new(lines.len(), |i: int| lines[i]@)
}

/// The line that stands for a group in the list of groups.
pub open spec fn group_label(description: Seq<char>) -> Seq<char> {
    "· "@ + description
}

impl View for MainScreen {
    type V = MainScreenView;

    open spec fn view(&self) -> MainScreenView {
        MainScreenView {
            groups: lines_view(self.groups@),
            selected: self.selected as nat,
            preview: lines_view(self.preview@),
        }
    }
}

impl View for SecondaryScreen {
    type V = SecondaryScreenView;

    open spec fn view(&self) -> SecondaryScreenView {
        SecondaryScreenView {
            commands: lines_view(self.commands@),
            selected: self.selected as nat,
            long_info: self.long_info@,
        }
    }
}

impl View for Scene {
    type V = SceneView;

    open spec fn view(&self) -> SceneView {
        match self {
            Scene::Blank => SceneView::Blank,
            Scene::Main(screen) => SceneView::Main(screen@),
            Scene::Secondary(screen) => SceneView::Secondary(screen@),
        }
    }
}

impl ModelView {
    /// What the main screen shows of the menu: the labels of all groups,
    /// the group cursor, and the short texts of the selected group.
    pub open spec fn main_screen(self) -> MainScreenView
        recommends
            self.group_selected(),
    {
        MainScreenView {
            groups: Seq::new(
                self.entries.len(),
                |i: int| group_label(self.entries[i].description),
            ),
            selected: self.idx_entrygroup,
            preview: Seq::new(
                self.selected_group().entries.len(),
                |i: int| self.selected_group().entries[i].short_info,
            ),
        }
    }

    /// What the secondary screen shows of the menu: the commands of the
    /// selected group, the entry cursor, and the long text of the selected
    /// entry.
    pub open spec fn secondary_screen(self) -> SecondaryScreenView
        recommends
            self.entry_selected(),
    {
        SecondaryScreenView {
            commands: Seq::new(
                self.selected_group().entries.len(),
                |i: int| self.selected_group().entries[i].command,
            ),
            selected: self.idx_entry,
            long_info: self.selected_entry().long_info,
        }
    }

    /// Nothing is drawn on the main screen before the store was taken in.
    pub open spec fn blank(self) -> bool {
        self.current_screen == CurrentScreen::Main && self.running_state == RunningState::Empty
    }

    /// The cursors point at what the current screen shows: nothing where
    /// nothing is drawn, a group for the main screen, an entry of the
    /// selected group for the secondary screen.
    pub open spec fn drawable(self) -> bool {
        match self.current_screen {
            CurrentScreen::Main => self.blank() || self.group_selected(),
            CurrentScreen::Secondary => self.entry_selected(),
        }
    }

    /// What there is to draw of the menu.
    pub open spec fn scene(self) -> SceneView
        recommends
            self.drawable(),
    {
        match self.current_screen {
            CurrentScreen::Main => if self.blank() {
                SceneView::Blank
            } else {
                SceneView::Main(self.main_screen())
            },
            CurrentScreen::Secondary => SceneView::Secondary(self.secondary_screen()),
        }
    }
}

impl Model {
    /// Whether the cursors point at what the current screen shows, so that
    /// [`view`] can be called.
    pub fn drawable(&self) -> (yes: bool)
        ensures
            yes == self@.drawable(),
    {
        match self.current_screen {
            CurrentScreen::Main => match self.running_state {
                RunningState::Empty => true,
                _ => self.has_selected_group(),
            },
            CurrentScreen::Secondary => self.has_selected_entry(),
        }
    }
}

/// What the main screen shows of the menu.
pub fn main_screen(model: &Model) -> (screen: MainScreen)
    requires
        model@.group_selected(),
    ensures
        screen@ == model@.main_screen(),
{
    let mut groups: Vec<String> = Vec::new();
    let mut i: usize = 0;
    while i < model.entries.len()
        invariant
            i <= model.entries.len(),
            groups@.len() == i,
            forall|k: int|
                0 <= k < i ==> (#[trigger] groups@[k])@ == group_label(
                    model.entries@[k].description@,
                ),
        decreases model.entries.len() - i,
    {
        let mut label = "· ".to_owned();
        label.append(model.entries[i].description.as_str());
        groups.push(label);
        i += 1;
    }
    let group = model.selected_group();
    let mut preview: Vec<String> = Vec::new();
    let mut j: usize = 0;
    while j < group.entries.len()
        invariant
            j <= group.entries.len(),
            preview@.len() == j,
            forall|k: int|
                0 <= k < j ==> (#[trigger] preview@[k])@ == group.entries@[k].short_info@,
        decreases group.entries.len() - j,
    {
        preview.push(group.entries[j].short_info.clone());
        j += 1;
    }
    let screen = MainScreen { groups, selected: model.idx_entrygroup, preview };
    assert(screen@.groups =~= model@.main_screen().groups);
    assert(screen@.preview =~= model@.main_screen().preview);
    screen
}

/// What the secondary screen shows of the menu.
pub fn secondary_screen(model: &Model) -> (screen: SecondaryScreen)
    requires
        model@.entry_selected(),
    ensures
        screen@ == model@.secondary_screen(),
{
    let group = model.selected_group();
    let mut commands: Vec<String> = Vec::new();
    let mut j: usize = 0;
    while j < group.entries.len()
        invariant
            j <= group.entries.len(),
            commands@.len() == j,
            forall|k: int| 0 <= k < j ==> (#[trigger] commands@[k])@ == group.entries@[k].command@,
        decreases group.entries.len() - j,
    {
        commands.push(group.entries[j].command.clone());
        j += 1;
    }
    let long_info = model.selected_entry().long_info.clone();
    let screen = SecondaryScreen { commands, selected: model.idx_entry, long_info };
    assert(screen@.commands =~= model@.secondary_screen().commands);
    screen
}

/// What there is to draw of the menu: nothing on the main screen before
/// the store was taken in, else what the current screen shows.
pub fn view(model: &Model) -> (scene: Scene)
    requires
        model@.drawable(),
    ensures
        scene@ == model@.scene(),
{
    match model.current_screen {
        CurrentScreen::Main => match model.running_state {
            RunningState::Empty => Scene::Blank,
            _ => Scene::Main(main_screen(model)),
        },
        CurrentScreen::Secondary => Scene::Secondary(secondary_screen(model)),
    }
}

} // verus!
