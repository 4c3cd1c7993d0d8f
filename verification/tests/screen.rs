use cmdmenu::entry::{Entry, EntryGroup};
use cmdmenu::model::{CurrentScreen, Model, RunningState};
use cmdmenu::screen::{main_screen, secondary_screen, view, Scene};

fn menu() -> Model {
    let mut model = Model::new("menu.json".to_owned());
    model.load_from_cache(Some(vec![
        EntryGroup::new(
            "build".to_owned(),
            vec![
                Entry {
                    command: "make".to_owned(),
                    short_info: "build".to_owned(),
                    long_info: "runs make".to_owned(),
                },
                Entry {
                    command: "make install".to_owned(),
                    short_info: "install".to_owned(),
                    long_info: "copies what was built".to_owned(),
                },
            ],
        ),
        EntryGroup::new(
            "test".to_owned(),
            vec![Entry {
                command: "make check".to_owned(),
                short_info: "check".to_owned(),
                long_info: "".to_owned(),
            }],
        ),
        EntryGroup::new("".to_owned(), vec![]),
    ]));
    model
}

#[test]
fn nothing_is_drawn_before_the_store_was_taken_in() {
    let model = Model::new("menu.json".to_owned());
    assert!(model.drawable());
    assert!(matches!(view(&model), Scene::Blank));
    let unnamed = Model::default();
    assert!(unnamed.drawable());
    assert!(matches!(view(&unnamed), Scene::Blank));
}

#[test]
fn the_main_screen_lists_the_groups_and_previews_the_selected() {
    let mut model = menu();
    let screen = main_screen(&model);
    assert_eq!(screen.groups, vec!["\u{b7} build", "\u{b7} test", "\u{b7} "]);
    assert_eq!(screen.selected, 0);
    assert_eq!(screen.preview, vec!["build", "install"]);
    model.next_entry();
    let screen = main_screen(&model);
    assert_eq!(screen.groups, vec!["\u{b7} build", "\u{b7} test", "\u{b7} "]);
    assert_eq!(screen.selected, 1);
    assert_eq!(screen.preview, vec!["check"]);
    model.next_entry();
    let screen = main_screen(&model);
    assert_eq!(screen.selected, 2);
    assert!(screen.preview.is_empty());
}

#[test]
fn the_secondary_screen_lists_the_commands_and_explains_the_selected() {
    let mut model = menu();
    model.enter();
    let screen = secondary_screen(&model);
    assert_eq!(screen.commands, vec!["make", "make install"]);
    assert_eq!(screen.selected, 0);
    assert_eq!(screen.long_info, "runs make");
    model.next_entry();
    let screen = secondary_screen(&model);
    assert_eq!(screen.commands, vec!["make", "make install"]);
    assert_eq!(screen.selected, 1);
    assert_eq!(screen.long_info, "copies what was built");
}

#[test]
fn view_follows_the_current_screen() {
    let mut model = menu();
    assert!(model.drawable());
    match view(&model) {
        Scene::Main(screen) => {
            assert_eq!(screen.groups.len(), 3);
            assert_eq!(screen.selected, 0);
            assert_eq!(screen.preview, vec!["build", "install"]);
        }
        other => panic!("the main screen was expected, not {:?}", other),
    }
    model.next_entry();
    model.enter();
    assert!(model.drawable());
    match view(&model) {
        Scene::Secondary(screen) => {
            assert_eq!(screen.commands, vec!["make check"]);
            assert_eq!(screen.selected, 0);
            assert_eq!(screen.long_info, "");
        }
        other => panic!("the secondary screen was expected, not {:?}", other),
    }
    model.enter();
    assert_eq!(model.running_state, RunningState::Done);
    assert!(matches!(view(&model), Scene::Secondary(_)));
}

#[test]
fn the_secondary_screen_is_drawn_even_before_the_store_was_taken_in() {
    let mut model = Model::new("menu.json".to_owned());
    model.entries = vec![EntryGroup::new(
        "g".to_owned(),
        vec![Entry {
            command: "c".to_owned(),
            short_info: "s".to_owned(),
            long_info: "l".to_owned(),
        }],
    )];
    model.current_screen = CurrentScreen::Secondary;
    assert_eq!(model.running_state, RunningState::Empty);
    assert!(model.drawable());
    assert!(matches!(view(&model), Scene::Secondary(_)));
}

#[test]
fn a_screen_is_drawable_when_its_cursors_point_at_something() {
    let mut model = Model::new("menu.json".to_owned());
    model.load_from_cache(None);
    assert!(!model.drawable());
    model.current_screen = CurrentScreen::Secondary;
    assert!(!model.drawable());
    let mut model = menu();
    model.idx_entry = 3;
    assert!(model.drawable());
    model.current_screen = CurrentScreen::Secondary;
    assert!(!model.drawable());
    model.idx_entry = 1;
    assert!(model.drawable());
    model.idx_entrygroup = 2;
    assert!(!model.drawable());
    model.current_screen = CurrentScreen::Main;
    assert!(model.drawable());
    model.idx_entrygroup = 3;
    assert!(!model.drawable());
}

#[test]
fn moves_and_enter_keep_the_menu_drawable() {
    let mut model = menu();
    model.enter();
    model.next_entry();
    model.back();
    assert_eq!(model.idx_entry, 1);
    assert!(model.drawable());
    model.next_entry();
    assert_eq!(model.idx_entrygroup, 1);
    assert_eq!(model.idx_entry, 0);
    assert!(model.drawable());
    assert!(model.can_enter());
    model.enter();
    assert!(model.drawable());
    match view(&model) {
        Scene::Secondary(screen) => {
            assert_eq!(screen.commands, vec!["make check"]);
            assert_eq!(screen.selected, 0);
        }
        other => panic!("the secondary screen was expected, not {:?}", other),
    }
    model.back();
    model.next_entry();
    assert_eq!(model.idx_entrygroup, 2);
    assert_eq!(model.idx_entry, 0);
    assert!(model.drawable());
    assert!(!model.can_enter());
    model.previous_entry();
    model.previous_entry();
    assert_eq!(model.idx_entrygroup, 0);
    assert_eq!(model.idx_entry, 0);
    assert!(model.drawable());
    assert!(model.can_enter());
}
