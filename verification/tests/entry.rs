use cmdmenu::entry::{Entry, EntryGroup};

#[test]
fn create_default_entry() {
    let entry = Entry::default();
    assert_eq!(entry.command.len(), 0);
    assert_eq!(entry.short_info.len(), 0);
    assert_eq!(entry.long_info.len(), 0);
}

#[test]
fn create_entry() {
    let command = String::from("my_command");
    let short_info = String::from("short_info");
    let long_info = String::from("long_info");
    let entry = Entry {
        command,
        short_info,
        long_info,
    };

    assert_eq!(entry.command, "my_command");
    assert_eq!(entry.short_info, "short_info");
    assert_eq!(entry.long_info, "long_info");
}

#[test]
fn create_default_entry_group() {
    let entry = EntryGroup::default();
    assert_eq!(entry.description.len(), 0);
    assert_eq!(entry.entries.len(), 0);
}

#[test]
fn create_entry_group() {
    let description = String::from("my_description");
    let entry1 = Entry {
        command: String::from("my_command1"),
        short_info: String::from("info"),
        long_info: String::from(""),
    };
    let entry2 = Entry {
        command: String::from("my_command2"),
        short_info: String::from("infooo"),
        long_info: String::from(""),
    };

    let eg = EntryGroup::new(description, vec![entry1, entry2]);

    assert_eq!(eg.description, "my_description");
    assert_eq!(eg.entries[0].command, "my_command1");
    assert_eq!(eg.entries[1].command, "my_command2");
    assert_eq!(eg.entries[0].short_info, "info");
    assert_eq!(eg.entries[1].short_info, "infooo");
    assert_eq!(eg.entries[0].long_info, "");
    assert_eq!(eg.entries[1].long_info.len(), 0);
}

#[test]
fn create_entry_group_without_entries() {
    let eg = EntryGroup::new(String::from("empty"), vec![]);
    assert_eq!(eg.description, "empty");
    assert!(eg.entries.is_empty());
}

fn entry(command: &str, short_info: &str, long_info: &str) -> Entry {
    Entry {
        command: command.to_owned(),
        short_info: short_info.to_owned(),
        long_info: long_info.to_owned(),
    }
}

#[test]
fn entries_are_equal_when_their_texts_are() {
    let a = entry("make", "build", "runs make");
    assert_eq!(a, entry("make", "build", "runs make"));
    assert_ne!(a, entry("make ", "build", "runs make"));
    assert_ne!(a, entry("make", "Build", "runs make"));
    assert_ne!(a, entry("make", "build", ""));
    assert_eq!(Entry::default(), entry("", "", ""));
}

#[test]
fn entry_clone_is_equal_and_apart() {
    let a = entry("ls -la", "list", "lists \u{1F4C1} files");
    let mut b = a.clone();
    assert_eq!(a, b);
    b.command.push('x');
    assert_ne!(a, b);
    assert_eq!(a.command, "ls -la");
}

#[test]
fn groups_are_equal_when_descriptions_and_entries_are() {
    let a = EntryGroup::new(
        "build".to_owned(),
        vec![entry("make", "build", "runs make"), entry("make clean", "clean", "")],
    );
    let same = EntryGroup::new(
        "build".to_owned(),
        vec![entry("make", "build", "runs make"), entry("make clean", "clean", "")],
    );
    let other_description = EntryGroup::new(
        "Build".to_owned(),
        vec![entry("make", "build", "runs make"), entry("make clean", "clean", "")],
    );
    let shorter = EntryGroup::new("build".to_owned(), vec![entry("make", "build", "runs make")]);
    let swapped = EntryGroup::new(
        "build".to_owned(),
        vec![entry("make clean", "clean", ""), entry("make", "build", "runs make")],
    );
    let other_last = EntryGroup::new(
        "build".to_owned(),
        vec![entry("make", "build", "runs make"), entry("make clean", "clean", "!")],
    );
    assert_eq!(a, same);
    assert_ne!(a, other_description);
    assert_ne!(a, shorter);
    assert_ne!(shorter, a);
    assert_ne!(a, swapped);
    assert_ne!(a, other_last);
    assert_eq!(EntryGroup::default(), EntryGroup::new(String::new(), vec![]));
}

#[test]
fn group_clone_is_equal_and_apart() {
    let a = EntryGroup::new(
        "tests".to_owned(),
        vec![entry("cargo test", "test", ""), entry("cargo bench", "bench", "")],
    );
    let mut b = a.clone();
    assert_eq!(a, b);
    assert_eq!(b.entries.len(), 2);
    assert_eq!(b.entries[1].command, "cargo bench");
    b.entries.pop();
    assert_ne!(a, b);
    assert_eq!(a.entries.len(), 2);
}
