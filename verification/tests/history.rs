use icepaper::history::{contains_path, remember};

fn strings(items: &[&str]) -> Vec<String> {
    items.iter().map(|item| item.to_string()).collect()
}

#[test]
fn contains_path_finds_by_content() {
    let history = strings(&["a.png", "b.png"]);
    assert!(contains_path(&history, &"a.png".to_string()));
    assert!(contains_path(&history, &"b.png".to_string()));
    assert!(!contains_path(&history, &"c.png".to_string()));
    assert!(!contains_path(&history, &"a.pn".to_string()));
    assert!(!contains_path(&history, &"".to_string()));
}

#[test]
fn contains_path_on_empty_history() {
    let history: Vec<String> = Vec::new();
    assert!(!contains_path(&history, &"a.png".to_string()));
}

#[test]
fn remember_appends_new_paths() {
    let mut history: Vec<String> = Vec::new();
    remember(&mut history, &"a.png".to_string());
    assert_eq!(history, strings(&["a.png"]));
    remember(&mut history, &"b.png".to_string());
    assert_eq!(history, strings(&["a.png", "b.png"]));
}

#[test]
fn remember_leaves_known_paths_in_place() {
    let mut history = strings(&["a.png", "b.png", "c.png"]);
    remember(&mut history, &"a.png".to_string());
    assert_eq!(history, strings(&["a.png", "b.png", "c.png"]));
    remember(&mut history, &"c.png".to_string());
    assert_eq!(history, strings(&["a.png", "b.png", "c.png"]));
}
