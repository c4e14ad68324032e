use iced::window::Id;
use icepaper::{Action, App, FileFilter, Message};

fn fresh() -> (App, Id, Id) {
    let editor = Id::unique();
    let background = Id::unique();
    (App::new(editor, background), editor, background)
}

fn pick(app: &mut App, path: &str) -> Action {
    app.update(Message::UpdateBackgroundPath(path.to_string()))
}

fn shown(app: &App) -> Option<&str> {
    app.background_path().as_deref()
}

fn paths(app: &App) -> Vec<&str> {
    app.history().iter().map(|path| path.as_str()).collect()
}

#[test]
fn starts_empty() {
    let (app, editor, background) = fresh();
    assert_eq!(shown(&app), None);
    assert!(app.history().is_empty());
    assert_eq!(app.editor_window_id(), editor);
    assert_eq!(app.background_surface_id(), background);
}

#[test]
fn choosing_and_clearing_step_by_step() {
    let (mut app, _, _) = fresh();

    assert_eq!(pick(&mut app, "a.png"), Action::Nothing);
    assert_eq!(shown(&app), Some("a.png"));
    assert_eq!(paths(&app), vec!["a.png"]);

    assert_eq!(pick(&mut app, "b.png"), Action::Nothing);
    assert_eq!(shown(&app), Some("b.png"));
    assert_eq!(paths(&app), vec!["a.png", "b.png"]);

    assert_eq!(pick(&mut app, "a.png"), Action::Nothing);
    assert_eq!(shown(&app), Some("a.png"));
    assert_eq!(paths(&app), vec!["a.png", "b.png"]);

    assert_eq!(app.update(Message::ResetBackgroundPath), Action::Nothing);
    assert_eq!(shown(&app), None);
    assert_eq!(paths(&app), vec!["a.png", "b.png"]);
}

#[test]
fn history_keeps_first_seen_order() {
    let (mut app, _, _) = fresh();
    for path in ["c.png", "a.png", "c.png", "b.png", "a.png", "a.png", "d.png", "b.png"] {
        pick(&mut app, path);
        assert_eq!(shown(&app), Some(path));
    }
    assert_eq!(paths(&app), vec!["c.png", "a.png", "b.png", "d.png"]);
}

#[test]
fn history_compares_paths_by_content() {
    let (mut app, _, _) = fresh();
    let first = String::from("wall.png");
    let second = format!("{}.{}", "wall", "png");
    app.update(Message::UpdateBackgroundPath(first));
    app.update(Message::UpdateBackgroundPath(second));
    assert_eq!(paths(&app), vec!["wall.png"]);
}

#[test]
fn history_tells_near_paths_apart() {
    let (mut app, _, _) = fresh();
    for path in ["a.png", "A.png", "a.png ", "./a.png", ""] {
        pick(&mut app, path);
    }
    assert_eq!(paths(&app), vec!["a.png", "A.png", "a.png ", "./a.png", ""]);
    assert_eq!(shown(&app), Some(""));
}

#[test]
fn choosing_twice_is_choosing_once() {
    let (mut once, editor, background) = fresh();
    pick(&mut once, "x.png");
    pick(&mut once, "y.png");

    let mut twice = App::new(editor, background);
    pick(&mut twice, "x.png");
    pick(&mut twice, "y.png");
    assert_eq!(shown(&twice), Some("y.png"));
    pick(&mut twice, "y.png");
    assert_eq!(shown(&twice), Some("y.png"));

    assert_eq!(paths(&twice), paths(&once));
    assert_eq!(twice, once);
}

#[test]
fn clearing_keeps_the_history() {
    let (mut app, _, _) = fresh();
    assert_eq!(app.update(Message::ResetBackgroundPath), Action::Nothing);
    assert_eq!(shown(&app), None);
    assert!(app.history().is_empty());

    pick(&mut app, "a.png");
    pick(&mut app, "b.png");
    app.update(Message::ResetBackgroundPath);
    assert_eq!(shown(&app), None);
    assert_eq!(paths(&app), vec!["a.png", "b.png"]);

    app.update(Message::ResetBackgroundPath);
    assert_eq!(shown(&app), None);
    assert_eq!(paths(&app), vec!["a.png", "b.png"]);
}

#[test]
fn cleared_picture_can_be_chosen_again() {
    let (mut app, _, _) = fresh();
    pick(&mut app, "a.png");
    app.update(Message::ResetBackgroundPath);
    pick(&mut app, "a.png");
    assert_eq!(shown(&app), Some("a.png"));
    assert_eq!(paths(&app), vec!["a.png"]);
}

#[test]
fn closing_the_dialog_changes_nothing() {
    let (mut app, editor, background) = fresh();
    assert_eq!(app.update(Message::CloseFilePicker), Action::Nothing);
    assert_eq!(app, App::new(editor, background));

    pick(&mut app, "a.png");
    pick(&mut app, "b.png");
    let mut same = App::new(editor, background);
    pick(&mut same, "a.png");
    pick(&mut same, "b.png");
    assert_eq!(app.update(Message::CloseFilePicker), Action::Nothing);
    assert_eq!(app, same);
    assert_eq!(shown(&app), Some("b.png"));
    assert_eq!(paths(&app), vec!["a.png", "b.png"]);
}

#[test]
fn initialize_asks_for_fullscreen_background() {
    let (mut app, editor, background) = fresh();
    pick(&mut app, "a.png");
    let action = app.update(Message::Initialize);
    assert_eq!(action, Action::Fullscreen(background));
    assert_ne!(action, Action::Fullscreen(editor));
    assert_eq!(shown(&app), Some("a.png"));
    assert_eq!(paths(&app), vec!["a.png"]);
}

#[test]
fn opening_the_dialog_asks_for_png_files() {
    let (mut app, _, _) = fresh();
    pick(&mut app, "a.png");
    let action = app.update(Message::OpenFilePicker);
    let filter = FileFilter {
        label: "Supported files".to_string(),
        extensions: vec!["png".to_string()],
    };
    assert_eq!(action, Action::PickFile(filter));
    assert_eq!(shown(&app), Some("a.png"));
    assert_eq!(paths(&app), vec!["a.png"]);
}

#[test]
fn supported_filter_is_png_only() {
    let filter = FileFilter::supported();
    assert_eq!(filter.label, "Supported files");
    assert_eq!(filter.extensions, vec!["png".to_string()]);
}

#[test]
fn picked_path_becomes_a_choice() {
    let message = Message::from_picked(Some("/home/me/sky.png".to_string()));
    assert_eq!(message, Message::UpdateBackgroundPath("/home/me/sky.png".to_string()));
}

#[test]
fn no_pick_closes_the_dialog() {
    assert_eq!(Message::from_picked(None), Message::CloseFilePicker);
}

#[test]
fn dialog_outcome_flows_back_into_the_state() {
    let (mut app, _, _) = fresh();
    assert!(matches!(app.update(Message::OpenFilePicker), Action::PickFile(_)));
    app.update(Message::from_picked(Some("sky.png".to_string())));
    assert_eq!(shown(&app), Some("sky.png"));

    assert!(matches!(app.update(Message::OpenFilePicker), Action::PickFile(_)));
    app.update(Message::from_picked(None));
    assert_eq!(shown(&app), Some("sky.png"));
    assert_eq!(paths(&app), vec!["sky.png"]);
}

#[test]
fn shown_picture_is_always_in_the_history() {
    let (mut app, _, _) = fresh();
    let messages = vec![
        Message::UpdateBackgroundPath("a.png".to_string()),
        Message::Initialize,
        Message::UpdateBackgroundPath("b.png".to_string()),
        Message::CloseFilePicker,
        Message::ResetBackgroundPath,
        Message::OpenFilePicker,
        Message::UpdateBackgroundPath("a.png".to_string()),
        Message::UpdateBackgroundPath("c.png".to_string()),
    ];
    for message in messages {
        app.update(message);
        if let Some(path) = app.background_path() {
            assert!(app.history().contains(path));
        }
        let mut seen: Vec<&String> = Vec::new();
        for path in app.history() {
            assert!(!seen.contains(&path));
            seen.push(path);
        }
    }
    assert_eq!(paths(&app), vec!["a.png", "b.png", "c.png"]);
}

#[test]
fn cloned_message_equals_its_source() {
    let messages = vec![
        Message::Initialize,
        Message::UpdateBackgroundPath("a.png".to_string()),
        Message::ResetBackgroundPath,
        Message::OpenFilePicker,
        Message::CloseFilePicker,
    ];
    for message in &messages {
        assert_eq!(&message.clone(), message);
    }
    assert_ne!(messages[1], Message::UpdateBackgroundPath("b.png".to_string()));
}
