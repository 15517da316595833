use projector::app::{App, Config, Setting};
use projector::editor::ValidEditors;
use projector::keys::{Key, Step};
use projector::languages::ProgrammingLanguage;

#[test]
fn defaults_are_vscode_and_no_auto_open() {
    let cfg = Config::default();
    assert_eq!(cfg.editor, ValidEditors::Code);
    assert!(!cfg.open_editor_after_setup);
}

#[test]
fn new_app_offers_editor_and_auto_open_settings() {
    let app = App::new();
    assert_eq!(app.settings.len(), 2);
    assert_eq!(app.settings[0].name, "Editor");
    assert_eq!(app.settings[0].options, vec!["VSCode".to_string(), "IntelliJ".to_string()]);
    assert_eq!(app.settings[1].name, "Open After Setup");
    assert_eq!(app.settings[1].options, vec!["true".to_string(), "false".to_string()]);
    assert_eq!(app.selected_lang, Some(ProgrammingLanguage::Rust));
}

#[test]
fn load_then_save_returns_the_same_snapshot() {
    let cases = [
        Config { editor: ValidEditors::Code, open_editor_after_setup: false },
        Config { editor: ValidEditors::Code, open_editor_after_setup: true },
        Config { editor: ValidEditors::Intellij, open_editor_after_setup: false },
        Config { editor: ValidEditors::Intellij, open_editor_after_setup: true },
    ];
    for cfg in cases {
        let mut app = App::new();
        app.load_settings(&cfg);
        assert_eq!(app.save_settings(), cfg);
    }
}

#[test]
fn right_on_editor_row_then_enter_persists_intellij() {
    let mut app = App::new();
    app.load_settings(&Config::default());
    assert_eq!(app.handle_settings_key(Key::Right), Step::Continue);
    let step = app.handle_settings_key(Key::Enter);
    assert_eq!(
        step,
        Step::Done(Some(Config { editor: ValidEditors::Intellij, open_editor_after_setup: false }))
    );
    // What the screen now shows loads back to exactly that snapshot.
    let snapshot = match step {
        Step::Done(Some(cfg)) => cfg,
        _ => unreachable!(),
    };
    let mut reloaded = App::new();
    reloaded.load_settings(&snapshot);
    assert_eq!(reloaded.save_settings(), snapshot);
}

#[test]
fn escape_discards_the_edit() {
    let mut app = App::new();
    app.load_settings(&Config::default());
    app.handle_settings_key(Key::Right);
    assert_eq!(app.handle_settings_key(Key::Escape), Step::Done(None));
}

#[test]
fn up_down_move_between_settings_with_wrap() {
    let mut app = App::new();
    app.load_settings(&Config::default());
    assert_eq!(app.selected_setting_index, 0);
    app.handle_settings_key(Key::Down);
    assert_eq!(app.selected_setting_index, 1);
    app.handle_settings_key(Key::Down);
    assert_eq!(app.selected_setting_index, 0);
    app.handle_settings_key(Key::Up);
    assert_eq!(app.selected_setting_index, 1);
}

#[test]
fn toggling_auto_open_round_trips() {
    let mut app = App::new();
    app.load_settings(&Config::default());
    app.handle_settings_key(Key::Down);
    app.handle_settings_key(Key::Left);
    let step = app.handle_settings_key(Key::Enter);
    assert_eq!(
        step,
        Step::Done(Some(Config { editor: ValidEditors::Code, open_editor_after_setup: true }))
    );
}

#[test]
fn setting_navigation_wraps_options() {
    let mut s = Setting::new("Editor", vec!["VSCode", "IntelliJ"]);
    assert_eq!(s.value(), "VSCode");
    s.next_option();
    assert_eq!(s.value(), "IntelliJ");
    s.next_option();
    assert_eq!(s.value(), "VSCode");
    s.prev_option();
    assert_eq!(s.value(), "IntelliJ");
}

#[test]
fn setup_picker_wraps_over_all_languages() {
    let mut app = App::new();
    let n = ProgrammingLanguage::all_langs().len();
    assert_eq!(app.selected_lang_index, 0);
    app.handle_setup_key(Key::Up);
    assert_eq!(app.selected_lang_index, n - 1);
    assert_eq!(app.selected_lang, Some(ProgrammingLanguage::Kotlin));
    app.handle_setup_key(Key::Down);
    assert_eq!(app.selected_lang_index, 0);
    for _ in 0..n {
        app.handle_setup_key(Key::Down);
    }
    assert_eq!(app.selected_lang_index, 0);
}

#[test]
fn setup_picker_enter_reports_selected_language() {
    let mut app = App::new();
    app.handle_setup_key(Key::Down);
    assert_eq!(
        app.handle_setup_key(Key::Enter),
        Step::Done(Some(ProgrammingLanguage::Python))
    );
}

#[test]
fn setup_picker_escape_reports_nothing() {
    let mut app = App::new();
    assert_eq!(app.handle_setup_key(Key::Escape), Step::Done(None));
    let mut app = App::new();
    assert_eq!(app.handle_setup_key(Key::Char('q')), Step::Done(None));
}
