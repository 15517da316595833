//! Interactive state shared by the setup and settings screens: the language
//! cursor of the setup picker, and the list of user-configurable settings
//! together with their mapping to the persisted configuration record.

use vstd::prelude::*;

use crate::editor::ValidEditors;
use crate::keys::{Key, Step};
use crate::languages::{all_languages, ProgrammingLanguage};
use crate::selector::{next_cursor, prev_cursor, WrapPolicy};

verus! {

/// The persisted configuration record: which editor to open, and whether to
/// open it at all once a project is set up.
#[derive(Debug, Clone, Copy, PartialEq, Eq, Structural)]
pub struct Config {
    pub editor: ValidEditors,
    pub open_editor_after_setup: bool,
}

/// The built-in defaults used when no configuration record exists yet.
pub open spec fn default_config() -> Config {
    Config { editor: ValidEditors::Code, open_editor_after_setup: false }
}

impl Default for Config {
    fn default() -> (c: Config)
        ensures
            c == default_config(),
    {
        Config { editor: ValidEditors::Code, open_editor_after_setup: false }
    }
}

/// One user-configurable choice: an ordered list of mutually exclusive
/// option labels and the index of the chosen one.
#[derive(Debug)]
pub struct Setting {
    pub name: String,
    pub options: Vec<String>,
    pub selected_option_index: usize,
}

/// `s` with its chosen option moved to position `i`.
pub open spec fn with_option_index(s: Setting, i: int) -> Setting {
    Setting { selected_option_index: i as usize, ..s }
}

impl Setting {
    /// The chosen option always exists: the option list is non-empty and the
    /// index stays in bounds.
    pub open spec fn wf(self) -> bool {
        self.options@.len() > 0 && self.selected_option_index < self.options@.len()
    }

    pub fn new(name: &str, options: Vec<&str>) -> (s: Setting)
        requires
            options@.len() > 0,
        ensures
            s.name@ == name@,
            s.options@.len() == options@.len(),
            forall|i: int| 0 <= i < options@.len() ==> s.options@[i]@ == options@[i]@,
            s.selected_option_index == 0,
            s.wf(),
    {
        let mut opts: Vec<String> = Vec::new();
        let mut i: usize = 0;
        while i < options.len()
            invariant
                0 <= i <= options@.len(),
                opts@.len() == i,
                forall|j: int| 0 <= j < i ==> opts@[j]@ == options@[j]@,
            decreases options@.len() - i,
        {
            opts.push(options[i].to_owned());
            i = i + 1;
        }
        Setting { name: name.to_owned(), options: opts, selected_option_index: 0 }
    }

    /// Moves the choice one option to the right, wrapping at the end.
    pub fn next_option(&mut self)
        requires
            old(self).wf(),
        ensures
            *final(self) == with_option_index(
                *old(self),
                next_cursor(
                    old(self).selected_option_index as int,
                    old(self).options@.len() as int,
                    WrapPolicy::Circular,
                ),
            ),
            final(self).wf(),
    {
        let n = self.options.len();
        self.selected_option_index = (self.selected_option_index + 1) % n;
    }

    /// Moves the choice one option to the left, wrapping at the start.
    pub fn prev_option(&mut self)
        requires
            old(self).wf(),
        ensures
            *final(self) == with_option_index(
                *old(self),
                prev_cursor(
                    old(self).selected_option_index as int,
                    old(self).options@.len() as int,
                    WrapPolicy::Circular,
                ),
            ),
            final(self).wf(),
    {
        if self.selected_option_index == 0 {
            self.selected_option_index = self.options.len() - 1;
        } else {
            self.selected_option_index = self.selected_option_index - 1;
        }
    }

    /// The label of the chosen option.
    pub fn value(&self) -> (r: &str)
        requires
            self.wf(),
        ensures
            r@ == self.options@[self.selected_option_index as int]@,
    {
        self.options[self.selected_option_index].as_str()
    }
}

/// State of the interactive screens: which language the setup picker points
/// at, and the settings list with its cursor.
#[derive(Debug)]
pub struct App {
    pub selected_lang: Option<ProgrammingLanguage>,
    pub selected_lang_index: usize,
    pub settings: Vec<Setting>,
    pub selected_setting_index: usize,
}

/// The option indices at which the settings screen displays a snapshot.
pub open spec fn editor_index(cfg: Config) -> int {
    if cfg.editor is Intellij {
        1
    } else {
        0
    }
}

/// The index of the chosen `true`/`false` label; `true` is listed first.
pub open spec fn open_index(cfg: Config) -> int {
    if cfg.open_editor_after_setup {
        0
    } else {
        1
    }
}

/// The snapshot described by a pair of option indices.
pub open spec fn config_from_indices(e: int, o: int) -> Config {
    Config {
        editor: if e == 1 {
            ValidEditors::Intellij
        } else {
            ValidEditors::Code
        },
        open_editor_after_setup: o == 0,
    }
}

/// The configuration snapshot the settings screen currently shows.
pub open spec fn config_of_app(a: App) -> Config {
    config_from_indices(
        a.settings@[0].selected_option_index as int,
        a.settings@[1].selected_option_index as int,
    )
}

/// `a` with the setting cursor moved to position `i`.
pub open spec fn with_setting_cursor(a: App, i: int) -> App {
    App { selected_setting_index: i as usize, ..a }
}

/// `b` is `a` with the active setting's choice moved one option over,
/// forward (`Right`) or backward (`Left`), wrapping either way.
pub open spec fn option_stepped(a: App, b: App, forward: bool) -> bool {
    let i = a.selected_setting_index as int;
    let s = a.settings@[i];
    let n = s.options@.len() as int;
    let j = if forward {
        next_cursor(s.selected_option_index as int, n, WrapPolicy::Circular)
    } else {
        prev_cursor(s.selected_option_index as int, n, WrapPolicy::Circular)
    };
    &&& b.selected_lang == a.selected_lang
    &&& b.selected_lang_index == a.selected_lang_index
    &&& b.selected_setting_index == a.selected_setting_index
    &&& b.settings@ == a.settings@.update(i, with_option_index(s, j))
}

/// `b` is `a` with the language cursor moved one position, forward (`Down`)
/// or backward (`Up`), wrapping either way, and the selected language kept in
/// step with the cursor.
pub open spec fn lang_stepped(a: App, b: App, forward: bool) -> bool {
    let n = all_languages().len() as int;
    let j = if forward {
        next_cursor(a.selected_lang_index as int, n, WrapPolicy::Circular)
    } else {
        prev_cursor(a.selected_lang_index as int, n, WrapPolicy::Circular)
    };
    &&& b.selected_lang_index == j
    &&& b.selected_lang == Some(all_languages()[j])
    &&& b.settings == a.settings
    &&& b.selected_setting_index == a.selected_setting_index
}

/// The keys that finish the settings screen.
pub open spec fn settings_finished(key: Key) -> bool {
    key is Enter || key is Escape || key == Key::Char('q')
}

/// The keys that finish the setup screen.
pub open spec fn setup_finished(key: Key) -> bool {
    key is Enter || key is Escape || key == Key::Char('q')
}

impl App {
    /// Cursors stay in bounds and every setting is itself well-formed.
    pub open spec fn wf(self) -> bool {
        &&& self.selected_lang_index < all_languages().len()
        &&& self.settings@.len() > 0
        &&& self.selected_setting_index < self.settings@.len()
        &&& forall|i: int| 0 <= i < self.settings@.len() ==> self.settings@[i].wf()
    }

    /// The concrete settings list both screens are built over: the editor
    /// choice and the open-after-setup flag, two options each.
    pub open spec fn has_settings_shape(self) -> bool {
        &&& self.settings@.len() == 2
        &&& self.settings@[0].options@.len() == 2
        &&& self.settings@[1].options@.len() == 2
    }

    pub fn new() -> (a: App)
        ensures
            a.wf(),
            a.has_settings_shape(),
            a.selected_lang == Some(ProgrammingLanguage::Rust),
            a.selected_lang_index == 0,
            a.selected_setting_index == 0,
            a.settings@[0].name@ == "Editor"@,
            a.settings@[0].options@[0]@ == "VSCode"@,
            a.settings@[0].options@[1]@ == "IntelliJ"@,
            a.settings@[0].selected_option_index == 0,
            a.settings@[1].name@ == "Open After Setup"@,
            a.settings@[1].options@[0]@ == "true"@,
            a.settings@[1].options@[1]@ == "false"@,
            a.settings@[1].selected_option_index == 0,
    {
        let settings = vec![
            Setting::new("Editor", vec!["VSCode", "IntelliJ"]),
            Setting::new("Open After Setup", vec!["true", "false"]),
        ];
        App {
            selected_lang: Some(ProgrammingLanguage::Rust),
            selected_lang_index: 0,
            settings,
            selected_setting_index: 0,
        }
    }

    /// Shows a loaded configuration snapshot: sets each setting's choice to
    /// the option the snapshot prescribes, touching nothing else. The screen
    /// then shows exactly the loaded snapshot.
    pub fn load_settings(&mut self, cfg: &Config)
        requires
            old(self).wf(),
            old(self).has_settings_shape(),
        ensures
            final(self).wf(),
            final(self).has_settings_shape(),
            final(self).selected_lang == old(self).selected_lang,
            final(self).selected_lang_index == old(self).selected_lang_index,
            final(self).selected_setting_index == old(self).selected_setting_index,
            final(self).settings@ == old(self).settings@.update(
                0,
                with_option_index(old(self).settings@[0], editor_index(*cfg)),
            ).update(1, with_option_index(old(self).settings@[1], open_index(*cfg))),
            config_of_app(*final(self)) == *cfg,
    {
        let e: usize = match cfg.editor {
            ValidEditors::Code => 0,
            ValidEditors::Intellij => 1,
        };
        let o: usize = if cfg.open_editor_after_setup {
            0
        } else {
            1
        };
        self.settings[0].selected_option_index = e;
        self.settings[1].selected_option_index = o;
    }

    /// The snapshot to persist: the choices the screen currently shows.
    pub fn save_settings(&self) -> (cfg: Config)
        requires
            self.wf(),
            self.has_settings_shape(),
        ensures
            cfg == config_of_app(*self),
    {
        let editor = if self.settings[0].selected_option_index == 1 {
            ValidEditors::Intellij
        } else {
            ValidEditors::Code
        };
        Config {
            editor,
            open_editor_after_setup: self.settings[1].selected_option_index == 0,
        }
    }

    /// Moves down to the next available language, circling past the bottom.
    pub fn next_item(&mut self)
        requires
            old(self).wf(),
        ensures
            final(self).wf(),
            lang_stepped(*old(self), *final(self), true),
    {
        let all_langs = ProgrammingLanguage::all_langs();
        self.selected_lang_index = (self.selected_lang_index + 1) % all_langs.len();
        self.selected_lang = Some(all_langs[self.selected_lang_index]);
    }

    /// Moves up to the previous available language, circling back to the
    /// bottom at the top.
    pub fn prev_item(&mut self)
        requires
            old(self).wf(),
        ensures
            final(self).wf(),
            lang_stepped(*old(self), *final(self), false),
    {
        let all_langs = ProgrammingLanguage::all_langs();
        if self.selected_lang_index == 0 {
            self.selected_lang_index = all_langs.len() - 1;
        } else {
            self.selected_lang_index = self.selected_lang_index - 1;
        }
        self.selected_lang = Some(all_langs[self.selected_lang_index]);
    }

    /// Moves the active setting's choice one option to the right.
    pub fn next_option(&mut self)
        requires
            old(self).wf(),
        ensures
            final(self).wf(),
            option_stepped(*old(self), *final(self), true),
    {
        let i = self.selected_setting_index;
        let setting = &mut self.settings[i];
        setting.next_option();
    }

    /// Moves the active setting's choice one option to the left.
    pub fn prev_option(&mut self)
        requires
            old(self).wf(),
        ensures
            final(self).wf(),
            option_stepped(*old(self), *final(self), false),
    {
        let i = self.selected_setting_index;
        let setting = &mut self.settings[i];
        setting.prev_option();
    }

    /// Moves the setting cursor down, wrapping past the last setting.
    pub fn next_setting(&mut self)
        requires
            old(self).wf(),
        ensures
            final(self).wf(),
            *final(self) == with_setting_cursor(
                *old(self),
                next_cursor(
                    old(self).selected_setting_index as int,
                    old(self).settings@.len() as int,
                    WrapPolicy::Circular,
                ),
            ),
    {
        let n = self.settings.len();
        self.selected_setting_index = (self.selected_setting_index + 1) % n;
    }

    /// Moves the setting cursor up, wrapping past the first setting.
    pub fn prev_setting(&mut self)
        requires
            old(self).wf(),
        ensures
            final(self).wf(),
            *final(self) == with_setting_cursor(
                *old(self),
                prev_cursor(
                    old(self).selected_setting_index as int,
                    old(self).settings@.len() as int,
                    WrapPolicy::Circular,
                ),
            ),
    {
        if self.selected_setting_index == 0 {
            self.selected_setting_index = self.settings.len() - 1;
        } else {
            self.selected_setting_index = self.selected_setting_index - 1;
        }
    }

    /// One key press of the settings screen. `Up`/`Down` move across
    /// settings, `Left`/`Right` move the active setting's choice, `Enter`
    /// finishes with the snapshot to persist, and `Escape` or `q` finishes
    /// with nothing, discarding the edits.
    pub fn handle_settings_key(&mut self, key: Key) -> (r: Step<Option<Config>>)
        requires
            old(self).wf(),
            old(self).has_settings_shape(),
        ensures
            final(self).wf(),
            final(self).has_settings_shape(),
            (r is Done <==> settings_finished(key)),
            key is Enter ==> r == Step::Done(Some(config_of_app(*old(self)))) && *final(self)
                == *old(self),
            (key is Escape || key == Key::Char('q')) ==> r == Step::<Option<Config>>::Done(None)
                && *final(self) == *old(self),
            key is Up ==> *final(self) == with_setting_cursor(
                *old(self),
                prev_cursor(
                    old(self).selected_setting_index as int,
                    old(self).settings@.len() as int,
                    WrapPolicy::Circular,
                ),
            ),
            key is Down ==> *final(self) == with_setting_cursor(
                *old(self),
                next_cursor(
                    old(self).selected_setting_index as int,
                    old(self).settings@.len() as int,
                    WrapPolicy::Circular,
                ),
            ),
            key is Left ==> option_stepped(*old(self), *final(self), false),
            key is Right ==> option_stepped(*old(self), *final(self), true),
            !(settings_finished(key) || key is Up || key is Down || key is Left || key is Right)
                ==> *final(self) == *old(self),
    {
        match key {
            Key::Up => {
                self.prev_setting();
                Step::Continue
            },
            Key::Down => {
                self.next_setting();
                Step::Continue
            },
            Key::Left => {
                self.prev_option();
                Step::Continue
            },
            Key::Right => {
                self.next_option();
                Step::Continue
            },
            Key::Enter => Step::Done(Some(self.save_settings())),
            Key::Escape => Step::Done(None),
            Key::Char(c) => if c == 'q' {
                Step::Done(None)
            } else {
                Step::Continue
            },
            _ => Step::Continue,
        }
    }

    /// One key press of the setup screen's language picker. `Up`/`Down` move
    /// the cursor with circular wrap, `Enter` finishes with the selected
    /// language, and `Escape` or `q` finishes with nothing.
    pub fn handle_setup_key(&mut self, key: Key) -> (r: Step<Option<ProgrammingLanguage>>)
        requires
            old(self).wf(),
        ensures
            final(self).wf(),
            (r is Done <==> setup_finished(key)),
            key is Enter ==> r == Step::Done(old(self).selected_lang) && *final(self) == *old(
                self,
            ),
            (key is Escape || key == Key::Char('q')) ==> r
                == Step::<Option<ProgrammingLanguage>>::Done(None) && *final(self) == *old(self),
            key is Up ==> lang_stepped(*old(self), *final(self), false),
            key is Down ==> lang_stepped(*old(self), *final(self), true),
            !(setup_finished(key) || key is Up || key is Down) ==> *final(self) == *old(self),
    {
        match key {
            Key::Up => {
                self.prev_item();
                Step::Continue
            },
            Key::Down => {
                self.next_item();
                Step::Continue
            },
            Key::Enter => Step::Done(self.selected_lang),
            Key::Escape => Step::Done(None),
            Key::Char(c) => if c == 'q' {
                Step::Done(None)
            } else {
                Step::Continue
            },
            _ => Step::Continue,
        }
    }
}

/// Loading a persisted snapshot shows exactly that snapshot, and persisting
/// what is shown writes exactly what is shown: the two mappings between the
/// settings screen and the configuration record invert each other.
pub proof fn lemma_settings_round_trip(a: App, cfg: Config)
    requires
        a.wf(),
        a.has_settings_shape(),
    ensures
        config_from_indices(editor_index(cfg), open_index(cfg)) == cfg,
        editor_index(config_of_app(a)) == a.settings@[0].selected_option_index,
        open_index(config_of_app(a)) == a.settings@[1].selected_option_index,
{
}

} // verus!
