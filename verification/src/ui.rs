//! The account switcher's screen state: the saved accounts, the selection,
//! the input mode and the status line, driven by key presses and by the
//! results of the work it asks the caller to perform.
use vstd::prelude::*;
use crate::db::Account;
use crate::riot::{extract_riot_id, extract_username, riot_id_in, username_in};
use crate::text::{join3, opt_view, trim, trim_str, without_last};

verus! {

/// What the user is doing.
pub enum Mode {
    Normal,
    SaveInput(String),
    RenameInput(String),
    ConfirmDelete,
    ConfirmLogout,
    ExportPass(String),
    ImportPath(String),
    ImportPass { path: String, pass: String },
}

/// A key as the switcher reads it.
pub enum Key {
    Char(char),
    Enter,
    Esc,
    Backspace,
    Up,
    Down,
    Other,
}

/// The work the switcher waits on, if any.
pub enum Pending {
    Idle,
    /// The file dialog for an import is open.
    PickingFile,
    /// Reading the live session to save it as `name` (a new save, or an
    /// update of the account `update`).
    ReadingTokens { name: String, update: Option<i64> },
    /// Asking the running client for the Riot ID of the session read.
    FetchingRiotId { name: String, tokens: String, update: Option<i64> },
    /// Writing to the account store; on success the list is reloaded and
    /// `ok` shown, on failure `err_prefix` and the error.
    Storing { ok: String, err_prefix: String, reselect: Option<i64> },
    /// Reloading the account list; then `ok` is shown.
    Listing { ok: String, reselect: Option<i64> },
    /// Switching the client to the account `name`.
    Switching { name: String, tokens: String },
    /// Encrypting the account `name` for export.
    Exporting { name: String },
    /// Writing the export file.
    WritingExport,
    /// Reading the file to import.
    ReadingImport { password: String },
    /// Decrypting the file to import.
    Decrypting,
    /// Logging the client out.
    LoggingOut,
}

/// What the caller reports to the switcher.
pub enum AppEvent {
    Key { key: Key, ctrl: bool },
    FileChosen(Option<String>),
    TokensRead(Result<String, String>),
    RiotIdFetched(Option<String>),
    Stored(Result<(), String>),
    Listed(Result<Vec<Account>, String>),
    Switched(Result<(), String>),
    /// The export file's text, or why encrypting failed.
    Exported(Result<String, String>),
    /// The path written, or why writing failed.
    Written(Result<String, String>),
    /// The file's text, or the path that could not be read.
    FileRead(Result<String, String>),
    /// The account found in the file (name, session, Riot ID), or why not.
    Imported(Result<(String, String, Option<String>), String>),
    LoggedOut(Result<(), String>),
}

/// The work the switcher asks the caller to do next.
pub enum AppAction {
    /// Nothing: wait for the next key.
    AwaitKey,
    /// Leave the program.
    Quit,
    /// Open the file dialog; answer with `FileChosen`.
    PickFile,
    /// Read the live session file; answer with `TokensRead`.
    ReadTokens,
    /// Ask the running client for its Riot ID; answer with `RiotIdFetched`.
    FetchRiotId,
    /// Save the session under `name`, keeping the stored Riot ID when
    /// `riot_id` is `None`; answer with `Stored`.
    Upsert { name: String, token_data: String, riot_id: Option<String> },
    /// Rename the account `id`; answer with `Stored`.
    Rename { id: i64, new_name: String },
    /// Delete the account `id`; answer with `Stored`.
    Delete { id: i64 },
    /// Reload the account list; answer with `Listed`.
    List,
    /// Switch the client to this session; answer with `Switched`.
    Switch { token_data: String },
    /// In the background, record the account's Riot ID once the client
    /// reports it; then wait for the next key.
    WatchRiotId { name: String, token_data: String },
    /// Encrypt the account for export; answer with `Exported`.
    Export { name: String, token_data: String, riot_id: Option<String>, password: String },
    /// Write the export file for the account `name`; answer with `Written`.
    WriteExport { name: String, json: String },
    /// Read the file to import; answer with `FileRead`.
    ReadImport { path: String },
    /// Decrypt the import file; answer with `Imported`.
    Decrypt { json: String, password: String },
    /// Log the client out; answer with `LoggedOut`.
    Logout,
}

/// The switcher's state.
pub struct App {
    pub accounts: Vec<Account>,
    pub selected: Option<usize>,
    pub mode: Mode,
    pub status: String,
    pub status_err: bool,
    pub pending: Pending,
}

/// The status shown when the switcher starts.
pub open spec fn ready_message() -> Seq<char> {
    "Ready — log into Riot Client, then press [S] to save the session."@
}

/// Whether the selection fits the list: nothing is selected exactly when
/// the list is empty, and a selection points into the list.
pub open spec fn selection_fits(selected: Option<usize>, len: nat) -> bool {
    &&& (selected is None <==> len == 0)
    &&& (selected matches Some(i) ==> i < len)
}

/// The selection after the list is replaced by one of `len` accounts: the
/// previous index (0 if none) clamped to the last account.
pub open spec fn clamped_selection(prev: Option<usize>, len: nat) -> Option<usize> {
    let p = match prev {
        Some(i) => i as int,
        None => 0,
    };
    if len == 0 {
        None
    } else if p <= len - 1 {
        Some(p as usize)
    } else {
        Some((len - 1) as usize)
    }
}

/// The selection one step up, wrapping from the first account to the last.
pub open spec fn selection_up(prev: Option<usize>, len: nat) -> Option<usize> {
    let i = match prev {
        Some(i) => i as int,
        None => 0,
    };
    if len == 0 {
        prev
    } else if i == 0 {
        Some((len - 1) as usize)
    } else {
        Some((i - 1) as usize)
    }
}

/// The selection one step down, wrapping from the last account to the first.
pub open spec fn selection_down(prev: Option<usize>, len: nat) -> Option<usize> {
    let i = match prev {
        Some(i) => i as int,
        None => 0,
    };
    if len == 0 {
        prev
    } else {
        Some(((i + 1) % (len as int)) as usize)
    }
}

impl App {
    /// The state is well formed: the selection fits the list, and a question
    /// or an input is open only while no work is pending.
    pub open spec fn wf(&self) -> bool {
        &&& selection_fits(self.selected, self.accounts@.len())
        &&& !(self.mode is Normal) ==> self.pending is Idle
    }

    /// The selected account, if any.
    pub open spec fn selected_account(&self) -> Option<Account> {
        match self.selected {
            Some(i) => if i < self.accounts@.len() {
                Some(self.accounts@[i as int])
            } else {
                None
            },
            None => None,
        }
    }

    /// The switcher showing `accounts`, the first one selected.
    pub fn new(accounts: Vec<Account>) -> (app: App)
        ensures
            app.wf(),
            app.accounts == accounts,
            app.selected == (if accounts@.len() == 0 { None } else { Some(0usize) }),
            app.mode is Normal,
            app.pending is Idle,
            app.status@ == ready_message(),
            !app.status_err,
    {
        let selected = if accounts.len() == 0 { None } else { Some(0) };
        App {
            accounts,
            selected,
            mode: Mode::Normal,
            status: String::from_str("Ready — log into Riot Client, then press [S] to save the session."),
            status_err: false,
            pending: Pending::Idle,
        }
    }

    /// The selected account, if any.
    pub fn selected(&self) -> (out: Option<&Account>)
        ensures
            match out {
                Some(a) => self.selected_account() == Some(*a),
                None => self.selected_account() is None,
            },
    {
        match self.selected {
            Some(i) => if i < self.accounts.len() {
                Some(&self.accounts[i])
            } else {
                None
            },
            None => None,
        }
    }

    /// Shows `msg` as a success.
    pub fn set_ok(&mut self, msg: String)
        ensures
            final(self).status == msg,
            !final(self).status_err,
            final(self).accounts == old(self).accounts,
            final(self).selected == old(self).selected,
            final(self).mode == old(self).mode,
            final(self).pending == old(self).pending,
    {
        self.status = msg;
        self.status_err = false;
    }

    /// Shows `msg` as an error.
    pub fn set_err(&mut self, msg: String)
        ensures
            final(self).status == msg,
            final(self).status_err,
            final(self).accounts == old(self).accounts,
            final(self).selected == old(self).selected,
            final(self).mode == old(self).mode,
            final(self).pending == old(self).pending,
    {
        self.status = msg;
        self.status_err = true;
    }

    /// Takes a reloaded list: on success the list is replaced, keeping the
    /// selected index where it still fits and otherwise selecting the last
    /// account; on failure the list and selection stay and the error is
    /// shown.
    pub fn refresh(&mut self, listed: Result<Vec<Account>, String>)
        requires
            old(self).wf(),
        ensures
            final(self).wf(),
            final(self).mode == old(self).mode,
            final(self).pending == old(self).pending,
            match listed {
                Ok(accounts) => final(self).accounts == accounts && final(self).selected == clamped_selection(
                    old(self).selected,
                    accounts@.len(),
                ) && same_status(*old(self), *final(self)),
                Err(e) => final(self).accounts == old(self).accounts && final(self).selected == old(
                    self,
                ).selected && shows_err(*final(self), "DB error: "@ + e@),
            },
    {
        match listed {
            Ok(accounts) => {
                let prev = match self.selected {
                    Some(i) => i,
                    None => 0,
                };
                let n = accounts.len();
                self.accounts = accounts;
                if n == 0 {
                    self.selected = None;
                } else if prev <= n - 1 {
                    self.selected = Some(prev);
                } else {
                    self.selected = Some(n - 1);
                }
            },
            Err(e) => self.set_err(concat_str("DB error: ", e.as_str())),
        }
    }

    /// Moves the selection up, wrapping around.
    pub fn scroll_up(&mut self)
        requires
            old(self).wf(),
        ensures
            final(self).wf(),
            final(self).selected == selection_up(old(self).selected, old(self).accounts@.len()),
            final(self).accounts == old(self).accounts,
            final(self).mode == old(self).mode,
            final(self).pending == old(self).pending,
            final(self).status == old(self).status,
            final(self).status_err == old(self).status_err,
    {
        let n = self.accounts.len();
        if n == 0 {
            return;
        }
        let i = match self.selected {
            Some(i) => i,
            None => 0,
        };
        self.selected = Some(if i == 0 { n - 1 } else { i - 1 });
    }

    /// Moves the selection down, wrapping around.
    pub fn scroll_down(&mut self)
        requires
            old(self).wf(),
        ensures
            final(self).wf(),
            final(self).selected == selection_down(old(self).selected, old(self).accounts@.len()),
            final(self).accounts == old(self).accounts,
            final(self).mode == old(self).mode,
            final(self).pending == old(self).pending,
            final(self).status == old(self).status,
            final(self).status_err == old(self).status_err,
    {
        let n = self.accounts.len();
        if n == 0 {
            return;
        }
        let i = match self.selected {
            Some(i) => i,
            None => 0,
        };
        self.selected = Some((i + 1) % n);
    }
}


/// What a key press does, decided from the mode, whether an account is
/// selected, the key and whether Ctrl is held.
pub enum KeyEffect {
    Quit,
    Cancel,
    ScrollUp,
    ScrollDown,
    Switch,
    StartSave,
    StartRename,
    AskDelete,
    Update,
    StartExport,
    AskLogout,
    PickFile,
    Erase,
    Type(char),
    Submit,
    Confirm,
    Ignore,
}

/// Whether the mode reads typed text.
pub open spec fn is_input(m: Mode) -> bool {
    m is SaveInput || m is RenameInput || m is ExportPass || m is ImportPath || m is ImportPass
}

/// Whether the mode asks a yes/no question.
pub open spec fn is_confirm(m: Mode) -> bool {
    m is ConfirmDelete || m is ConfirmLogout
}

/// Whether `key` is the letter `lower` or `upper`.
pub open spec fn is_letter(key: Key, lower: char, upper: char) -> bool {
    key == Key::Char(lower) || key == Key::Char(upper)
}

/// The switcher's key bindings. Ctrl+C always quits; in the list, `q`
/// quits, arrows or `k`/`j` move, Enter switches, `s` saves, `r` renames,
/// `d` deletes, `u` updates, `e` exports, `l` logs out and `i` imports (the
/// actions on an account only when one is selected); while typing, Esc
/// cancels, Backspace erases, Enter submits and characters are typed; in a
/// question, `y` confirms and any other key cancels.
pub open spec fn key_effect(mode: Mode, has_sel: bool, key: Key, ctrl: bool) -> KeyEffect {
    let normal = mode is Normal;
    let input = is_input(mode);
    let confirm = is_confirm(mode);
    if key == Key::Char('c') && ctrl {
        KeyEffect::Quit
    } else if is_letter(key, 'q', 'Q') && normal {
        KeyEffect::Quit
    } else if key == Key::Esc && (input || confirm) {
        KeyEffect::Cancel
    } else if (key == Key::Up || key == Key::Char('k')) && normal {
        KeyEffect::ScrollUp
    } else if (key == Key::Down || key == Key::Char('j')) && normal {
        KeyEffect::ScrollDown
    } else if key == Key::Enter && normal && has_sel {
        KeyEffect::Switch
    } else if is_letter(key, 's', 'S') && normal {
        KeyEffect::StartSave
    } else if is_letter(key, 'r', 'R') && normal && has_sel {
        KeyEffect::StartRename
    } else if is_letter(key, 'd', 'D') && normal && has_sel {
        KeyEffect::AskDelete
    } else if is_letter(key, 'u', 'U') && normal && has_sel {
        KeyEffect::Update
    } else if is_letter(key, 'e', 'E') && normal && has_sel {
        KeyEffect::StartExport
    } else if is_letter(key, 'l', 'L') && normal {
        KeyEffect::AskLogout
    } else if is_letter(key, 'i', 'I') && normal {
        KeyEffect::PickFile
    } else if key == Key::Backspace && input {
        KeyEffect::Erase
    } else if key is Char && input {
        KeyEffect::Type(key->Char_0)
    } else if key == Key::Enter && input {
        KeyEffect::Submit
    } else if is_letter(key, 'y', 'Y') && confirm {
        KeyEffect::Confirm
    } else if confirm {
        KeyEffect::Cancel
    } else {
        KeyEffect::Ignore
    }
}

fn letter_in(key: &Key, lower: char, upper: char) -> (b: bool)
    ensures
        b == is_letter(*key, lower, upper),
{
    match key {
        Key::Char(c) => *c == lower || *c == upper,
        _ => false,
    }
}

/// Decides what a key press does.
pub fn classify_key(mode: &Mode, has_sel: bool, key: &Key, ctrl: bool) -> (e: KeyEffect)
    ensures
        e == key_effect(*mode, has_sel, *key, ctrl),
{
    let normal = matches!(mode, Mode::Normal);
    let input = matches!(
        mode,
        Mode::SaveInput(_) | Mode::RenameInput(_) | Mode::ExportPass(_) | Mode::ImportPath(_) | Mode::ImportPass { .. }
    );
    let confirm = matches!(mode, Mode::ConfirmDelete | Mode::ConfirmLogout);
    let is_enter = matches!(key, Key::Enter);
    if letter_in(key, 'c', 'c') && ctrl {
        KeyEffect::Quit
    } else if letter_in(key, 'q', 'Q') && normal {
        KeyEffect::Quit
    } else if matches!(key, Key::Esc) && (input || confirm) {
        KeyEffect::Cancel
    } else if (matches!(key, Key::Up) || letter_in(key, 'k', 'k')) && normal {
        KeyEffect::ScrollUp
    } else if (matches!(key, Key::Down) || letter_in(key, 'j', 'j')) && normal {
        KeyEffect::ScrollDown
    } else if is_enter && normal && has_sel {
        KeyEffect::Switch
    } else if letter_in(key, 's', 'S') && normal {
        KeyEffect::StartSave
    } else if letter_in(key, 'r', 'R') && normal && has_sel {
        KeyEffect::StartRename
    } else if letter_in(key, 'd', 'D') && normal && has_sel {
        KeyEffect::AskDelete
    } else if letter_in(key, 'u', 'U') && normal && has_sel {
        KeyEffect::Update
    } else if letter_in(key, 'e', 'E') && normal && has_sel {
        KeyEffect::StartExport
    } else if letter_in(key, 'l', 'L') && normal {
        KeyEffect::AskLogout
    } else if letter_in(key, 'i', 'I') && normal {
        KeyEffect::PickFile
    } else if matches!(key, Key::Backspace) && input {
        KeyEffect::Erase
    } else if input && matches!(key, Key::Char(_)) {
        match key {
            Key::Char(c) => KeyEffect::Type(*c),
            _ => KeyEffect::Ignore,
        }
    } else if is_enter && input {
        KeyEffect::Submit
    } else if letter_in(key, 'y', 'Y') && confirm {
        KeyEffect::Confirm
    } else if confirm {
        KeyEffect::Cancel
    } else {
        KeyEffect::Ignore
    }
}


/// The text being typed in an input mode (the password for the second
/// import step).
pub open spec fn typed_text(m: Mode) -> Seq<char> {
    match m {
        Mode::SaveInput(t) => t@,
        Mode::RenameInput(t) => t@,
        Mode::ExportPass(t) => t@,
        Mode::ImportPath(t) => t@,
        Mode::ImportPass { pass, .. } => pass@,
        _ => Seq::empty(),
    }
}

/// `new` is the input mode `old` with the typed text replaced by `text`.
pub open spec fn edited(old: Mode, new: Mode, text: Seq<char>) -> bool {
    match old {
        Mode::SaveInput(_) => new matches Mode::SaveInput(t) && t@ == text,
        Mode::RenameInput(_) => new matches Mode::RenameInput(t) && t@ == text,
        Mode::ExportPass(_) => new matches Mode::ExportPass(t) && t@ == text,
        Mode::ImportPath(_) => new matches Mode::ImportPath(t) && t@ == text,
        Mode::ImportPass { path, .. } => new matches Mode::ImportPass { path: p, pass } && p == path
            && pass@ == text,
        _ => false,
    }
}

/// `new` has the list, the selection and the pending work of `old`.
pub open spec fn same_list(old: App, new: App) -> bool {
    new.accounts == old.accounts && new.selected == old.selected && new.pending == old.pending
}

/// `new` shows `msg` as a success.
pub open spec fn shows_ok(new: App, msg: Seq<char>) -> bool {
    new.status@ == msg && !new.status_err
}

/// `new` shows `msg` as an error.
pub open spec fn shows_err(new: App, msg: Seq<char>) -> bool {
    new.status@ == msg && new.status_err
}

/// `new` keeps the status line of `old`.
pub open spec fn same_status(old: App, new: App) -> bool {
    new.status == old.status && new.status_err == old.status_err
}

/// `name` between `prefix` (which ends with an opening quote) and a
/// closing quote.
pub open spec fn quoted(prefix: Seq<char>, name: Seq<char>) -> Seq<char> {
    prefix + name + "\""@
}

/// What submitting the typed text does (the mode returns to the list unless
/// an import path was accepted).
pub open spec fn submitted(old: App, new: App, action: AppAction) -> bool {
    new.accounts == old.accounts && new.selected == old.selected && match old.mode {
        Mode::SaveInput(text) => new.mode is Normal && if trim(text@).len() == 0 {
            shows_err(new, "Name cannot be empty"@) && new.pending == old.pending && action is AwaitKey
        } else {
            same_status(old, new) && (new.pending matches Pending::ReadingTokens { name, update }
                && name@ == trim(text@) && update is None) && action is ReadTokens
        },
        Mode::RenameInput(text) => new.mode is Normal && if trim(text@).len() == 0 {
            shows_err(new, "Name cannot be empty"@) && new.pending == old.pending && action is AwaitKey
        } else {
            same_status(old, new) && match old.selected_account() {
                Some(a) => (new.pending matches Pending::Storing { ok, err_prefix, reselect }
                    && ok@ == quoted("Renamed to \""@, trim(text@)) && err_prefix@ == "Rename failed: "@
                    && reselect is None) && (action matches AppAction::Rename { id, new_name }
                    && id == a.id && new_name@ == trim(text@)),
                None => new.pending == old.pending && action is AwaitKey,
            }
        },
        Mode::ExportPass(pass) => new.mode is Normal && if pass@.len() == 0 {
            shows_err(new, "Password cannot be empty"@) && new.pending == old.pending && action is AwaitKey
        } else {
            same_status(old, new) && match old.selected_account() {
                Some(a) => (new.pending matches Pending::Exporting { name } && name == a.name)
                    && (action matches AppAction::Export { name, token_data, riot_id, password }
                    && name == a.name && token_data == a.token_data && riot_id == a.riot_id
                    && password == pass),
                None => new.pending == old.pending && action is AwaitKey,
            }
        },
        Mode::ImportPath(path) => new.pending == old.pending && action is AwaitKey
            && if trim(path@).len() == 0 {
            new.mode is Normal && shows_err(new, "File path cannot be empty"@)
        } else {
            same_status(old, new) && (new.mode matches Mode::ImportPass { path: p, pass }
                && p@ == trim(path@) && pass@.len() == 0)
        },
        Mode::ImportPass { path, pass } => new.mode is Normal && if pass@.len() == 0 {
            shows_err(new, "Password cannot be empty"@) && new.pending == old.pending && action is AwaitKey
        } else {
            same_status(old, new) && (new.pending matches Pending::ReadingImport { password }
                && password == pass) && (action matches AppAction::ReadImport { path: p } && p == path)
        },
        _ => new == old && action is AwaitKey,
    }
}

/// What answering `y` to a question does.
pub open spec fn confirmed(old: App, new: App, action: AppAction) -> bool {
    new.accounts == old.accounts && new.selected == old.selected && new.mode is Normal
        && same_status(old, new) && match old.mode {
        Mode::ConfirmDelete => match old.selected_account() {
            Some(a) => (new.pending matches Pending::Storing { ok, err_prefix, reselect }
                && ok@ == quoted("Deleted \""@, a.name@) && err_prefix@ == "Delete failed: "@
                && reselect is None) && (action matches AppAction::Delete { id } && id == a.id),
            None => new.pending == old.pending && action is AwaitKey,
        },
        _ => new.pending is LoggingOut && action is Logout,
    }
}

/// What a key press does to the switcher (while no work is pending).
pub open spec fn key_handled(old: App, new: App, action: AppAction, key: Key, ctrl: bool) -> bool {
    match key_effect(old.mode, old.selected is Some, key, ctrl) {
        KeyEffect::Quit => new == old && action is Quit,
        KeyEffect::Cancel => same_list(old, new) && new.mode is Normal && shows_ok(new, "Cancelled"@)
            && action is AwaitKey,
        KeyEffect::ScrollUp => new.accounts == old.accounts && new.selected == selection_up(
            old.selected,
            old.accounts@.len(),
        ) && new.mode == old.mode && new.pending == old.pending && same_status(old, new)
            && action is AwaitKey,
        KeyEffect::ScrollDown => new.accounts == old.accounts && new.selected == selection_down(
            old.selected,
            old.accounts@.len(),
        ) && new.mode == old.mode && new.pending == old.pending && same_status(old, new)
            && action is AwaitKey,
        KeyEffect::Switch => new.accounts == old.accounts && new.selected == old.selected && new.mode
            == old.mode && same_status(old, new) && match old.selected_account() {
            Some(a) => (new.pending matches Pending::Switching { name, tokens } && name == a.name
                && tokens == a.token_data) && (action matches AppAction::Switch { token_data }
                && token_data == a.token_data),
            None => false,
        },
        KeyEffect::StartSave => same_list(old, new) && same_status(old, new) && (new.mode matches Mode::SaveInput(t)
            && t@.len() == 0) && action is AwaitKey,
        KeyEffect::StartRename => same_list(old, new) && same_status(old, new) && match old.selected_account() {
            Some(a) => new.mode matches Mode::RenameInput(t) && t == a.name,
            None => false,
        } && action is AwaitKey,
        KeyEffect::AskDelete => same_list(old, new) && same_status(old, new) && new.mode is ConfirmDelete
            && action is AwaitKey,
        KeyEffect::Update => new.accounts == old.accounts && new.selected == old.selected && new.mode
            == old.mode && same_status(old, new) && match old.selected_account() {
            Some(a) => (new.pending matches Pending::ReadingTokens { name, update } && name == a.name
                && update == Some(a.id)) && action is ReadTokens,
            None => false,
        },
        KeyEffect::StartExport => same_list(old, new) && same_status(old, new) && (new.mode matches Mode::ExportPass(t)
            && t@.len() == 0) && action is AwaitKey,
        KeyEffect::AskLogout => same_list(old, new) && same_status(old, new) && new.mode is ConfirmLogout
            && action is AwaitKey,
        KeyEffect::PickFile => new.accounts == old.accounts && new.selected == old.selected && new.mode
            == old.mode && same_status(old, new) && new.pending is PickingFile && action is PickFile,
        KeyEffect::Erase => same_list(old, new) && same_status(old, new) && edited(
            old.mode,
            new.mode,
            if typed_text(old.mode).len() == 0 {
                typed_text(old.mode)
            } else {
                typed_text(old.mode).drop_last()
            },
        ) && action is AwaitKey,
        KeyEffect::Type(c) => same_list(old, new) && same_status(old, new) && edited(
            old.mode,
            new.mode,
            typed_text(old.mode).push(c),
        ) && action is AwaitKey,
        KeyEffect::Submit => submitted(old, new, action),
        KeyEffect::Confirm => confirmed(old, new, action),
        KeyEffect::Ignore => new == old && action is AwaitKey,
    }
}

fn copy_opt(o: &Option<String>) -> (out: Option<String>)
    ensures
        out == *o,
{
    match o {
        Some(s) => Some(s.clone()),
        None => None,
    }
}

impl App {
    fn edit_text(&mut self, erase: bool, c: char)
        requires
            is_input(old(self).mode),
        ensures
            edited(
                old(self).mode,
                final(self).mode,
                if erase {
                    if typed_text(old(self).mode).len() == 0 {
                        typed_text(old(self).mode)
                    } else {
                        typed_text(old(self).mode).drop_last()
                    }
                } else {
                    typed_text(old(self).mode).push(c)
                },
            ),
            same_list(*old(self), *final(self)),
            same_status(*old(self), *final(self)),
    {
        let mut mode = Mode::Normal;
        std::mem::swap(&mut mode, &mut self.mode);
        let edit = |t: String| -> (r: String)
            ensures
                r@ == (if erase {
                    if t@.len() == 0 {
                        t@
                    } else {
                        t@.drop_last()
                    }
                } else {
                    t@.push(c)
                }),
            {
                if erase {
                    without_last(t.as_str())
                } else {
                    let mut t = t;
                    t.push(c);
                    t
                }
            };
        self.mode = match mode {
            Mode::SaveInput(t) => Mode::SaveInput(edit(t)),
            Mode::RenameInput(t) => Mode::RenameInput(edit(t)),
            Mode::ExportPass(t) => Mode::ExportPass(edit(t)),
            Mode::ImportPath(t) => Mode::ImportPath(edit(t)),
            Mode::ImportPass { path, pass } => Mode::ImportPass { path, pass: edit(pass) },
            other => other,
        };
    }

    fn submit(&mut self) -> (action: AppAction)
        requires
            old(self).wf(),
            is_input(old(self).mode),
        ensures
            submitted(*old(self), *final(self), action),
    {
        let mut mode = Mode::Normal;
        std::mem::swap(&mut mode, &mut self.mode);
        match mode {
            Mode::SaveInput(text) => {
                let name = trim_str(text.as_str());
                if name.as_str().is_empty() {
                    self.set_err(String::from_str("Name cannot be empty"));
                    AppAction::AwaitKey
                } else {
                    self.pending = Pending::ReadingTokens { name, update: None };
                    AppAction::ReadTokens
                }
            },
            Mode::RenameInput(text) => {
                let name = trim_str(text.as_str());
                if name.as_str().is_empty() {
                    self.set_err(String::from_str("Name cannot be empty"));
                    AppAction::AwaitKey
                } else {
                    match self.selected() {
                        Some(a) => {
                            let id = a.id;
                            let ok = join3("Renamed to \"", name.as_str(), "\"");
                            self.pending = Pending::Storing {
                                ok,
                                err_prefix: String::from_str("Rename failed: "),
                                reselect: None,
                            };
                            AppAction::Rename { id, new_name: name }
                        },
                        None => AppAction::AwaitKey,
                    }
                }
            },
            Mode::ExportPass(pass) => {
                if pass.as_str().is_empty() {
                    self.set_err(String::from_str("Password cannot be empty"));
                    AppAction::AwaitKey
                } else {
                    match self.selected() {
                        Some(a) => {
                            let name = a.name.clone();
                            let token_data = a.token_data.clone();
                            let riot_id = copy_opt(&a.riot_id);
                            self.pending = Pending::Exporting { name: a.name.clone() };
                            AppAction::Export { name, token_data, riot_id, password: pass }
                        },
                        None => AppAction::AwaitKey,
                    }
                }
            },
            Mode::ImportPath(path) => {
                let path = trim_str(path.as_str());
                if path.as_str().is_empty() {
                    self.set_err(String::from_str("File path cannot be empty"));
                } else {
                    self.mode = Mode::ImportPass { path, pass: String::new() };
                }
                AppAction::AwaitKey
            },
            Mode::ImportPass { path, pass } => {
                if pass.as_str().is_empty() {
                    self.set_err(String::from_str("Password cannot be empty"));
                    AppAction::AwaitKey
                } else {
                    self.pending = Pending::ReadingImport { password: pass };
                    AppAction::ReadImport { path }
                }
            },
            other => {
                self.mode = other;
                AppAction::AwaitKey
            },
        }
    }
}


impl App {
    fn confirm(&mut self) -> (action: AppAction)
        requires
            old(self).wf(),
            is_confirm(old(self).mode),
        ensures
            confirmed(*old(self), *final(self), action),
    {
        let mut mode = Mode::Normal;
        std::mem::swap(&mut mode, &mut self.mode);
        match mode {
            Mode::ConfirmDelete => match self.selected() {
                Some(a) => {
                    let id = a.id;
                    let ok = join3("Deleted \"", a.name.as_str(), "\"");
                    self.pending = Pending::Storing {
                        ok,
                        err_prefix: String::from_str("Delete failed: "),
                        reselect: None,
                    };
                    AppAction::Delete { id }
                },
                None => AppAction::AwaitKey,
            },
            _ => {
                self.pending = Pending::LoggingOut;
                AppAction::Logout
            },
        }
    }

    /// Handles a key press while no work is pending; returns the work to
    /// perform next (or `Quit`).
    pub fn handle_key(&mut self, key: Key, ctrl: bool) -> (action: AppAction)
        requires
            old(self).wf(),
            old(self).pending is Idle,
        ensures
            final(self).wf(),
            key_handled(*old(self), *final(self), action, key, ctrl),
    {
        let has_sel = self.selected.is_some();
        let effect = classify_key(&self.mode, has_sel, &key, ctrl);
        match effect {
            KeyEffect::Quit => AppAction::Quit,
            KeyEffect::Cancel => {
                self.mode = Mode::Normal;
                self.set_ok(String::from_str("Cancelled"));
                AppAction::AwaitKey
            },
            KeyEffect::ScrollUp => {
                self.scroll_up();
                AppAction::AwaitKey
            },
            KeyEffect::ScrollDown => {
                self.scroll_down();
                AppAction::AwaitKey
            },
            KeyEffect::Switch => match self.selected() {
                Some(a) => {
                    let name = a.name.clone();
                    let tokens = a.token_data.clone();
                    let token_data = a.token_data.clone();
                    self.pending = Pending::Switching { name, tokens };
                    AppAction::Switch { token_data }
                },
                None => AppAction::AwaitKey,
            },
            KeyEffect::StartSave => {
                self.mode = Mode::SaveInput(String::new());
                AppAction::AwaitKey
            },
            KeyEffect::StartRename => {
                let current = match self.selected() {
                    Some(a) => a.name.clone(),
                    None => String::new(),
                };
                self.mode = Mode::RenameInput(current);
                AppAction::AwaitKey
            },
            KeyEffect::AskDelete => {
                self.mode = Mode::ConfirmDelete;
                AppAction::AwaitKey
            },
            KeyEffect::Update => match self.selected() {
                Some(a) => {
                    let name = a.name.clone();
                    let id = a.id;
                    self.pending = Pending::ReadingTokens { name, update: Some(id) };
                    AppAction::ReadTokens
                },
                None => AppAction::AwaitKey,
            },
            KeyEffect::StartExport => {
                self.mode = Mode::ExportPass(String::new());
                AppAction::AwaitKey
            },
            KeyEffect::AskLogout => {
                self.mode = Mode::ConfirmLogout;
                AppAction::AwaitKey
            },
            KeyEffect::PickFile => {
                self.pending = Pending::PickingFile;
                AppAction::PickFile
            },
            KeyEffect::Erase => {
                self.edit_text(true, ' ');
                AppAction::AwaitKey
            },
            KeyEffect::Type(c) => {
                self.edit_text(false, c);
                AppAction::AwaitKey
            },
            KeyEffect::Submit => self.submit(),
            KeyEffect::Confirm => self.confirm(),
            KeyEffect::Ignore => AppAction::AwaitKey,
        }
    }
}

/// The text `a`, `b` and `c` one after the other.
pub open spec fn text3(a: Seq<char>, b: Seq<char>, c: Seq<char>) -> Seq<char> {
    a + b + c
}

/// The first index at or after `i` of an account with the given id.
pub open spec fn position_of(accounts: Seq<Account>, id: i64, i: int) -> Option<int>
    decreases accounts.len() - i,
{
    if i < 0 || i >= accounts.len() {
        None
    } else if accounts[i].id == id {
        Some(i)
    } else {
        position_of(accounts, id, i + 1)
    }
}

proof fn lemma_position_of_bounds(accounts: Seq<Account>, id: i64, i: int)
    ensures
        position_of(accounts, id, i) matches Some(k) ==> 0 <= k < accounts.len(),
    decreases accounts.len() - i,
{
    if i >= 0 && i < accounts.len() && accounts[i].id != id {
        lemma_position_of_bounds(accounts, id, i + 1);
    }
}

/// The list and selection after the list is reloaded with `listed` (the
/// old list stays when reloading failed) and, for an update, the updated
/// account selected again.
pub open spec fn relisted(old: App, new: App, listed: Result<Vec<Account>, String>, reselect: Option<i64>) -> bool {
    let accounts = match listed {
        Ok(a) => a,
        Err(_) => old.accounts,
    };
    let base = match listed {
        Ok(a) => clamped_selection(old.selected, a@.len()),
        Err(_) => old.selected,
    };
    &&& new.accounts == accounts
    &&& new.selected == match reselect {
        Some(id) => match position_of(accounts@, id, 0) {
            Some(k) => Some(k as usize),
            None => base,
        },
        None => base,
    }
}

/// The message shown once a session has been stored as `name`.
pub open spec fn stored_message(name: Seq<char>, update: Option<i64>) -> Seq<char> {
    if update is Some {
        quoted("Updated tokens for \""@, name)
    } else {
        quoted("Saved session as \""@, name)
    }
}

/// What a report on the pending work does: the next step of that work, or
/// the status that ends it. A report of another kind changes nothing.
pub open spec fn resumed(old: App, new: App, action: AppAction, event: AppEvent) -> bool {
    let idle_now = new.pending is Idle && new.accounts == old.accounts && new.selected == old.selected
        && new.mode == old.mode && action is AwaitKey;
    let next_step = new.accounts == old.accounts && new.selected == old.selected && new.mode == old.mode
        && same_status(old, new);
    match (old.pending, event) {
        (Pending::PickingFile, AppEvent::FileChosen(chosen)) => new.pending is Idle && new.accounts
            == old.accounts && new.selected == old.selected && same_status(old, new) && action is AwaitKey
            && match chosen {
            Some(path) => new.mode matches Mode::ImportPass { path: p, pass } && p == path && pass@.len() == 0,
            None => new.mode matches Mode::ImportPath(t) && t@.len() == 0,
        },
        (Pending::ReadingTokens { name, update }, AppEvent::TokensRead(read)) => match read {
            Ok(tokens) => next_step && (new.pending matches Pending::FetchingRiotId { name: n, tokens: t, update: u }
                && n == name && t == tokens && u == update) && action is FetchRiotId,
            Err(e) => idle_now && shows_err(new, e@),
        },
        (Pending::FetchingRiotId { name, tokens, update }, AppEvent::RiotIdFetched(riot_id)) => next_step
            && (new.pending matches Pending::Storing { ok, err_prefix, reselect } && ok@ == stored_message(name@, update)
            && err_prefix@ == (if update is Some { "Update failed: "@ } else { "Could not save: "@ })
            && reselect == update) && (action matches AppAction::Upsert { name: n, token_data, riot_id: r }
            && n == name && token_data == tokens && r == riot_id),
        (Pending::Storing { ok, err_prefix, reselect }, AppEvent::Stored(stored)) => match stored {
            Ok(()) => next_step && (new.pending matches Pending::Listing { ok: o, reselect: r } && o == ok
                && r == reselect) && action is List,
            Err(e) => idle_now && shows_err(new, err_prefix@ + e@),
        },
        (Pending::Listing { ok, reselect }, AppEvent::Listed(listed)) => new.pending is Idle && new.mode
            == old.mode && relisted(old, new, listed, reselect) && shows_ok(new, ok@) && action is AwaitKey,
        (Pending::Switching { name, tokens }, AppEvent::Switched(switched)) => match switched {
            Ok(()) => new.pending is Idle && new.accounts == old.accounts && new.selected == old.selected
                && new.mode == old.mode && shows_ok(
                new,
                text3("Switched to \""@, name@, "\" — Riot Client is launching..."@),
            ) && (action matches AppAction::WatchRiotId { name: n, token_data } && n == name && token_data
                == tokens),
            Err(e) => idle_now && shows_err(new, "Switch failed: "@ + e@),
        },
        (Pending::Exporting { name }, AppEvent::Exported(exported)) => match exported {
            Ok(json) => next_step && new.pending is WritingExport && (action matches AppAction::WriteExport {
                name: n,
                json: j,
            } && n == name && j == json),
            Err(e) => idle_now && shows_err(new, "Export failed: "@ + e@),
        },
        (Pending::WritingExport, AppEvent::Written(written)) => idle_now && match written {
            Ok(path) => shows_ok(new, "Exported to: "@ + path@),
            Err(e) => shows_err(new, "Write failed: "@ + e@),
        },
        (Pending::ReadingImport { password }, AppEvent::FileRead(read)) => match read {
            Ok(json) => next_step && new.pending is Decrypting && (action matches AppAction::Decrypt {
                json: j,
                password: p,
            } && j == json && p == password),
            Err(path) => idle_now && shows_err(new, "File not found: "@ + path@),
        },
        (Pending::Decrypting, AppEvent::Imported(imported)) => match imported {
            Ok((name, tokens, riot_id)) => next_step && (new.pending matches Pending::Storing {
                ok,
                err_prefix,
                reselect,
            } && ok@ == text3("Imported \""@, name@, "\" successfully"@) && err_prefix@ == "DB error: "@
                && reselect is None) && (action matches AppAction::Upsert { name: n, token_data, riot_id: r }
                && n == name && token_data == tokens && opt_view(r) == match riot_id {
                Some(id) => Some(id@),
                None => riot_id_in(tokens@),
            }),
            Err(e) => idle_now && shows_err(new, e@),
        },
        (Pending::LoggingOut, AppEvent::LoggedOut(result)) => idle_now && match result {
            Ok(()) => shows_ok(new, "Logged out — Riot Client is launching to login screen."@),
            Err(e) => shows_err(new, "Logout failed: "@ + e@),
        },
        _ => new == old && action is AwaitKey,
    }
}

fn concat_str(a: &str, b: &str) -> (out: String)
    ensures
        out@ == a@ + b@,
{
    let out = join3(a, b, "");
    proof {
        reveal_strlit("");
    }
    assert(a@ + b@ + ""@ == a@ + b@);
    out
}

impl App {
    fn position(&self, id: i64) -> (out: Option<usize>)
        ensures
            match out {
                Some(k) => position_of(self.accounts@, id, 0) == Some(k as int),
                None => position_of(self.accounts@, id, 0) is None,
            },
    {
        let n = self.accounts.len();
        let mut i: usize = 0;
        while i < n
            invariant
                n == self.accounts@.len(),
                i <= n,
                position_of(self.accounts@, id, 0) == position_of(self.accounts@, id, i as int),
            decreases n - i,
        {
            if self.accounts[i].id == id {
                return Some(i);
            }
            i += 1;
        }
        None
    }

    fn finish_listing(&mut self, listed: Result<Vec<Account>, String>, ok: String, reselect: Option<i64>)
        requires
            old(self).wf(),
        ensures
            final(self).wf(),
            final(self).mode == old(self).mode,
            final(self).pending == old(self).pending,
            relisted(*old(self), *final(self), listed, reselect),
            shows_ok(*final(self), ok@),
    {
        self.refresh(listed);
        match reselect {
            Some(id) => match self.position(id) {
                Some(k) => {
                    proof {
                        lemma_position_of_bounds(self.accounts@, id, 0);
                    }
                    self.selected = Some(k);
                },
                None => {},
            },
            None => {},
        }
        self.set_ok(ok);
    }

    /// Takes the report on the pending work and answers with the next work.
    pub fn resume(&mut self, event: AppEvent) -> (action: AppAction)
        requires
            old(self).wf(),
            !(old(self).pending is Idle),
        ensures
            final(self).wf(),
            resumed(*old(self), *final(self), action, event),
    {
        let mut pending = Pending::Idle;
        std::mem::swap(&mut pending, &mut self.pending);
        match (pending, event) {
            (Pending::PickingFile, AppEvent::FileChosen(chosen)) => {
                self.mode = match chosen {
                    Some(path) => Mode::ImportPass { path, pass: String::new() },
                    None => Mode::ImportPath(String::new()),
                };
                AppAction::AwaitKey
            },
            (Pending::ReadingTokens { name, update }, AppEvent::TokensRead(read)) => match read {
                Ok(tokens) => {
                    self.pending = Pending::FetchingRiotId { name, tokens, update };
                    AppAction::FetchRiotId
                },
                Err(e) => {
                    self.set_err(e);
                    AppAction::AwaitKey
                },
            },
            (Pending::FetchingRiotId { name, tokens, update }, AppEvent::RiotIdFetched(riot_id)) => {
                let (ok, err_prefix) = match update {
                    Some(_) => (
                        join3("Updated tokens for \"", name.as_str(), "\""),
                        String::from_str("Update failed: "),
                    ),
                    None => (
                        join3("Saved session as \"", name.as_str(), "\""),
                        String::from_str("Could not save: "),
                    ),
                };
                self.pending = Pending::Storing { ok, err_prefix, reselect: update };
                AppAction::Upsert { name, token_data: tokens, riot_id }
            },
            (Pending::Storing { ok, err_prefix, reselect }, AppEvent::Stored(stored)) => match stored {
                Ok(()) => {
                    self.pending = Pending::Listing { ok, reselect };
                    AppAction::List
                },
                Err(e) => {
                    self.set_err(concat_str(err_prefix.as_str(), e.as_str()));
                    AppAction::AwaitKey
                },
            },
            (Pending::Listing { ok, reselect }, AppEvent::Listed(listed)) => {
                self.finish_listing(listed, ok, reselect);
                AppAction::AwaitKey
            },
            (Pending::Switching { name, tokens }, AppEvent::Switched(switched)) => match switched {
                Ok(()) => {
                    self.set_ok(join3("Switched to \"", name.as_str(), "\" — Riot Client is launching..."));
                    AppAction::WatchRiotId { name, token_data: tokens }
                },
                Err(e) => {
                    self.set_err(concat_str("Switch failed: ", e.as_str()));
                    AppAction::AwaitKey
                },
            },
            (Pending::Exporting { name }, AppEvent::Exported(exported)) => match exported {
                Ok(json) => {
                    self.pending = Pending::WritingExport;
                    AppAction::WriteExport { name, json }
                },
                Err(e) => {
                    self.set_err(concat_str("Export failed: ", e.as_str()));
                    AppAction::AwaitKey
                },
            },
            (Pending::WritingExport, AppEvent::Written(written)) => {
                match written {
                    Ok(path) => self.set_ok(concat_str("Exported to: ", path.as_str())),
                    Err(e) => self.set_err(concat_str("Write failed: ", e.as_str())),
                }
                AppAction::AwaitKey
            },
            (Pending::ReadingImport { password }, AppEvent::FileRead(read)) => match read {
                Ok(json) => {
                    self.pending = Pending::Decrypting;
                    AppAction::Decrypt { json, password }
                },
                Err(path) => {
                    self.set_err(concat_str("File not found: ", path.as_str()));
                    AppAction::AwaitKey
                },
            },
            (Pending::Decrypting, AppEvent::Imported(imported)) => match imported {
                Ok((name, tokens, payload_riot_id)) => {
                    let riot_id = match payload_riot_id {
                        Some(id) => Some(id),
                        None => extract_riot_id(tokens.as_str()),
                    };
                    self.pending = Pending::Storing {
                        ok: join3("Imported \"", name.as_str(), "\" successfully"),
                        err_prefix: String::from_str("DB error: "),
                        reselect: None,
                    };
                    AppAction::Upsert { name, token_data: tokens, riot_id }
                },
                Err(e) => {
                    self.set_err(e);
                    AppAction::AwaitKey
                },
            },
            (Pending::LoggingOut, AppEvent::LoggedOut(result)) => {
                match result {
                    Ok(()) => self.set_ok(String::from_str("Logged out — Riot Client is launching to login screen.")),
                    Err(e) => self.set_err(concat_str("Logout failed: ", e.as_str())),
                }
                AppAction::AwaitKey
            },
            (other, _) => {
                self.pending = other;
                AppAction::AwaitKey
            },
        }
    }

    /// Takes a report (a key press, or the result of the pending work) and
    /// answers with the work to perform next.
    pub fn step(&mut self, event: AppEvent) -> (action: AppAction)
        requires
            old(self).wf(),
        ensures
            final(self).wf(),
            step_taken(*old(self), *final(self), action, event),
    {
        if matches!(self.pending, Pending::Idle) {
            match event {
                AppEvent::Key { key, ctrl } => self.handle_key(key, ctrl),
                _ => AppAction::AwaitKey,
            }
        } else {
            self.resume(event)
        }
    }
}

/// The Riot ID shown for an account: the stored one, or else the one its
/// saved session names.
pub open spec fn shown_riot_id_of(a: Account) -> Option<Seq<char>> {
    match a.riot_id {
        Some(r) => Some(r@),
        None => riot_id_in(a.token_data@),
    }
}

/// The Riot ID to show for an account (`None` shows a dash).
pub fn shown_riot_id(a: &Account) -> (out: Option<String>)
    ensures
        opt_view(out) == shown_riot_id_of(*a),
{
    match &a.riot_id {
        Some(r) => Some(r.clone()),
        None => extract_riot_id(a.token_data.as_str()),
    }
}

/// `n` copies of `c`.
pub open spec fn repeated(c: char, n: nat) -> Seq<char> {
    Seq::new(n, |i: int| c)
}

/// The line an input field shows: two spaces, the typed text (or one dot
/// per character when it is a password) and a block cursor.
pub open spec fn input_line(input: Seq<char>, masked: bool) -> Seq<char> {
    seq![' ', ' '] + (if masked { repeated('\u{2022}', input.len()) } else { input }) + seq!['\u{2588}']
}

/// The line an input field shows.
pub fn input_display(input: &str, masked: bool) -> (out: String)
    ensures
        out@ == input_line(input@, masked),
{
    let cs = crate::text::chars_of(input);
    let mut line: Vec<char> = Vec::new();
    line.push(' ');
    line.push(' ');
    let n = cs.len();
    let mut i: usize = 0;
    while i < n
        invariant
            n == cs@.len(),
            cs@ == input@,
            i <= n,
            line@ == seq![' ', ' '] + (if masked { repeated('\u{2022}', i as nat) } else { cs@.take(i as int) }),
        decreases n - i,
    {
        let ghost before = line@;
        if masked {
            line.push('\u{2022}');
            assert(repeated('\u{2022}', (i + 1) as nat) == repeated('\u{2022}', i as nat).push('\u{2022}'));
        } else {
            line.push(cs[i]);
            assert(cs@.take(i + 1) == cs@.take(i as int).push(cs@[i as int]));
        }
        i += 1;
    }
    assert(cs@.take(n as int) == cs@);
    line.push('\u{2588}');
    crate::text::string_of(&line)
}

/// A rectangle of the screen.
pub struct Area {
    pub x: u16,
    pub y: u16,
    pub width: u16,
    pub height: u16,
}

/// A `w` by `h` box centred in `area`, shrunk to fit it.
pub fn centered(w: u16, h: u16, area: &Area) -> (out: Area)
    requires
        area.x + (if area.width >= w { area.width - w } else { 0 }) / 2 <= u16::MAX,
        area.y + (if area.height >= h { area.height - h } else { 0 }) / 2 <= u16::MAX,
    ensures
        out.x == area.x + (if area.width >= w { area.width - w } else { 0 }) / 2,
        out.y == area.y + (if area.height >= h { area.height - h } else { 0 }) / 2,
        out.width == (if w <= area.width { w } else { area.width }),
        out.height == (if h <= area.height { h } else { area.height }),
{
    let x = area.x + area.width.saturating_sub(w) / 2;
    let y = area.y + area.height.saturating_sub(h) / 2;
    Area {
        x,
        y,
        width: if w <= area.width { w } else { area.width },
        height: if h <= area.height { h } else { area.height },
    }
}

/// Moving the selection up and then down comes back to the same account.
pub proof fn lemma_scroll_up_then_down(selected: Option<usize>, len: nat)
    requires
        selection_fits(selected, len),
        len <= usize::MAX,
    ensures
        selection_down(selection_up(selected, len), len) == selected,
{
    if let Some(i) = selected {
        if i > 0 {
            lemma_next_index(i - 1, len);
        } else {
            lemma_next_index(len - 1, len);
        }
    }
}

/// One step down from index `i` of `len` is `i + 1`, or 0 from the last.
proof fn lemma_next_index(i: int, len: nat)
    requires
        0 <= i < len,
    ensures
        (i + 1) % (len as int) == (if i + 1 < len { i + 1 } else { 0 }),
{
    if i + 1 < len {
        vstd::arithmetic::div_mod::lemma_small_mod((i + 1) as nat, len);
    } else {
        vstd::arithmetic::div_mod::lemma_mod_self_0(len as int);
    }
}

/// Moving the selection down and then up comes back to the same account.
pub proof fn lemma_scroll_down_then_up(selected: Option<usize>, len: nat)
    requires
        selection_fits(selected, len),
        len <= usize::MAX,
    ensures
        selection_up(selection_down(selected, len), len) == selected,
{
    if let Some(i) = selected {
        lemma_next_index(i as int, len);
    }
}

/// Typing a character and then pressing Backspace leaves the typed text
/// (and the input being filled) as it was.
pub proof fn lemma_type_then_erase(a: App, b: App, c: App, ch: char, act1: AppAction, act2: AppAction)
    requires
        is_input(a.mode),
        key_handled(a, b, act1, Key::Char(ch), false),
        key_handled(b, c, act2, Key::Backspace, false),
    ensures
        typed_text(c.mode) == typed_text(a.mode),
        c.accounts == a.accounts,
        c.selected == a.selected,
        c.pending == a.pending,
        match a.mode {
            Mode::SaveInput(_) => c.mode is SaveInput,
            Mode::RenameInput(_) => c.mode is RenameInput,
            Mode::ExportPass(_) => c.mode is ExportPass,
            Mode::ImportPath(_) => c.mode is ImportPath,
            Mode::ImportPass { path, .. } => c.mode matches Mode::ImportPass { path: p, .. } && p == path,
            _ => false,
        },
{
    assert(key_effect(a.mode, a.selected is Some, Key::Char(ch), false) == KeyEffect::Type(ch));
    assert(is_input(b.mode));
    assert(typed_text(b.mode) == typed_text(a.mode).push(ch));
    assert(key_effect(b.mode, b.selected is Some, Key::Backspace, false) == KeyEffect::Erase);
    assert(typed_text(a.mode).push(ch).drop_last() == typed_text(a.mode));
}

/// What one step does: a key press while no work is pending, a report on
/// the pending work otherwise (other reports change nothing).
pub open spec fn step_taken(old: App, new: App, action: AppAction, event: AppEvent) -> bool {
    if old.pending is Idle {
        match event {
            AppEvent::Key { key, ctrl } => key_handled(old, new, action, key, ctrl),
            _ => new == old && action is AwaitKey,
        }
    } else {
        resumed(old, new, action, event)
    }
}

/// A run of steps: `apps[i]` becomes `apps[i + 1]` on `events[i]`, asking
/// for `actions[i]`, every state well formed.
pub open spec fn is_run(apps: Seq<App>, events: Seq<AppEvent>, actions: Seq<AppAction>) -> bool {
    &&& apps.len() == events.len() + 1
    &&& actions.len() == events.len()
    &&& forall|i: int| 0 <= i < apps.len() ==> #[trigger] apps[i].wf()
    &&& forall|i: int| 0 <= i < events.len() ==> #[trigger] step_taken(apps[i], apps[i + 1], actions[i], events[i])
}

/// Whether `event` is a press of `d`/`D` that opens the delete question in
/// `a`.
pub open spec fn asks_delete(a: App, event: AppEvent) -> bool {
    a.pending is Idle && match event {
        AppEvent::Key { key, ctrl } => key_effect(a.mode, a.selected is Some, key, ctrl) == KeyEffect::AskDelete,
        _ => false,
    }
}

/// Whether `event` is a press of `l`/`L` that opens the logout question in
/// `a`.
pub open spec fn asks_logout(a: App, event: AppEvent) -> bool {
    a.pending is Idle && match event {
        AppEvent::Key { key, ctrl } => key_effect(a.mode, a.selected is Some, key, ctrl) == KeyEffect::AskLogout,
        _ => false,
    }
}

/// Whether `event` is a press of `y`/`Y` that answers the question open in
/// `a`.
pub open spec fn answers_yes(a: App, event: AppEvent) -> bool {
    a.pending is Idle && match event {
        AppEvent::Key { key, ctrl } => key_effect(a.mode, a.selected is Some, key, ctrl) == KeyEffect::Confirm,
        _ => false,
    }
}

/// Whether `action` deletes the account selected in `a`.
pub open spec fn deletes_selected(a: App, action: AppAction) -> bool {
    match (a.selected_account(), action) {
        (Some(acct), AppAction::Delete { id }) => id == acct.id,
        _ => false,
    }
}

proof fn lemma_step_into_question(a: App, b: App, action: AppAction, event: AppEvent)
    requires
        a.wf(),
        step_taken(a, b, action, event),
    ensures
        b.mode is ConfirmDelete && !(a.mode is ConfirmDelete) ==> asks_delete(a, event)
            && b.accounts == a.accounts && b.selected == a.selected,
        b.mode is ConfirmLogout && !(a.mode is ConfirmLogout) ==> asks_logout(a, event),
        a.mode is ConfirmDelete && b.mode is ConfirmDelete ==> b.accounts == a.accounts && b.selected
            == a.selected,
        action is Delete ==> deletes_selected(a, action),
        action is Delete ==> a.mode is ConfirmDelete && answers_yes(a, event),
        action is Logout ==> a.mode is ConfirmLogout && answers_yes(a, event),
{
}

proof fn lemma_delete_question_origin(apps: Seq<App>, events: Seq<AppEvent>, actions: Seq<AppAction>, k: int)
    requires
        is_run(apps, events, actions),
        apps[0].mode is Normal,
        0 <= k < apps.len(),
        apps[k].mode is ConfirmDelete,
    ensures
        exists|j: int| 0 <= j < k && #[trigger] asks_delete(apps[j], events[j]) && apps[j].accounts
            == apps[k].accounts && apps[j].selected == apps[k].selected,
    decreases k,
{
    let j = k - 1;
    assert(apps[j].wf() && apps[k].wf());
    assert(step_taken(apps[j], apps[j + 1], actions[j], events[j]));
    lemma_step_into_question(apps[j], apps[k], actions[j], events[j]);
    if apps[j].mode is ConfirmDelete {
        lemma_delete_question_origin(apps, events, actions, j);
    }
}

/// An account is deleted only after `d` opened the delete question and `y`
/// answered it, and it is the account selected when `d` was pressed: the
/// selection cannot move while the question is open.
pub proof fn lemma_delete_only_the_account_asked_about(apps: Seq<App>, events: Seq<AppEvent>, actions: Seq<AppAction>)
    requires
        is_run(apps, events, actions),
        apps[0].mode is Normal,
        events.len() >= 1,
        actions.last() is Delete,
    ensures
        apps[events.len() - 1].mode is ConfirmDelete,
        answers_yes(apps[events.len() - 1], events.last()),
        exists|j: int| 0 <= j < events.len() - 1 && #[trigger] asks_delete(apps[j], events[j])
            && deletes_selected(apps[j], actions.last()),
{
    let n = events.len() - 1;
    assert(apps[n].wf());
    assert(step_taken(apps[n], apps[n + 1], actions[n], events[n]));
    lemma_step_into_question(apps[n], apps[n + 1], actions[n], events[n]);
    lemma_delete_question_origin(apps, events, actions, n);
    let j = choose|j: int| 0 <= j < n && #[trigger] asks_delete(apps[j], events[j]) && apps[j].accounts
        == apps[n].accounts && apps[j].selected == apps[n].selected;
    assert(apps[j].selected_account() == apps[n].selected_account());
}

proof fn lemma_logout_question_origin(apps: Seq<App>, events: Seq<AppEvent>, actions: Seq<AppAction>, k: int)
    requires
        is_run(apps, events, actions),
        apps[0].mode is Normal,
        0 <= k < apps.len(),
        apps[k].mode is ConfirmLogout,
    ensures
        exists|j: int| 0 <= j < k && #[trigger] asks_logout(apps[j], events[j]),
    decreases k,
{
    let j = k - 1;
    assert(apps[j].wf() && apps[k].wf());
    assert(step_taken(apps[j], apps[j + 1], actions[j], events[j]));
    lemma_step_into_question(apps[j], apps[k], actions[j], events[j]);
    if apps[j].mode is ConfirmLogout {
        lemma_logout_question_origin(apps, events, actions, j);
    }
}

/// The client is logged out only after `l` opened the logout question and
/// `y` answered it.
pub proof fn lemma_logout_only_when_asked(apps: Seq<App>, events: Seq<AppEvent>, actions: Seq<AppAction>)
    requires
        is_run(apps, events, actions),
        apps[0].mode is Normal,
        events.len() >= 1,
        actions.last() is Logout,
    ensures
        apps[events.len() - 1].mode is ConfirmLogout,
        answers_yes(apps[events.len() - 1], events.last()),
        exists|j: int| 0 <= j < events.len() - 1 && #[trigger] asks_logout(apps[j], events[j]),
{
    let n = events.len() - 1;
    assert(apps[n].wf());
    assert(step_taken(apps[n], apps[n + 1], actions[n], events[n]));
    lemma_step_into_question(apps[n], apps[n + 1], actions[n], events[n]);
    lemma_logout_question_origin(apps, events, actions, n);
}

/// In the list, Down or `j` moves the selection to the next account, from
/// the last back to the first, and Up or `k` to the previous one, from the
/// first to the last; nothing else changes.
pub proof fn lemma_arrow_keys_move_selection(a: App, b: App, action: AppAction, key: Key, ctrl: bool, i: usize)
    requires
        a.wf(),
        a.mode is Normal,
        a.pending is Idle,
        a.selected == Some(i),
        step_taken(a, b, action, AppEvent::Key { key, ctrl }),
    ensures
        key == Key::Down || key == Key::Char('j') ==> b.selected == Some(((i + 1) % a.accounts@.len() as int) as usize),
        key == Key::Up || key == Key::Char('k') ==> b.selected == Some(
            (if i == 0 { a.accounts@.len() - 1 } else { i - 1 }) as usize,
        ),
        key == Key::Down || key == Key::Char('j') || key == Key::Up || key == Key::Char('k') ==> b.accounts
            == a.accounts && b.mode is Normal && b.pending is Idle && action is AwaitKey,
{
}

/// The keys of the list, with account `i` selected and Ctrl not held: `q`
/// quits; `s` opens an empty name field; `r` a name field holding the
/// account's name; `d` the delete question; `e` an empty password field;
/// `l` the logout question; `i` the file dialog; `u` reads the live session
/// to update the account; Enter switches to the account's session. Only the
/// arrow keys (and `j`, `k`) move the selection, and no key changes the list.
pub proof fn lemma_list_keys(a: App, b: App, action: AppAction, key: Key, i: usize)
    requires
        a.wf(),
        a.mode is Normal,
        a.pending is Idle,
        a.selected == Some(i),
        step_taken(a, b, action, AppEvent::Key { key, ctrl: false }),
    ensures
        b.accounts == a.accounts,
        !(key == Key::Up || key == Key::Down || key == Key::Char('j') || key == Key::Char('k')) ==> b.selected
            == a.selected,
        key == Key::Char('q') || key == Key::Char('Q') ==> action is Quit,
        key == Key::Char('s') || key == Key::Char('S') ==> (b.mode matches Mode::SaveInput(t) && t@.len() == 0)
            && action is AwaitKey,
        key == Key::Char('r') || key == Key::Char('R') ==> (b.mode matches Mode::RenameInput(t) && t
            == a.accounts@[i as int].name) && action is AwaitKey,
        key == Key::Char('d') || key == Key::Char('D') ==> b.mode is ConfirmDelete && action is AwaitKey,
        key == Key::Char('e') || key == Key::Char('E') ==> (b.mode matches Mode::ExportPass(t) && t@.len() == 0)
            && action is AwaitKey,
        key == Key::Char('l') || key == Key::Char('L') ==> b.mode is ConfirmLogout && action is AwaitKey,
        key == Key::Char('i') || key == Key::Char('I') ==> b.pending is PickingFile && action is PickFile,
        key == Key::Char('u') || key == Key::Char('U') ==> (b.pending matches Pending::ReadingTokens {
            name,
            update,
        } && name == a.accounts@[i as int].name && update == Some(a.accounts@[i as int].id))
            && action is ReadTokens,
        key == Key::Enter ==> action == (AppAction::Switch { token_data: a.accounts@[i as int].token_data }),
{
}

/// While a question is open (Ctrl not held), `y` or `Y` answers it: the
/// delete question deletes the selected account, the logout question logs
/// out. Any other key closes it, shows `Cancelled` and asks for nothing.
/// Either way the list and the selection stay and the list is shown again.
pub proof fn lemma_question_keys(a: App, b: App, action: AppAction, key: Key)
    requires
        a.wf(),
        a.mode is ConfirmDelete || a.mode is ConfirmLogout,
        a.pending is Idle,
        step_taken(a, b, action, AppEvent::Key { key, ctrl: false }),
    ensures
        b.mode is Normal,
        b.accounts == a.accounts,
        b.selected == a.selected,
        (key == Key::Char('y') || key == Key::Char('Y')) && a.mode is ConfirmDelete ==> match a.selected {
            Some(i) => action == (AppAction::Delete { id: a.accounts@[i as int].id }),
            None => action is AwaitKey,
        },
        (key == Key::Char('y') || key == Key::Char('Y')) && a.mode is ConfirmLogout ==> action is Logout,
        !(key == Key::Char('y') || key == Key::Char('Y')) ==> action is AwaitKey && b.pending is Idle
            && b.status@ == "Cancelled"@ && !b.status_err,
{
}

/// While text is being typed (Ctrl not held), a character is added to the
/// end of it and Backspace takes the last one off (nothing when it is
/// empty); the field stays open and nothing is asked for.
pub proof fn lemma_typing_keys(a: App, b: App, action: AppAction, key: Key)
    requires
        a.wf(),
        is_input(a.mode),
        a.pending is Idle,
        key is Char || key is Backspace,
        step_taken(a, b, action, AppEvent::Key { key, ctrl: false }),
    ensures
        is_input(b.mode),
        action is AwaitKey,
        b.accounts == a.accounts && b.selected == a.selected && b.pending is Idle,
        key matches Key::Char(c) ==> typed_text(b.mode) == typed_text(a.mode).push(c),
        key is Backspace ==> typed_text(b.mode) == (if typed_text(a.mode).len() == 0 {
            typed_text(a.mode)
        } else {
            typed_text(a.mode).drop_last()
        }),
{
}

/// Enter in a field, with account `i` selected: a name (trimmed) that is
/// not empty starts a save or renames the account; a password that is not
/// empty exports the account with that password or, for an import, reads
/// the chosen file; a file name (trimmed) that is not empty asks for the
/// import password. An empty entry shows why it was refused and asks for
/// nothing.
pub proof fn lemma_enter_in_fields(a: App, b: App, action: AppAction, i: usize)
    requires
        a.wf(),
        is_input(a.mode),
        a.pending is Idle,
        a.selected == Some(i),
        step_taken(a, b, action, AppEvent::Key { key: Key::Enter, ctrl: false }),
    ensures
        b.accounts == a.accounts && b.selected == a.selected,
        a.mode matches Mode::SaveInput(t) ==> if trim(t@).len() == 0 {
            action is AwaitKey && b.status@ == "Name cannot be empty"@ && b.status_err
        } else {
            action is ReadTokens && (b.pending matches Pending::ReadingTokens { name, update } && name@ == trim(
                t@,
            ) && update is None)
        },
        a.mode matches Mode::RenameInput(t) ==> if trim(t@).len() == 0 {
            action is AwaitKey && b.status@ == "Name cannot be empty"@ && b.status_err
        } else {
            action matches AppAction::Rename { id, new_name } && id == a.accounts@[i as int].id && new_name@
                == trim(t@)
        },
        a.mode matches Mode::ExportPass(p) ==> if p@.len() == 0 {
            action is AwaitKey && b.status@ == "Password cannot be empty"@ && b.status_err
        } else {
            action == (AppAction::Export {
                name: a.accounts@[i as int].name,
                token_data: a.accounts@[i as int].token_data,
                riot_id: a.accounts@[i as int].riot_id,
                password: p,
            })
        },
        a.mode matches Mode::ImportPath(t) ==> action is AwaitKey && if trim(t@).len() == 0 {
            b.mode is Normal && b.status@ == "File path cannot be empty"@ && b.status_err
        } else {
            b.mode matches Mode::ImportPass { path, pass } && path@ == trim(t@) && pass@.len() == 0
        },
        a.mode matches Mode::ImportPass { path, pass } ==> if pass@.len() == 0 {
            action is AwaitKey && b.status@ == "Password cannot be empty"@ && b.status_err
        } else {
            action == (AppAction::ReadImport { path }) && b.pending == (Pending::ReadingImport { password: pass })
        },
{
}

/// An import decrypts the text of the file it read with the password typed,
/// then stores the account found under its own name and session, with the
/// file's Riot ID or, when the file has none, the one the session names.
pub proof fn lemma_import_stores_what_the_file_holds(
    apps: Seq<App>,
    actions: Seq<AppAction>,
    password: String,
    json: String,
    name: String,
    tokens: String,
    riot_id: Option<String>,
)
    requires
        apps.len() == 3,
        actions.len() == 2,
        apps[0].pending == (Pending::ReadingImport { password }),
        step_taken(apps[0], apps[1], actions[0], AppEvent::FileRead(Ok(json))),
        step_taken(apps[1], apps[2], actions[1], AppEvent::Imported(Ok((name, tokens, riot_id)))),
    ensures
        actions[0] == (AppAction::Decrypt { json, password }),
        actions[1] matches AppAction::Upsert { name: n, token_data, riot_id: r } && n == name && token_data
            == tokens && opt_view(r) == match riot_id {
            Some(id) => Some(id@),
            None => crate::riot::riot_id_in(tokens@),
        },
{
}

/// An export writes the text that encrypting the account gave to the
/// account's own file.
pub proof fn lemma_export_writes_what_was_sealed(a: App, b: App, action: AppAction, json: String)
    requires
        a.pending is Exporting,
        step_taken(a, b, action, AppEvent::Exported(Ok(json))),
    ensures
        action == (AppAction::WriteExport { name: a.pending->Exporting_name, json }),
{
}

/// A session read for a save or an update is stored together with exactly
/// the Riot ID that the client then reported (none when it reported none).
pub proof fn lemma_store_uses_fetched_riot_id(a: App, b: App, action: AppAction, riot_id: Option<String>)
    requires
        a.pending is FetchingRiotId,
        step_taken(a, b, action, AppEvent::RiotIdFetched(riot_id)),
    ensures
        action matches AppAction::Upsert { name, token_data, riot_id: r } && r == riot_id
            && name == a.pending->FetchingRiotId_name && token_data == a.pending->FetchingRiotId_tokens,
{
}

/// Pressing `u` on an account, then reading the live session `tokens` and
/// the client's Riot ID, stores that session and that Riot ID under the
/// selected account's name.
pub proof fn lemma_update_stores_session_and_riot_id(
    apps: Seq<App>,
    actions: Seq<AppAction>,
    key: Key,
    ctrl: bool,
    tokens: String,
    riot_id: Option<String>,
)
    requires
        apps.len() == 4,
        actions.len() == 3,
        apps[0].wf(),
        apps[0].mode is Normal,
        apps[0].pending is Idle,
        apps[0].selected is Some,
        key == Key::Char('u') || key == Key::Char('U'),
        step_taken(apps[0], apps[1], actions[0], AppEvent::Key { key, ctrl }),
        step_taken(apps[1], apps[2], actions[1], AppEvent::TokensRead(Ok(tokens))),
        step_taken(apps[2], apps[3], actions[2], AppEvent::RiotIdFetched(riot_id)),
    ensures
        actions[0] is ReadTokens,
        actions[1] is FetchRiotId,
        actions[2] == (AppAction::Upsert {
            name: apps[0].accounts@[apps[0].selected->0 as int].name,
            token_data: tokens,
            riot_id,
        }),
{
}

proof fn lemma_position_of_first(accounts: Seq<Account>, id: i64, i: int, k: int)
    requires
        0 <= i <= k < accounts.len(),
        accounts[k].id == id,
        forall|j: int| i <= j < k ==> #[trigger] accounts[j].id != id,
    ensures
        position_of(accounts, id, i) == Some(k),
    decreases k - i,
{
    if i < k {
        lemma_position_of_first(accounts, id, i + 1, k);
    }
}

/// After the list is reloaded, the selected index stays where it still fits
/// the new list and otherwise moves to the last account (an empty list has
/// no selection); after an update, the first account with the updated id
/// is selected instead, when the new list has one.
pub proof fn lemma_reload_keeps_selected_index(
    a: App,
    b: App,
    action: AppAction,
    accounts: Vec<Account>,
    ok: String,
    reselect: Option<i64>,
)
    requires
        a.wf(),
        a.pending == (Pending::Listing { ok, reselect }),
        step_taken(a, b, action, AppEvent::Listed(Ok(accounts))),
    ensures
        b.accounts == accounts,
        b.pending is Idle,
        action is AwaitKey,
        accounts@.len() == 0 ==> b.selected is None,
        reselect is None && accounts@.len() > 0 ==> b.selected == Some(
            (if a.selected is None {
                0
            } else if a.selected->0 < accounts@.len() {
                a.selected->0 as int
            } else {
                accounts@.len() - 1
            }) as usize,
        ),
        forall|k: int|
            reselect == Some(#[trigger] accounts@[k].id) && 0 <= k < accounts@.len() && (forall|j: int|
                0 <= j < k ==> accounts@[j].id != reselect->0) ==> b.selected == Some(k as usize),
{
    assert forall|k: int|
        reselect == Some(#[trigger] accounts@[k].id) && 0 <= k < accounts@.len() && (forall|j: int|
            0 <= j < k ==> accounts@[j].id != reselect->0) implies b.selected == Some(k as usize) by {
        lemma_position_of_first(accounts@, reselect->0, 0, k);
    }
    if accounts@.len() == 0 {
        if let Some(id) = reselect {
            assert(position_of(accounts@, id, 0) is None);
        }
    }
}

/// The window drawn over the list for a mode.
pub enum Popup {
    /// An input field with a title, a label and the text typed so far
    /// (shown as dots when `masked`).
    Input { title: String, label: String, text: String, masked: bool },
    /// A yes/no question.
    Confirm { title: String, message: String },
}

/// Whether `p` is the input window with these texts.
pub open spec fn is_input_popup(p: Popup, title: Seq<char>, label: Seq<char>, text: Seq<char>, masked: bool) -> bool {
    p matches Popup::Input { title: t, label: l, text: x, masked: m } && t@ == title && l@ == label && x@ == text
        && m == masked
}

/// Whether `p` is the question window with these texts.
pub open spec fn is_confirm_popup(p: Popup, title: Seq<char>, message: Seq<char>) -> bool {
    p matches Popup::Confirm { title: t, message: m } && t@ == title && m@ == message
}

/// The name the delete question shows: the selected account's, or `?`.
pub open spec fn delete_question_name(a: App) -> Seq<char> {
    match a.selected_account() {
        Some(acct) => acct.name@,
        None => "?"@,
    }
}

/// The window each mode shows.
pub open spec fn popup_of(a: App, p: Option<Popup>) -> bool {
    match a.mode {
        Mode::Normal => p is None,
        Mode::SaveInput(s) => p matches Some(w) && is_input_popup(w, "Save Current Session"@, "Account name:"@, s@, false),
        Mode::RenameInput(s) => p matches Some(w) && is_input_popup(w, "Rename Account"@, "New name:"@, s@, false),
        Mode::ExportPass(s) => p matches Some(w) && is_input_popup(
            w,
            "Export Account"@,
            "Set a password to protect the account:"@,
            s@,
            true,
        ),
        Mode::ImportPath(s) => p matches Some(w) && is_input_popup(
            w,
            "Import Account  (1/2)"@,
            "File name or full path (.riotacc):"@,
            s@,
            false,
        ),
        Mode::ImportPass { pass, .. } => p matches Some(w) && is_input_popup(
            w,
            "Import Account  (2/2)"@,
            "Password:"@,
            pass@,
            true,
        ),
        Mode::ConfirmDelete => p matches Some(w) && is_confirm_popup(
            w,
            "Confirm Delete"@,
            text3("Delete \""@, delete_question_name(a), "\"?"@),
        ),
        Mode::ConfirmLogout => p matches Some(w) && is_confirm_popup(
            w,
            "Confirm Logout"@,
            "Restart Riot Client on the login screen?"@,
        ),
    }
}

fn input_popup(title: &str, label: &str, text: &String, masked: bool) -> (p: Popup)
    ensures
        is_input_popup(p, title@, label@, text@, masked),
{
    Popup::Input {
        title: String::from_str(title),
        label: String::from_str(label),
        text: text.clone(),
        masked,
    }
}

/// What the account details panel shows.
pub struct Detail {
    pub name: String,
    pub riot_id: Option<String>,
    pub login: Option<String>,
    pub saved_at: String,
    /// The size of the saved session, in bytes.
    pub size: usize,
}

impl App {
    /// The window to draw over the list, if any.
    pub fn popup(&self) -> (p: Option<Popup>)
        ensures
            popup_of(*self, p),
    {
        match &self.mode {
            Mode::Normal => None,
            Mode::SaveInput(s) => Some(input_popup("Save Current Session", "Account name:", s, false)),
            Mode::RenameInput(s) => Some(input_popup("Rename Account", "New name:", s, false)),
            Mode::ExportPass(s) => Some(
                input_popup("Export Account", "Set a password to protect the account:", s, true),
            ),
            Mode::ImportPath(s) => Some(
                input_popup("Import Account  (1/2)", "File name or full path (.riotacc):", s, false),
            ),
            Mode::ImportPass { pass, .. } => Some(input_popup("Import Account  (2/2)", "Password:", pass, true)),
            Mode::ConfirmDelete => {
                let message = match self.selected() {
                    Some(a) => join3("Delete \"", a.name.as_str(), "\"?"),
                    None => join3("Delete \"", "?", "\"?"),
                };
                Some(Popup::Confirm { title: String::from_str("Confirm Delete"), message })
            },
            Mode::ConfirmLogout => Some(
                Popup::Confirm {
                    title: String::from_str("Confirm Logout"),
                    message: String::from_str("Restart Riot Client on the login screen?"),
                },
            ),
        }
    }

    /// What the details panel shows for the selected account, if any: its
    /// name, the Riot ID to show, the login name its session names, when it
    /// was saved and the session's size in bytes.
    pub fn detail(&self) -> (d: Option<Detail>)
        ensures
            match self.selected_account() {
                Some(a) => d matches Some(x) && x.name == a.name && opt_view(x.riot_id) == shown_riot_id_of(a)
                    && opt_view(x.login) == username_in(a.token_data@) && x.saved_at == a.saved_at && x.size
                    == vstd::utf8::encode_utf8(a.token_data@).len() as usize,
                None => d is None,
            },
    {
        match self.selected() {
            Some(a) => Some(
                Detail {
                    name: a.name.clone(),
                    riot_id: shown_riot_id(a),
                    login: extract_username(a.token_data.as_str()),
                    saved_at: a.saved_at.clone(),
                    size: a.token_data.as_str().len(),
                },
            ),
            None => None,
        }
    }
}
} // verus!
