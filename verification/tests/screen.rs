use riot_switcher::db::Account;
use riot_switcher::ui::{
    centered, classify_key, input_display, shown_riot_id, App, AppAction, AppEvent, Area, Key,
    KeyEffect, Mode, Pending, Popup,
};

fn account(id: i64, name: &str, token_data: &str, riot_id: Option<&str>) -> Account {
    Account {
        id,
        name: name.to_string(),
        saved_at: "2025-01-01 10:00:00".to_string(),
        token_data: token_data.to_string(),
        riot_id: riot_id.map(|s| s.to_string()),
    }
}

fn two_accounts() -> Vec<Account> {
    vec![account(1, "alpha", "gameName: A\n", None), account(2, "beta", "x", Some("B#1"))]
}

fn key(app: &mut App, k: Key) -> AppAction {
    app.step(AppEvent::Key { key: k, ctrl: false })
}

fn typed(app: &App) -> String {
    match &app.mode {
        Mode::SaveInput(t) | Mode::RenameInput(t) | Mode::ExportPass(t) | Mode::ImportPath(t) => t.clone(),
        Mode::ImportPass { pass, .. } => pass.clone(),
        _ => String::new(),
    }
}

#[test]
fn new_selects_first_account() {
    let app = App::new(two_accounts());
    assert_eq!(app.selected, Some(0));
    assert!(matches!(app.mode, Mode::Normal));
    assert_eq!(app.status, "Ready — log into Riot Client, then press [S] to save the session.");
    assert!(!app.status_err);
    let empty = App::new(Vec::new());
    assert_eq!(empty.selected, None);
}

#[test]
fn scrolling_wraps_around() {
    let mut app = App::new(two_accounts());
    key(&mut app, Key::Up);
    assert_eq!(app.selected, Some(1));
    key(&mut app, Key::Char('j'));
    assert_eq!(app.selected, Some(0));
    key(&mut app, Key::Down);
    key(&mut app, Key::Char('k'));
    assert_eq!(app.selected, Some(0));
}

#[test]
fn quit_keys() {
    let mut app = App::new(two_accounts());
    assert!(matches!(key(&mut app, Key::Char('q')), AppAction::Quit));
    assert!(matches!(app.step(AppEvent::Key { key: Key::Char('c'), ctrl: true }), AppAction::Quit));
    key(&mut app, Key::Char('s'));
    assert!(matches!(key(&mut app, Key::Char('q')), AppAction::AwaitKey));
    assert_eq!(typed(&app), "q");
    assert!(matches!(app.step(AppEvent::Key { key: Key::Char('c'), ctrl: true }), AppAction::Quit));
}

#[test]
fn typing_erasing_and_cancelling() {
    let mut app = App::new(two_accounts());
    key(&mut app, Key::Char('S'));
    for c in "ab".chars() {
        key(&mut app, Key::Char(c));
    }
    key(&mut app, Key::Backspace);
    assert_eq!(typed(&app), "a");
    key(&mut app, Key::Esc);
    assert!(matches!(app.mode, Mode::Normal));
    assert_eq!(app.status, "Cancelled");
    assert!(!app.status_err);
}

#[test]
fn empty_name_is_refused() {
    let mut app = App::new(two_accounts());
    key(&mut app, Key::Char('s'));
    key(&mut app, Key::Char(' '));
    assert!(matches!(key(&mut app, Key::Enter), AppAction::AwaitKey));
    assert_eq!(app.status, "Name cannot be empty");
    assert!(app.status_err);
    assert!(matches!(app.mode, Mode::Normal));
}

#[test]
fn save_flow_stores_and_reloads() {
    let mut app = App::new(two_accounts());
    key(&mut app, Key::Char('s'));
    for c in " main ".chars() {
        key(&mut app, Key::Char(c));
    }
    assert!(matches!(key(&mut app, Key::Enter), AppAction::ReadTokens));
    assert!(matches!(app.step(AppEvent::TokensRead(Ok("tok".to_string()))), AppAction::FetchRiotId));
    match app.step(AppEvent::RiotIdFetched(Some("M#1".to_string()))) {
        AppAction::Upsert { name, token_data, riot_id } => {
            assert_eq!(name, "main");
            assert_eq!(token_data, "tok");
            assert_eq!(riot_id, Some("M#1".to_string()));
        }
        _ => panic!("expected an upsert"),
    }
    assert!(matches!(app.step(AppEvent::Stored(Ok(()))), AppAction::List));
    let mut accounts = two_accounts();
    accounts.push(account(3, "main", "tok", Some("M#1")));
    assert!(matches!(app.step(AppEvent::Listed(Ok(accounts))), AppAction::AwaitKey));
    assert_eq!(app.accounts.len(), 3);
    assert_eq!(app.status, "Saved session as \"main\"");
    assert!(!app.status_err);
    assert!(matches!(app.pending, Pending::Idle));
}

#[test]
fn save_fails_when_session_unreadable() {
    let mut app = App::new(two_accounts());
    key(&mut app, Key::Char('s'));
    key(&mut app, Key::Char('x'));
    key(&mut app, Key::Enter);
    app.step(AppEvent::TokensRead(Err("LOCALAPPDATA not set".to_string())));
    assert_eq!(app.status, "LOCALAPPDATA not set");
    assert!(app.status_err);
}

#[test]
fn store_failure_shows_prefix() {
    let mut app = App::new(two_accounts());
    key(&mut app, Key::Char('u'));
    app.step(AppEvent::TokensRead(Ok("t".to_string())));
    app.step(AppEvent::RiotIdFetched(None));
    app.step(AppEvent::Stored(Err("locked".to_string())));
    assert_eq!(app.status, "Update failed: locked");
    assert!(app.status_err);
}

#[test]
fn update_reselects_the_account() {
    let mut app = App::new(two_accounts());
    key(&mut app, Key::Down);
    assert!(matches!(key(&mut app, Key::Char('U')), AppAction::ReadTokens));
    app.step(AppEvent::TokensRead(Ok("t".to_string())));
    app.step(AppEvent::RiotIdFetched(None));
    app.step(AppEvent::Stored(Ok(())));
    let reordered = vec![account(2, "beta", "t", None), account(5, "aaa", "x", None), account(1, "alpha", "", None)];
    app.step(AppEvent::Listed(Ok(reordered)));
    assert_eq!(app.selected, Some(0));
    assert_eq!(app.status, "Updated tokens for \"beta\"");
}

#[test]
fn listing_error_keeps_list_and_shows_success() {
    let mut app = App::new(two_accounts());
    key(&mut app, Key::Char('d'));
    assert!(matches!(app.mode, Mode::ConfirmDelete));
    match key(&mut app, Key::Char('y')) {
        AppAction::Delete { id } => assert_eq!(id, 1),
        _ => panic!("expected a delete"),
    }
    app.step(AppEvent::Stored(Ok(())));
    app.step(AppEvent::Listed(Err("busy".to_string())));
    assert_eq!(app.accounts.len(), 2);
    assert_eq!(app.status, "Deleted \"alpha\"");
    assert!(!app.status_err);
}

#[test]
fn delete_shrinks_selection() {
    let mut app = App::new(two_accounts());
    key(&mut app, Key::Down);
    key(&mut app, Key::Char('D'));
    key(&mut app, Key::Char('Y'));
    app.step(AppEvent::Stored(Ok(())));
    app.step(AppEvent::Listed(Ok(vec![account(1, "alpha", "", None)])));
    assert_eq!(app.selected, Some(0));
    assert_eq!(app.status, "Deleted \"beta\"");
}

#[test]
fn any_other_key_cancels_a_question() {
    let mut app = App::new(two_accounts());
    key(&mut app, Key::Char('l'));
    assert!(matches!(app.mode, Mode::ConfirmLogout));
    key(&mut app, Key::Enter);
    assert!(matches!(app.mode, Mode::Normal));
    assert_eq!(app.status, "Cancelled");
}

#[test]
fn logout_flow() {
    let mut app = App::new(two_accounts());
    key(&mut app, Key::Char('L'));
    assert!(matches!(key(&mut app, Key::Char('y')), AppAction::Logout));
    app.step(AppEvent::LoggedOut(Err("Riot Client not found".to_string())));
    assert_eq!(app.status, "Logout failed: Riot Client not found");
    assert!(app.status_err);
}

#[test]
fn switch_flow() {
    let mut app = App::new(two_accounts());
    match key(&mut app, Key::Enter) {
        AppAction::Switch { token_data } => assert_eq!(token_data, "gameName: A\n"),
        _ => panic!("expected a switch"),
    }
    match app.step(AppEvent::Switched(Ok(()))) {
        AppAction::WatchRiotId { name, .. } => assert_eq!(name, "alpha"),
        _ => panic!("expected a watch"),
    }
    assert_eq!(app.status, "Switched to \"alpha\" — Riot Client is launching...");
}

#[test]
fn enter_without_accounts_does_nothing() {
    let mut app = App::new(Vec::new());
    assert!(matches!(key(&mut app, Key::Enter), AppAction::AwaitKey));
    assert!(matches!(key(&mut app, Key::Char('r')), AppAction::AwaitKey));
    assert!(matches!(app.mode, Mode::Normal));
}

#[test]
fn rename_starts_with_current_name() {
    let mut app = App::new(two_accounts());
    key(&mut app, Key::Char('r'));
    assert_eq!(typed(&app), "alpha");
    key(&mut app, Key::Char('2'));
    match key(&mut app, Key::Enter) {
        AppAction::Rename { id, new_name } => {
            assert_eq!(id, 1);
            assert_eq!(new_name, "alpha2");
        }
        _ => panic!("expected a rename"),
    }
    app.step(AppEvent::Stored(Err("UNIQUE constraint failed".to_string())));
    assert_eq!(app.status, "Rename failed: UNIQUE constraint failed");
}

#[test]
fn export_flow() {
    let mut app = App::new(two_accounts());
    key(&mut app, Key::Down);
    key(&mut app, Key::Char('e'));
    assert!(matches!(key(&mut app, Key::Enter), AppAction::AwaitKey));
    assert_eq!(app.status, "Password cannot be empty");
    key(&mut app, Key::Char('e'));
    key(&mut app, Key::Char('p'));
    match key(&mut app, Key::Enter) {
        AppAction::Export { name, riot_id, password, .. } => {
            assert_eq!(name, "beta");
            assert_eq!(riot_id, Some("B#1".to_string()));
            assert_eq!(password, "p");
        }
        _ => panic!("expected an export"),
    }
    match app.step(AppEvent::Exported(Ok("{}".to_string()))) {
        AppAction::WriteExport { name, json } => {
            assert_eq!(name, "beta");
            assert_eq!(json, "{}");
        }
        _ => panic!("expected a write"),
    }
    app.step(AppEvent::Written(Ok("C:\\x\\beta.riotacc".to_string())));
    assert_eq!(app.status, "Exported to: C:\\x\\beta.riotacc");
}

#[test]
fn import_flow_falls_back_to_session_riot_id() {
    let mut app = App::new(Vec::new());
    assert!(matches!(key(&mut app, Key::Char('i')), AppAction::PickFile));
    app.step(AppEvent::FileChosen(None));
    assert!(matches!(app.mode, Mode::ImportPath(_)));
    assert!(matches!(key(&mut app, Key::Enter), AppAction::AwaitKey));
    assert_eq!(app.status, "File path cannot be empty");
    key(&mut app, Key::Char('I'));
    app.step(AppEvent::FileChosen(Some("acc.riotacc".to_string())));
    key(&mut app, Key::Char('k'));
    match key(&mut app, Key::Enter) {
        AppAction::ReadImport { path } => assert_eq!(path, "acc.riotacc"),
        _ => panic!("expected a read"),
    }
    match app.step(AppEvent::FileRead(Ok("json".to_string()))) {
        AppAction::Decrypt { json, password } => {
            assert_eq!(json, "json");
            assert_eq!(password, "k");
        }
        _ => panic!("expected a decrypt"),
    }
    let imported = ("n".to_string(), "gameName: Zed\ntagLine: 1\n".to_string(), None);
    match app.step(AppEvent::Imported(Ok(imported))) {
        AppAction::Upsert { riot_id, .. } => assert_eq!(riot_id, Some("Zed#1".to_string())),
        _ => panic!("expected an upsert"),
    }
    app.step(AppEvent::Stored(Ok(())));
    app.step(AppEvent::Listed(Ok(vec![account(9, "n", "", None)])));
    assert_eq!(app.status, "Imported \"n\" successfully");
    assert_eq!(app.selected, Some(0));
}

#[test]
fn import_missing_file() {
    let mut app = App::new(Vec::new());
    key(&mut app, Key::Char('i'));
    app.step(AppEvent::FileChosen(Some("x".to_string())));
    key(&mut app, Key::Char('p'));
    key(&mut app, Key::Enter);
    app.step(AppEvent::FileRead(Err("x".to_string())));
    assert_eq!(app.status, "File not found: x");
    assert!(app.status_err);
}

#[test]
fn unexpected_reports_change_nothing() {
    let mut app = App::new(two_accounts());
    assert!(matches!(app.step(AppEvent::Stored(Ok(()))), AppAction::AwaitKey));
    assert!(matches!(app.pending, Pending::Idle));
    key(&mut app, Key::Char('u'));
    assert!(matches!(key(&mut app, Key::Char('q')), AppAction::AwaitKey));
    assert!(matches!(app.pending, Pending::ReadingTokens { .. }));
}

#[test]
fn key_bindings() {
    assert!(matches!(classify_key(&Mode::Normal, false, &Key::Char('d'), false), KeyEffect::Ignore));
    assert!(matches!(classify_key(&Mode::Normal, true, &Key::Char('d'), false), KeyEffect::AskDelete));
    assert!(matches!(classify_key(&Mode::ConfirmDelete, true, &Key::Esc, false), KeyEffect::Cancel));
    assert!(matches!(classify_key(&Mode::Normal, true, &Key::Esc, false), KeyEffect::Ignore));
    assert!(matches!(classify_key(&Mode::ExportPass(String::new()), true, &Key::Char('y'), false), KeyEffect::Type('y')));
    assert!(matches!(classify_key(&Mode::ExportPass(String::new()), true, &Key::Up, false), KeyEffect::Ignore));
}

#[test]
fn shown_riot_id_prefers_stored() {
    assert_eq!(shown_riot_id(&account(1, "a", "gameName: X\n", Some("S#1"))), Some("S#1".to_string()));
    assert_eq!(shown_riot_id(&account(1, "a", "gameName: X\n", None)), Some("X".to_string()));
    assert_eq!(shown_riot_id(&account(1, "a", "", None)), None);
}

#[test]
fn input_lines() {
    assert_eq!(input_display("pw", true), "  \u{2022}\u{2022}\u{2588}");
    assert_eq!(input_display("ab", false), "  ab\u{2588}");
}

#[test]
fn popup_is_centered() {
    let a = centered(62, 7, &Area { x: 0, y: 0, width: 100, height: 30 });
    assert_eq!((a.x, a.y, a.width, a.height), (19, 11, 62, 7));
    let b = centered(62, 7, &Area { x: 2, y: 1, width: 40, height: 5 });
    assert_eq!((b.x, b.y, b.width, b.height), (2, 1, 40, 5));
}

fn input_popup_parts(app: &App) -> (String, String, String, bool) {
    match app.popup() {
        Some(Popup::Input { title, label, text, masked }) => (title, label, text, masked),
        _ => panic!("expected an input window"),
    }
}

fn confirm_popup_parts(app: &App) -> (String, String) {
    match app.popup() {
        Some(Popup::Confirm { title, message }) => (title, message),
        _ => panic!("expected a question window"),
    }
}

#[test]
fn popup_for_each_mode() {
    let mut app = App::new(two_accounts());
    assert!(app.popup().is_none());
    key(&mut app, Key::Char('s'));
    key(&mut app, Key::Char('x'));
    assert_eq!(
        input_popup_parts(&app),
        ("Save Current Session".to_string(), "Account name:".to_string(), "x".to_string(), false)
    );
    key(&mut app, Key::Esc);
    key(&mut app, Key::Char('r'));
    assert_eq!(
        input_popup_parts(&app),
        ("Rename Account".to_string(), "New name:".to_string(), "alpha".to_string(), false)
    );
    key(&mut app, Key::Esc);
    key(&mut app, Key::Char('e'));
    key(&mut app, Key::Char('p'));
    assert_eq!(
        input_popup_parts(&app),
        (
            "Export Account".to_string(),
            "Set a password to protect the account:".to_string(),
            "p".to_string(),
            true
        )
    );
    key(&mut app, Key::Esc);
    key(&mut app, Key::Char('l'));
    assert_eq!(
        confirm_popup_parts(&app),
        ("Confirm Logout".to_string(), "Restart Riot Client on the login screen?".to_string())
    );
    key(&mut app, Key::Esc);
    key(&mut app, Key::Char('d'));
    assert_eq!(confirm_popup_parts(&app), ("Confirm Delete".to_string(), "Delete \"alpha\"?".to_string()));
}

#[test]
fn import_popups() {
    let mut app = App::new(two_accounts());
    app.mode = Mode::ImportPath("f.riotacc".to_string());
    assert_eq!(
        input_popup_parts(&app),
        (
            "Import Account  (1/2)".to_string(),
            "File name or full path (.riotacc):".to_string(),
            "f.riotacc".to_string(),
            false
        )
    );
    app.mode = Mode::ImportPass { path: "f.riotacc".to_string(), pass: "pw".to_string() };
    assert_eq!(
        input_popup_parts(&app),
        ("Import Account  (2/2)".to_string(), "Password:".to_string(), "pw".to_string(), true)
    );
}

#[test]
fn delete_question_without_selection_names_question_mark() {
    let mut app = App::new(Vec::new());
    app.mode = Mode::ConfirmDelete;
    assert_eq!(confirm_popup_parts(&app), ("Confirm Delete".to_string(), "Delete \"?\"?".to_string()));
}

#[test]
fn detail_of_selected_account() {
    let mut app = App::new(vec![
        account(1, "alpha", "gameName: A\nusername: al\n", None),
        account(2, "b\u{e9}ta", "x", Some("B#1")),
    ]);
    let d = app.detail().unwrap();
    assert_eq!(d.name, "alpha");
    assert_eq!(d.riot_id, Some("A".to_string()));
    assert_eq!(d.login, Some("al".to_string()));
    assert_eq!(d.saved_at, "2025-01-01 10:00:00");
    assert_eq!(d.size, 25);
    key(&mut app, Key::Down);
    let d = app.detail().unwrap();
    assert_eq!(d.name, "b\u{e9}ta");
    assert_eq!(d.riot_id, Some("B#1".to_string()));
    assert_eq!(d.login, None);
    assert_eq!(d.size, 1);
    assert!(App::new(Vec::new()).detail().is_none());
}
