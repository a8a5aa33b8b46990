use riot_switcher::client::{logout, switch_to, ClientAction, ClientEvent, Stage};

#[test]
fn switch_runs_every_step() {
    let token = "riot-login:\n  persist:\n    region: \"EUW1\"\n";
    let mut p = switch_to(token);
    assert!(matches!(p.step(ClientEvent::Performed), ClientAction::KillClient));
    assert!(matches!(p.step(ClientEvent::Performed), ClientAction::ListCredentials));
    match p.step(ClientEvent::Output(Some("    Target: riot_x\n    Target: other\n".to_string()))) {
        ClientAction::DeleteCredentials(ts) => assert_eq!(ts, vec!["riot_x".to_string()]),
        _ => panic!("expected deletions"),
    }
    assert!(matches!(p.step(ClientEvent::Performed), ClientAction::ClearCookieStore));
    assert!(matches!(p.step(ClientEvent::Performed), ClientAction::ReadClientSettings));
    match p.step(ClientEvent::Output(Some("region: \"NA1\"\n".to_string()))) {
        ClientAction::WriteClientSettings(s) => assert_eq!(s, "region: \"EUW1\"\n"),
        _ => panic!("expected a settings write"),
    }
    assert!(matches!(p.step(ClientEvent::Performed), ClientAction::ReadSessionFile));
    match p.step(ClientEvent::Output(Some("rso-authenticator:\n  tdid: me\n".to_string()))) {
        ClientAction::WriteSessionFile(d) => {
            assert_eq!(d, "riot-login:\n  persist:\n    region: \"EUW1\"\nrso-authenticator:\n  tdid: me")
        }
        _ => panic!("expected a session write"),
    }
    assert!(matches!(p.step(ClientEvent::Outcome(Ok(()))), ClientAction::LaunchClient));
    assert!(matches!(p.step(ClientEvent::Outcome(Ok(()))), ClientAction::Done(Ok(()))));
    assert!(matches!(p.stage, Stage::Finished(Ok(()))));
}

#[test]
fn switch_without_region_skips_settings() {
    let mut p = switch_to("plain");
    p.step(ClientEvent::Performed);
    p.step(ClientEvent::Performed);
    assert!(matches!(p.step(ClientEvent::Output(None)), ClientAction::ClearCookieStore));
    assert!(matches!(p.step(ClientEvent::Performed), ClientAction::ReadSessionFile));
    match p.step(ClientEvent::Output(None)) {
        ClientAction::WriteSessionFile(d) => assert_eq!(d, "plain"),
        _ => panic!("expected a session write"),
    }
    match p.step(ClientEvent::Outcome(Err("denied".to_string()))) {
        ClientAction::Done(Err(e)) => assert_eq!(e, "denied"),
        _ => panic!("expected a failure"),
    }
}

#[test]
fn logout_empties_the_session() {
    let mut p = logout();
    assert!(matches!(p.step(ClientEvent::Performed), ClientAction::KillClient));
    match p.step(ClientEvent::Performed) {
        ClientAction::WriteSessionFile(d) => assert_eq!(d, ""),
        _ => panic!("expected a session write"),
    }
    assert!(matches!(p.step(ClientEvent::Outcome(Ok(()))), ClientAction::LaunchClient));
    match p.step(ClientEvent::Outcome(Err("Riot Client not found".to_string()))) {
        ClientAction::Done(Err(e)) => assert_eq!(e, "Riot Client not found"),
        _ => panic!("expected a failure"),
    }
    assert!(matches!(p.step(ClientEvent::Performed), ClientAction::Done(Err(_))));
}

use riot_switcher::client::{watch_riot_id, WatchAction, WatchEvent, WATCH_TRIES};

#[test]
fn watch_stores_live_id_then_fills_from_session() {
    let mut w = watch_riot_id("main", "gameName: Zed\ntagLine: 1\n");
    assert!(matches!(w.step(WatchEvent::Performed), WatchAction::Poll));
    assert!(matches!(w.step(WatchEvent::Polled(None)), WatchAction::Poll));
    match w.step(WatchEvent::Polled(Some("Live#9".to_string()))) {
        WatchAction::SetRiotId { name, riot_id } => {
            assert_eq!(name, "main");
            assert_eq!(riot_id, "Live#9");
        }
        _ => panic!("expected a store"),
    }
    match w.step(WatchEvent::Performed) {
        WatchAction::FillRiotId { riot_id, .. } => assert_eq!(riot_id, "Zed#1"),
        _ => panic!("expected a fill"),
    }
    assert!(matches!(w.step(WatchEvent::Performed), WatchAction::Done));
}

#[test]
fn watch_gives_up_after_five_polls() {
    let mut w = watch_riot_id("main", "nothing");
    let mut polls = 0;
    let mut event = WatchEvent::Performed;
    loop {
        match w.step(event) {
            WatchAction::Poll => polls += 1,
            WatchAction::Done => break,
            _ => panic!("nothing to store"),
        }
        event = WatchEvent::Polled(None);
    }
    assert_eq!(polls, WATCH_TRIES);
}
