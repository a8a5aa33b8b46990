use riot_switcher::riot::{
    credential_targets, extract_persist_region, extract_riot_id, extract_username,
    extract_yaml_section, join_riot_id, rewrite_client_region, riot_id_from_userinfo, target_of_line,
    userinfo_request, with_local_tdid,
};

#[test]
fn riot_id_joins_name_and_tag() {
    let data = "riot-login:\n  persist:\n    gameName: \"Kira\"\n    tagLine: 'EUW'\n";
    assert_eq!(extract_riot_id(data), Some("Kira#EUW".to_string()));
}

#[test]
fn riot_id_accepts_dashed_key_and_crlf() {
    let data = "a: 1\r\n  game-name: Zed \r\nb: 2\r\n";
    assert_eq!(extract_riot_id(data), Some("Zed".to_string()));
}

#[test]
fn riot_id_skips_unusable_values() {
    let data = "gameName: {\ngameName: \"\"\ngameName: Real\ntagLine: {x}\ntagLine: 001\n";
    assert_eq!(extract_riot_id(data), Some("Real#001".to_string()));
}

#[test]
fn riot_id_needs_a_name() {
    assert_eq!(extract_riot_id("tagLine: EUW\n"), None);
    assert_eq!(extract_riot_id(""), None);
}

#[test]
fn riot_id_strips_nested_quotes() {
    assert_eq!(extract_riot_id("gameName: \"'Ann'\""), Some("Ann".to_string()));
}

#[test]
fn username_takes_first_matching_line() {
    let data = "x: 1\n  user-name: first\nusername: second\n";
    assert_eq!(extract_username(data), Some("first".to_string()));
    assert_eq!(extract_username("acct: \"abc\"\n"), Some("abc".to_string()));
    assert_eq!(extract_username("acct: {\n"), None);
    assert_eq!(extract_username("no keys here"), None);
}

#[test]
fn region_is_read_from_session() {
    assert_eq!(extract_persist_region("a:\n  region: \"EUW1\"\n"), Some("EUW1".to_string()));
    assert_eq!(extract_persist_region("a:\n  regions: x\n"), None);
}

#[test]
fn yaml_section_at_start_and_middle() {
    let yaml = "riot-login:\n  persist:\n    x: 1\n\n  y: 2\nother:\n  z: 3\n";
    assert_eq!(
        extract_yaml_section(yaml, "riot-login"),
        Some("riot-login:\n  persist:\n    x: 1\n\n  y: 2".to_string())
    );
    assert_eq!(extract_yaml_section(yaml, "other"), Some("other:\n  z: 3".to_string()));
    assert_eq!(extract_yaml_section(yaml, "missing"), None);
}

#[test]
fn yaml_section_normalises_crlf_and_tabs() {
    let yaml = "a: 1\r\nrso-authenticator:\r\n\ttdid: abc\r\nb: 2\r\n";
    assert_eq!(
        extract_yaml_section(yaml, "rso-authenticator"),
        Some("rso-authenticator:\n\ttdid: abc".to_string())
    );
}

#[test]
fn local_tdid_is_appended_to_login_section() {
    let token = "riot-login:\n  persist: saved\nrso-authenticator:\n  tdid: old\n";
    let local = "rso-authenticator:\n  tdid: mine\n";
    assert_eq!(
        with_local_tdid(token, Some(local)),
        "riot-login:\n  persist: saved\nrso-authenticator:\n  tdid: mine".to_string()
    );
}

#[test]
fn local_tdid_missing_keeps_saved_text() {
    let token = "riot-login:\n  persist: saved\n";
    assert_eq!(with_local_tdid(token, None), token.to_string());
    assert_eq!(with_local_tdid(token, Some("other: 1\n")), token.to_string());
}

#[test]
fn local_tdid_without_login_section_uses_whole_text() {
    let token = "just text  \n";
    let local = "rso-authenticator:\n  tdid: t\n";
    assert_eq!(with_local_tdid(token, Some(local)), "just text\nrso-authenticator:\n  tdid: t".to_string());
}

#[test]
fn region_rewrite_keeps_indent_and_newline() {
    let content = "install:\n    region: \"NA1\"\nlocale: en\n";
    assert_eq!(
        rewrite_client_region(content, "EUW1"),
        "install:\n    region: \"EUW1\"\nlocale: en\n".to_string()
    );
}

#[test]
fn region_rewrite_without_final_newline() {
    assert_eq!(rewrite_client_region("region: x\r\nother", "KR"), "region: \"KR\"\nother".to_string());
    assert_eq!(rewrite_client_region("", "KR"), "".to_string());
    assert_eq!(rewrite_client_region("a\n\n", "KR"), "a\n\n".to_string());
}

#[test]
fn credential_targets_from_listing() {
    let listing = "Currently stored credentials:\r\n\r\n    Target: LegacyGeneric:target=RiotGames/abc \r\n    Type: Generic\r\n    Target: LegacyGeneric:target=Other\r\n    Target: WindowsLive:target=RIOT_client\r\n";
    assert_eq!(
        credential_targets(listing),
        vec![
            "LegacyGeneric:target=RiotGames/abc".to_string(),
            "WindowsLive:target=RIOT_client".to_string()
        ]
    );
}

#[test]
fn credential_targets_need_target_prefix() {
    assert_eq!(credential_targets("riot things\n"), Vec::<String>::new());
}

#[test]
fn userinfo_request_from_lockfile() {
    let r = userinfo_request("Riot Client:1234:56789:secret:https\n").expect("request");
    assert_eq!(r.url, "https://127.0.0.1:56789/riot-client-auth/v1/userinfo");
    assert_eq!(r.authorization, "Basic cmlvdDpzZWNyZXQ=");
}

#[test]
fn userinfo_request_needs_five_fields() {
    assert!(userinfo_request("a:b:c:d").is_none());
    assert!(userinfo_request("").is_none());
}

#[test]
fn riot_id_from_userinfo_reply() {
    assert_eq!(
        riot_id_from_userinfo(r#"{"acct":{"game_name":"Kira","tag_line":"EUW"}}"#),
        Some("Kira#EUW".to_string())
    );
    assert_eq!(riot_id_from_userinfo(r#"{"acct":{"game_name":"Kira","tag_line":""}}"#), Some("Kira".to_string()));
    assert_eq!(riot_id_from_userinfo(r#"{"acct":{"game_name":"Kira"}}"#), Some("Kira".to_string()));
    assert_eq!(riot_id_from_userinfo(r#"{"acct":{"tag_line":"EUW"}}"#), None);
    assert_eq!(riot_id_from_userinfo("not json"), None);
}

#[test]
fn unicode_whitespace_is_trimmed() {
    assert_eq!(extract_username("\u{3000}username:\u{a0}kira\u{2003}\n"), Some("kira".to_string()));
}

#[test]
fn target_of_line_needs_riot_in_lowered_line() {
    let line = "    Target: LegacyGeneric:target=RiotGames/x  ";
    assert_eq!(
        target_of_line(line, &line.to_lowercase()),
        Some("LegacyGeneric:target=RiotGames/x".to_string())
    );
    assert_eq!(target_of_line(line, "no match here"), None);
    assert_eq!(target_of_line("  Type: Generic riot", "  type: generic riot"), None);
    assert_eq!(target_of_line("Target: a", "riot"), Some("a".to_string()));
}

#[test]
fn join_riot_id_cases() {
    let s = |x: &str| Some(x.to_string());
    assert_eq!(join_riot_id(s("Kira"), s("EUW")), s("Kira#EUW"));
    assert_eq!(join_riot_id(s("Kira"), s("")), s("Kira"));
    assert_eq!(join_riot_id(s("Kira"), None), s("Kira"));
    assert_eq!(join_riot_id(None, s("EUW")), None);
}
