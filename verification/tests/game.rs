use std::cell::RefCell;
use pipeworkmc::data::character::CharacterId;
use pipeworkmc::game::character::player::{
    flag_changed, operator_level_update, reduced_debug_info_update, respawn_screen_update,
    DebugInfoStatus, OperatorLevel, ViewDist,
};
use pipeworkmc::game::character::vis::{
    forget_characters, update_visibility, CharacterVisibility, VisibilityChange, VisibleCharacters,
};
use pipeworkmc::game::login::{
    approve_login, duplicate_login_text, AutoApproveLoginsPlugin, DuplicateStrategy, ProfilePeer,
};
use pipeworkmc::game::player::login::{decide_login, LoginDecision};
use pipeworkmc::game::status::{status_players, status_response, AutoStatusPlugin, StatusCandidate};
use pipeworkmc::data::text::{Text, TextContent};

#[test]
fn show_and_hide_track_changes() {
    let mut v = CharacterVisibility::new();
    v.show_to(1);
    v.show_to(1);
    assert!(v.should_be_visible_to(1));
    assert!(!v.should_be_visible_to(2));
    let mut changed = v.take_modified();
    assert_eq!(changed, vec![1]);
    v.hide_from(2);
    assert!(v.take_modified().is_empty());
    v.show_to(2);
    v.show_to(3);
    v.take_modified();
    v.hide_from_all();
    assert!(!v.should_be_visible_to(2));
    assert!(!v.should_be_visible_to(3));
    changed = v.take_modified();
    changed.sort();
    assert_eq!(changed, vec![1, 2, 3]);
}

#[test]
fn identifiers_are_reused_after_removal() {
    let mut seen = VisibleCharacters::new(100);
    assert_eq!(seen.try_insert(10), Some(CharacterId::new(0)));
    assert_eq!(seen.try_insert(11), Some(CharacterId::new(1)));
    assert_eq!(seen.try_insert(10), None);
    assert_eq!(seen.remove(10), Some(CharacterId::new(0)));
    assert_eq!(seen.remove(10), None);
    assert_eq!(seen.try_insert(12), Some(CharacterId::new(0)));
    assert_eq!(seen.try_insert(13), Some(CharacterId::new(2)));
    assert_eq!(seen.get(12), Some(CharacterId::new(0)));
}

#[test]
fn visibility_follows_range_and_wish() {
    let mut seen = VisibleCharacters::new(1);
    let view = ViewDist::default();
    assert_eq!(view.as_u8(), 8);
    assert_eq!(update_visibility(&mut seen, 5, true, 3, &view), VisibilityChange::Added(CharacterId::new(0)));
    assert_eq!(update_visibility(&mut seen, 5, true, 3, &view), VisibilityChange::Unchanged);
    assert_eq!(update_visibility(&mut seen, 5, true, 8, &view), VisibilityChange::Removed(CharacterId::new(0)));
    assert_eq!(update_visibility(&mut seen, 5, false, 0, &view), VisibilityChange::Unchanged);
}

#[test]
fn forgetting_collects_seen_identifiers_in_order() {
    let mut seen = VisibleCharacters::new(1);
    seen.try_insert(7);
    seen.try_insert(8);
    seen.try_insert(9);
    let ids = forget_characters(&mut seen, &vec![9, 4, 7, 9]);
    assert_eq!(ids, vec![CharacterId::new(2), CharacterId::new(0)]);
    assert_eq!(seen.get(8), Some(CharacterId::new(1)));
    assert_eq!(seen.get(7), None);
}

#[test]
fn flags_are_sent_on_change_when_ready() {
    let mut last = false;
    assert!(!flag_changed(false, &mut last, true));
    assert!(flag_changed(true, &mut last, true));
    assert!(last);
    assert!(!flag_changed(false, &mut last, false));
    assert!(!last);
    let mut last = false;
    assert_eq!(respawn_screen_update(true, &mut last, true), Some(false));
    assert_eq!(respawn_screen_update(false, &mut last, true), Some(true));
    assert_eq!(respawn_screen_update(false, &mut last, true), None);
    let mut last = false;
    assert_eq!(reduced_debug_info_update(true, &mut last, true), Some(DebugInfoStatus::EnableReducedDebugInfo));
    assert_eq!(reduced_debug_info_update(false, &mut last, true), Some(DebugInfoStatus::DisableReducedDebugInfo));
    let mut op = OperatorLevel::default();
    assert_eq!(operator_level_update(None, &mut op, true), None);
    assert_eq!(operator_level_update(Some(OperatorLevel::Admin), &mut op, true), Some(3));
    assert_eq!(op, OperatorLevel::Admin);
}

fn peers() -> Vec<ProfilePeer> {
    vec![ProfilePeer { entity: 1, uuid: 10 }, ProfilePeer { entity: 2, uuid: 20 }]
}

#[test]
fn login_strategies() {
    assert_eq!(AutoApproveLoginsPlugin::default().duplicate_strategy, DuplicateStrategy::KickOld);
    let a = approve_login(DuplicateStrategy::Allow, 3, 10, &peers());
    assert!(a.response.is_ok());
    assert!(a.kick.is_empty());
    match approve_login(DuplicateStrategy::RejectNew, 3, 10, &peers()).response {
        Err(t) => assert!(matches!(&t.components[0].content, TextContent::Translate { key, .. } if key == "multiplayer.disconnect.name_taken")),
        Ok(()) => panic!("the name is taken"),
    }
    assert!(approve_login(DuplicateStrategy::RejectNew, 1, 10, &peers()).response.is_ok());
    let k = approve_login(DuplicateStrategy::KickOld, 3, 10, &vec![
        ProfilePeer { entity: 1, uuid: 10 },
        ProfilePeer { entity: 2, uuid: 20 },
        ProfilePeer { entity: 4, uuid: 10 },
    ]);
    assert!(k.response.is_ok());
    assert_eq!(k.kick, vec![1, 4]);
    assert!(approve_login(DuplicateStrategy::KickOld, 1, 10, &peers()).kick.is_empty());
    let t = duplicate_login_text();
    assert!(matches!(&t.components[0].content, TextContent::Translate { key, .. } if key == "multiplayer.disconnect.duplicate_login"));
}

#[test]
fn event_login_decisions() {
    assert!(matches!(decide_login(DuplicateStrategy::KickOld, 1, 10, &peers()), LoginDecision::Approve { kick } if kick.is_empty()));
    assert!(matches!(decide_login(DuplicateStrategy::KickOld, 3, 10, &peers()), LoginDecision::Approve { kick } if kick == vec![1]));
    assert!(matches!(decide_login(DuplicateStrategy::RejectNew, 3, 20, &peers()), LoginDecision::RejectRequester));
    assert!(matches!(decide_login(DuplicateStrategy::RejectNew, 2, 20, &peers()), LoginDecision::Approve { kick } if kick.is_empty()));
    assert!(matches!(decide_login(DuplicateStrategy::Allow, 3, 20, &peers()), LoginDecision::Approve { kick } if kick.is_empty()));
}

#[test]
fn status_lists_players_who_allow_it() {
    let candidates = vec![
        StatusCandidate { uuid: 1, name: "a".to_owned(), allow_listing: Some(true) },
        StatusCandidate { uuid: 2, name: "b".to_owned(), allow_listing: Some(false) },
        StatusCandidate { uuid: 3, name: "c".to_owned(), allow_listing: None },
        StatusCandidate { uuid: 4, name: "d".to_owned(), allow_listing: Some(true) },
    ];
    let p = status_players(20, &candidates);
    assert_eq!(p.current, 4);
    assert_eq!(p.max, 20);
    assert_eq!(p.sample.len(), 2);
    assert_eq!(p.sample[0].name, "a");
    assert_eq!(p.sample[1].uuid, 4);
}

#[test]
fn default_status() {
    let plugin = AutoStatusPlugin::default();
    assert_eq!(plugin.max_players, 20);
    assert_eq!(plugin.favicon, "");
    assert!(matches!(&plugin.motd.components[0].content, TextContent::Literal { text } if text == "A Minecraft Server"));
    let r = status_response(&plugin, "1.21".to_owned(), 770, &Vec::new());
    assert_eq!(r.players.current, 0);
    assert!(r.prevents_chat_reports);
    assert!(!r.requires_chat_signing);
    assert_eq!(r.protocol, 770);
}

#[test]
fn removal_frees_identifiers() {
    let mut seen = VisibleCharacters::new(1);
    seen.try_insert(7);
    seen.try_insert(8);
    let ids = forget_characters(&mut seen, &vec![8]);
    assert_eq!(ids, vec![CharacterId::new(1)]);
    assert_eq!(seen.try_insert(9), Some(CharacterId::new(1)));
    let view = ViewDist::default();
    assert_eq!(update_visibility(&mut seen, 7, false, 0, &view), VisibilityChange::Removed(CharacterId::new(0)));
    assert_eq!(seen.try_insert(10), Some(CharacterId::new(0)));
}

#[test]
fn text_apply_calls_in_order() {
    let t = Text::literal("a").add(Text::literal("b")).add(Text::literal("c"));
    let order = RefCell::new(Vec::new());
    let r = t.apply(|c| {
        if let TextContent::Literal { text } = &c.content {
            order.borrow_mut().push(text.clone());
        }
        c
    });
    assert_eq!(r.components.len(), 3);
    assert_eq!(*order.borrow(), vec!["a".to_owned(), "b".to_owned(), "c".to_owned()]);
}
