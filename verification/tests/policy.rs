use std::collections::HashMap;

use maldness_bot::chat::{ChatKind, ChatPolicy, DisallowReason};
use maldness_bot::services::afk_event::functions::EventType;
use maldness_bot::weather::{get_icon, WeatherResponseWeather};

fn policy(
    allow_unspecified: Option<bool>,
    group: Option<HashMap<i64, bool>>,
) -> ChatPolicy {
    ChatPolicy {
        admins: vec![99],
        allow_unspecified,
        private: None,
        group,
        supergroup: None,
    }
}

#[test]
fn channels_are_never_served() {
    let p = policy(Some(true), None);
    assert_eq!(
        p.check_for_allowed_update(ChatKind::Channel, 1, 99),
        Some(DisallowReason::ChannelsUnsupported)
    );
}

#[test]
fn admins_pass_everywhere_but_channels() {
    let mut group = HashMap::new();
    group.insert(-100, false);
    let p = policy(Some(false), Some(group));
    assert_eq!(p.check_for_allowed_update(ChatKind::Group, -100, 99), None);
    assert_eq!(p.check_for_allowed_update(ChatKind::Private, 5, 99), None);
}

#[test]
fn listed_chat_goes_by_its_entry() {
    let mut group = HashMap::new();
    group.insert(-100, false);
    group.insert(-200, true);
    let p = policy(Some(true), Some(group));
    assert_eq!(
        p.check_for_allowed_update(ChatKind::Group, -100, 1),
        Some(DisallowReason::ChatDisallowed)
    );
    assert_eq!(p.check_for_allowed_update(ChatKind::Group, -200, 1), None);
}

#[test]
fn wildcard_entry_allows_every_chat_of_the_kind() {
    let mut group = HashMap::new();
    group.insert(0, false);
    group.insert(-100, false);
    let p = policy(Some(false), Some(group));
    assert_eq!(p.check_for_allowed_update(ChatKind::Group, -100, 1), None);
}

#[test]
fn unlisted_chat_goes_by_the_default() {
    let mut group = HashMap::new();
    group.insert(-100, false);
    let refusing = policy(Some(false), Some(group));
    assert_eq!(
        refusing.check_for_allowed_update(ChatKind::Group, -300, 1),
        Some(DisallowReason::UnspecifiedDisallowed)
    );
    assert_eq!(
        refusing.check_for_allowed_update(ChatKind::Supergroup, -300, 1),
        Some(DisallowReason::UnspecifiedDisallowed)
    );

    let allowing = policy(None, None);
    assert_eq!(allowing.check_for_allowed_update(ChatKind::Group, -300, 1), None);
}

#[test]
fn is_admin_goes_by_the_configured_list() {
    let p = policy(None, None);
    assert!(p.is_admin(99));
    assert!(!p.is_admin(98));
}

#[test]
fn icons_for_known_condition_codes() {
    assert_eq!(get_icon(210), Some("⛈"));
    assert_eq!(get_icon(301), Some("🌧"));
    assert_eq!(get_icon(502), Some("🌧"));
    assert_eq!(get_icon(601), Some("🌨"));
    assert_eq!(get_icon(701), Some("🌫"));
    assert_eq!(get_icon(711), Some("🔥💨"));
    assert_eq!(get_icon(731), Some("🏜💨"));
    assert_eq!(get_icon(762), Some("🌋💨"));
    assert_eq!(get_icon(781), Some("🌪"));
    assert_eq!(get_icon(800), Some("☀️"));
    assert_eq!(get_icon(801), Some("🌤"));
    assert_eq!(get_icon(802), Some("⛅️"));
    assert_eq!(get_icon(803), Some("🌥"));
    assert_eq!(get_icon(804), Some("☁️"));
}

#[test]
fn codes_without_icon_yield_nothing() {
    assert_eq!(get_icon(100), None);
    assert_eq!(get_icon(705), None);
    assert_eq!(get_icon(805), None);
    assert_eq!(get_icon(999), None);
    assert_eq!(get_icon(-210), None);
}

#[test]
fn condition_entry_reports_its_icon() {
    let entry = WeatherResponseWeather {
        id: 600,
        description: "light snow".to_string(),
    };
    assert_eq!(entry.icon(), Some("🌨"));
}

#[test]
fn event_kind_codes_round_trip() {
    assert_eq!(EventType::Sleep.code(), 1);
    assert_eq!(EventType::Work.code(), 2);
    assert_eq!(EventType::from_code(1), Some(EventType::Sleep));
    assert_eq!(EventType::from_code(2), Some(EventType::Work));
    assert_eq!(EventType::from_code(3), None);
    assert_eq!(EventType::from_code(0), None);
}
