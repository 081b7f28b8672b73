use whatsong::bot::{
    calculate_offset, Command, CommandAliases, Configuration, PlaybackStatus, ReqType,
};

const T: i64 = 1_500_000_000_000;

#[test]
fn offset_inside_window() {
    assert_eq!(calculate_offset(T, 180, T + 60_000), PlaybackStatus::Playing(60));
}

#[test]
fn offset_after_window_is_finished() {
    assert_eq!(calculate_offset(T, 180, T + 200_000), PlaybackStatus::Finished);
}

#[test]
fn offset_before_window_is_finished() {
    // clock skew: the query instant precedes the reported start
    assert_eq!(calculate_offset(T, 180, T - 1000), PlaybackStatus::Finished);
}

#[test]
fn offset_zero_is_still_playing() {
    assert_eq!(calculate_offset(T, 180, T), PlaybackStatus::Playing(0));
}

#[test]
fn offset_window_boundaries() {
    assert_eq!(calculate_offset(T, 180, T + 179_999), PlaybackStatus::Playing(179));
    assert_eq!(calculate_offset(T, 180, T + 180_000), PlaybackStatus::Finished);
}

#[test]
fn zero_duration_never_plays() {
    assert_eq!(calculate_offset(T, 0, T), PlaybackStatus::Finished);
}

#[test]
fn default_aliases_parse() {
    let aliases = CommandAliases::default();
    assert_eq!(aliases.parse_user("!previous"), Command::Previous);
    assert_eq!(aliases.parse_user("!current"), Command::Current);
    assert_eq!(aliases.parse_user("!songlist"), Command::List);
    assert_eq!(aliases.parse_user("!volume"), Command::Unknown);
}

#[test]
fn earlier_alias_group_wins() {
    let aliases = CommandAliases {
        previous: vec!["!song".to_string()],
        current: vec!["!song".to_string()],
        list: vec!["!song".to_string()],
    };
    assert_eq!(aliases.parse_user("!song"), Command::Previous);
}

#[test]
fn endpoints() {
    assert_eq!(ReqType::Current.as_ep(), "current");
    assert_eq!(ReqType::Previous.as_ep(), "previous");
    assert_eq!(ReqType::List.as_ep(), "list/youtube");
}

#[test]
fn default_configuration() {
    let config = Configuration::default();
    assert_eq!(config.nickname, "shaken_bot");
    assert_eq!(config.channel, "museun");
    assert_eq!(config.commands.previous, vec!["!previous".to_string()]);
    assert_eq!(config.commands.current, vec!["!current".to_string()]);
    assert_eq!(config.commands.list, vec!["!songlist".to_string()]);
}
