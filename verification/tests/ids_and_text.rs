use megagame::ids::{decimal_string, parse_decimal, DatabaseId, DiscordId};
use megagame::messages::{animal_menu, plain_message_task, welcome_message};
use megagame::tasks::{MessageTasks, TaskType};

#[test]
fn discord_id_into_writes_decimal() {
    assert_eq!(DiscordId(1234).into(), "1234".to_string());
    assert_eq!(DiscordId(0).into(), "0".to_string());
    assert_eq!(DiscordId(u64::MAX).into(), "18446744073709551615".to_string());
}

#[test]
fn discord_id_from_reads_decimal() {
    assert_eq!(DiscordId::from(&"345993194322001923".to_string()).0, 345993194322001923);
    assert_eq!(DiscordId::from(&"+42".to_string()).0, 42);
    assert_eq!(DiscordId::from(&"007".to_string()).0, 7);
}

#[test]
fn discord_id_text_round_trip() {
    for v in [0u64, 9, 10, 451862707746897961, u64::MAX] {
        let text: String = DiscordId(v).into();
        assert_eq!(DiscordId::from(&text).0, v);
    }
}

#[test]
fn parse_decimal_refuses_what_u64_parse_refuses() {
    for s in ["", "+", "-1", "12a", " 1", "1 ", "18446744073709551616", "99999999999999999999"] {
        assert_eq!(parse_decimal(s), None, "{}", s);
        assert!(s.parse::<u64>().is_err());
    }
    for s in ["0", "+0", "18446744073709551615", "000123"] {
        assert_eq!(parse_decimal(s), Some(s.parse::<u64>().unwrap()));
    }
}

#[test]
fn decimal_string_matches_to_string() {
    for v in [0u64, 1, 42, 1000, 123456789, u64::MAX] {
        assert_eq!(decimal_string(v), v.to_string());
    }
}

#[test]
fn ids_deref_to_their_value() {
    assert_eq!(*DiscordId(77), 77u64);
    assert_eq!(*DatabaseId(-3), -3i32);
}

#[test]
fn welcome_message_mentions_the_role() {
    assert_eq!(welcome_message(DiscordId(987)), "Welcome to the team <@&987>!");
}

#[test]
fn plain_message_task_has_no_components() {
    match plain_message_task(DiscordId(1), DiscordId(2), "hi".to_string()) {
        TaskType::MessageHandler(h) => {
            assert_eq!(h.guild_id, DiscordId(1));
            let MessageTasks::SendChannelMessage(m) = h.task;
            assert_eq!(m.channel_id, DiscordId(2));
            assert_eq!(m.message, "hi");
            assert!(m.select_menu.is_none());
            assert!(m.buttons.is_empty());
        }
        other => panic!("unexpected task {:?}", other),
    }
}

#[test]
fn animal_menu_lists_five_animals() {
    let m = animal_menu();
    assert_eq!(m.placeholder.as_deref(), Some("No animal selected"));
    let values: Vec<&str> = m.options.iter().map(|o| o.value.as_str()).collect();
    assert_eq!(values, vec!["Cat", "Dog", "Horse", "Alpaca", "Ferris"]);
    assert_eq!(m.options[0].label, "\u{1F408} meow");
    assert_eq!(m.options[4].label, "\u{1F980} crab rave");
    assert!(m.custom_id.is_empty());
}
