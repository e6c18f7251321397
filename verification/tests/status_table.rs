use rsfb::log::{get_class_name, is_hidden, log_line, set_hidden, LogSettings, LogSubject};
use rsfb::mail::{message_note, news_note, unread_messages, unread_news, InboxMessage, NewsMessage};
use rsfb::model::{Class, CurrentAction, Mount};
use rsfb::status::{
    character_status, format_character_table, rank_order, CharacterStatus, GuildSummary, StatusInput, StatusLabel,
};
use rsfb::text::{chars_of, push_decimal, push_padded, push_repeat};

fn input() -> StatusInput {
    StatusInput {
        name: "Hero".to_string(),
        guild: Some(GuildSummary {
            name: "Knights".to_string(),
            total_treasure_skill: 101,
            total_instructor_skill: 1000,
            finished_raids: 7,
        }),
        level: 321,
        class: Class::BattleMage,
        silver: 1_234_507,
        mushrooms: 42,
        mount: Some(Mount::Tiger),
        mount_end: Some(2000),
        now: 1000,
        thirst_for_adventure_sec: 6000,
        rank: 17,
        current_action: CurrentAction::CityGuard { hours: 8, busy_until: 0 },
    }
}

fn row(name: &str, rank: u32) -> CharacterStatus {
    CharacterStatus {
        name: name.to_string(),
        guild: "-".to_string(),
        level: 1,
        class: Class::Mage,
        silver: 5,
        mushrooms: 0,
        mount: 0,
        treasure: 0,
        instructor: 0,
        thirst: 0,
        rank,
        status: StatusLabel::Idle,
    }
}

/// The table as the status printer lays it out, with the same format strings.
fn expected_table(hidden: bool, rows: &[&CharacterStatus]) -> String {
    let w = [14usize, 5, 12, 10, 9, 8, 12];
    let mut border = String::from("+");
    for x in w {
        border.push_str(&"-".repeat(x + 2));
        border.push('+');
    }
    let mut out = String::new();
    out.push_str(&border);
    out.push('\n');
    let titles = ["CHARACTER NAME", "LEVEL", "CLASS", "GOLD", "MUSHROOMS", "RANK", "STATUS"];
    out.push('|');
    for (t, x) in titles.iter().zip(w) {
        out.push_str(&format!(" {:<x$} |", t, x = x));
    }
    out.push('\n');
    out.push_str(&border);
    out.push('\n');
    for r in rows.iter() {
        let status = match r.status {
            StatusLabel::Idle => "IDLE".to_string(),
            StatusLabel::Working { hours } => format!("WORKING ({}H)", hours),
            StatusLabel::Quest { quest_idx } => format!("QUEST {}", quest_idx as u32 + 1),
            StatusLabel::Expedition => "EXPEDITION".to_string(),
            StatusLabel::Unknown => "UNKNOWN".to_string(),
        };
        let name = if hidden { "****" } else { r.name.as_str() };
        let gold = (r.silver as f64) / 100.0;
        out.push_str(&format!(
            "| {:<w0$} | {:>w1$} | {:<w2$} | {:>w3$.2} | {:>w4$} | {:>w5$} | {:<w6$} |\n",
            name,
            r.level,
            get_class_name(r.class),
            gold,
            r.mushrooms,
            r.rank,
            status,
            w0 = w[0],
            w1 = w[1],
            w2 = w[2],
            w3 = w[3],
            w4 = w[4],
            w5 = w[5],
            w6 = w[6]
        ));
    }
    out.push_str(&border);
    out.push('\n');
    out
}

#[test]
fn character_status_summary() {
    let s = character_status(&input());
    assert_eq!(s.name, "Hero");
    assert_eq!(s.guild, "Knights");
    assert_eq!(s.mount, 30);
    // (101 / 5 + 7 * 2)% = 34.2%, kept in tenths.
    assert_eq!(s.treasure, 342);
    // Capped at 200%.
    assert_eq!(s.instructor, 2000);
    assert_eq!(s.thirst, 100);
    assert_eq!(s.status, StatusLabel::Working { hours: 8 });
    let mut i = input();
    i.guild = None;
    i.mount_end = Some(1000);
    i.current_action = CurrentAction::Quest { quest_idx: 2 };
    let s = character_status(&i);
    assert_eq!(s.guild, "-");
    assert_eq!(s.mount, 0);
    assert_eq!(s.treasure, 0);
    assert_eq!(s.status, StatusLabel::Quest { quest_idx: 2 });
}

#[test]
fn rows_are_ordered_by_rank_stably() {
    let rows = vec![row("c", 5), row("a", 1), row("d", 5), row("b", 3)];
    assert_eq!(rank_order(&rows), vec![1, 3, 0, 2]);
    assert_eq!(rank_order(&Vec::new()), Vec::<usize>::new());
}

#[test]
fn table_matches_the_printed_layout() {
    let mut settings = LogSettings::new();
    let s = character_status(&input());
    let other = row("Zed", 2);
    let rows = vec![s.clone(), other.clone()];
    assert_eq!(format_character_table(&settings, &rows), expected_table(false, &[&other, &s]));
    set_hidden(&mut settings, true);
    assert_eq!(format_character_table(&settings, &rows), expected_table(true, &[&other, &s]));
}

#[test]
fn table_layout_for_three_characters() {
    let settings = LogSettings::new();
    let mut one = row("Hero One", 1420);
    one.level = 385;
    one.class = Class::DemonHunter;
    one.silver = 41_258_950;
    one.mushrooms = 320;
    let mut two = row("Hero Two", 8942);
    two.level = 210;
    two.class = Class::Mage;
    two.silver = 1_245_025;
    two.mushrooms = 45;
    two.status = StatusLabel::Expedition;
    let mut three = row("Hero Three", 15201);
    three.level = 124;
    three.class = Class::Warrior;
    three.silver = 340_210;
    three.mushrooms = 12;
    three.status = StatusLabel::Working { hours: 8 };
    let expected = "\
+----------------+-------+--------------+------------+-----------+----------+--------------+
| CHARACTER NAME | LEVEL | CLASS        | GOLD       | MUSHROOMS | RANK     | STATUS       |
+----------------+-------+--------------+------------+-----------+----------+--------------+
| Hero One       |   385 | Demon Hunter |  412589.50 |       320 |     1420 | IDLE         |
| Hero Two       |   210 | Mage         |   12450.25 |        45 |     8942 | EXPEDITION   |
| Hero Three     |   124 | Warrior      |    3402.10 |        12 |    15201 | WORKING (8H) |
+----------------+-------+--------------+------------+-----------+----------+--------------+
";
    let rows = vec![three, one, two];
    assert_eq!(format_character_table(&settings, &rows), expected);
}

#[test]
fn hidden_table_is_the_same_whatever_the_names() {
    let mut settings = LogSettings::new();
    set_hidden(&mut settings, true);
    let a = vec![row("Alice", 2), row("Bob", 1)];
    let mut b = vec![row("Mallory", 2), row("Trent", 1)];
    b[0].guild = "Other Guild".to_string();
    assert_eq!(format_character_table(&settings, &a), format_character_table(&settings, &b));
}

#[test]
fn table_labels_and_small_gold() {
    let settings = LogSettings::new();
    let mut a = row("A", 1);
    a.status = StatusLabel::Expedition;
    a.silver = 7;
    let mut b = row("B", 2);
    b.status = StatusLabel::Quest { quest_idx: 0 };
    b.silver = 100;
    let mut c = row("C", 3);
    c.status = StatusLabel::Unknown;
    c.treasure = 5;
    let rows = vec![c.clone(), b.clone(), a.clone()];
    assert_eq!(format_character_table(&settings, &rows), expected_table(false, &[&a, &b, &c]));
    assert_eq!(format_character_table(&settings, &Vec::new()), expected_table(false, &[]));
}

#[test]
fn hidden_flag_reads_back_what_was_set() {
    let mut settings = LogSettings::new();
    assert!(!is_hidden(&settings));
    set_hidden(&mut settings, true);
    assert!(is_hidden(&settings));
    set_hidden(&mut settings, false);
    assert!(!is_hidden(&settings));
}

#[test]
fn class_names() {
    assert_eq!(get_class_name(Class::BattleMage), "Battle Mage");
    assert_eq!(get_class_name(Class::PlagueDoctor), "Plague Doctor");
    assert_eq!(get_class_name(Class::BloodWeaver), "Blood Weaver");
    assert_eq!(get_class_name(Class::DemonHunter), "Demon Hunter");
    assert_eq!(get_class_name(Class::Warrior), "Warrior");
}

#[test]
fn log_lines() {
    let mut settings = LogSettings::new();
    let subject = Some(LogSubject { name: "Hero".to_string(), level: 42, class: Class::DemonHunter });
    assert_eq!(
        log_line(&settings, &subject, "acc", "HELLO", "2024-01-02 03:04:05"),
        "[2024-01-02 03:04:05] Level 42 Demon Hunter (Hero): HELLO"
    );
    assert_eq!(
        log_line(&settings, &None, "acc", "HELLO", "T"),
        "[T] USER 'acc' (STATE UNPOPULATED): HELLO"
    );
    set_hidden(&mut settings, true);
    assert_eq!(log_line(&settings, &subject, "acc", "X", "T"), "[T] Level 42 Demon Hunter (****): X");
    assert_eq!(log_line(&settings, &None, "acc", "X", "T"), "[T] USER '****' (STATE UNPOPULATED): X");
}

#[test]
fn mail_and_news_to_read() {
    let msg = |read: bool, normal: bool| InboxMessage {
        msg_id: 1,
        read,
        normal,
        from: "Ann".to_string(),
        title: "Hi".to_string(),
    };
    let msgs = vec![msg(false, true), msg(true, true), msg(false, false), msg(false, true)];
    assert_eq!(unread_messages(&msgs), vec![0, 3]);
    let news = |read: bool| NewsMessage { news_id: 9, read, title: "War".to_string() };
    assert_eq!(unread_news(&vec![news(true), news(false)]), vec![1]);
    let mut settings = LogSettings::new();
    assert_eq!(message_note(&settings, &msg(false, true)), "READING MESSAGE FROM 'Ann' (Hi)");
    assert_eq!(news_note(&settings, &news(false)), "READING NEWS 'War'");
    set_hidden(&mut settings, true);
    assert_eq!(message_note(&settings, &msg(false, true)), "READING MESSAGE FROM '****' (****)");
    assert_eq!(news_note(&settings, &news(false)), "READING NEWS '****'");
}

#[test]
fn text_building_blocks() {
    let mut out = Vec::new();
    push_decimal(&mut out, 0);
    push_repeat(&mut out, '-', 3);
    push_decimal(&mut out, 1_234_567);
    assert_eq!(out.iter().collect::<String>(), "0---1234567");
    let mut out = Vec::new();
    push_padded(&mut out, &chars_of("ab"), 4, true);
    push_padded(&mut out, &chars_of("cd"), 4, false);
    push_padded(&mut out, &chars_of("toolong"), 3, false);
    assert_eq!(out.iter().collect::<String>(), "  abcd  toolong");
}
