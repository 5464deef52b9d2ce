use pingo::db::{
    column_flag, column_integer, column_optional_text, column_small_integer, column_text, flag,
    generate_id, now, optional, optional_str, text, Database, Group, GroupMember, GroupMessage,
    Message, Note, SqlValue, StoreError, User, CREATE_MESSAGE_SQL, GET_MESSAGES_BEFORE_SQL,
    GET_MESSAGES_BETWEEN_SQL, SHARED_MEDIA_OF_TYPE_SQL, SHARED_MEDIA_SQL,
};

fn texts(params: &[SqlValue]) -> Vec<String> {
    params
        .iter()
        .map(|p| match p {
            SqlValue::Null => "NULL".to_string(),
            SqlValue::Integer(i) => i.to_string(),
            SqlValue::Text(s) => format!("'{}'", s),
        })
        .collect()
}

fn t(s: &str) -> SqlValue {
    SqlValue::Text(s.to_string())
}

fn message() -> Message {
    Message {
        id: "msg_1".into(),
        sender_id: "device_a".into(),
        receiver_id: "device_b".into(),
        content: "Hello".into(),
        message_type: "text".into(),
        file_path: None,
        is_read: true,
        is_delivered: false,
        created_at: "2024-01-01T00:00:00+00:00".into(),
    }
}

#[test]
fn create_message_ignores_duplicates_and_binds_every_column() {
    let statement = Database::create_message(&message());
    assert_eq!(statement.sql, CREATE_MESSAGE_SQL);
    assert!(statement.sql.starts_with("INSERT OR IGNORE INTO messages"));
    assert_eq!(
        texts(&statement.params),
        vec![
            "'msg_1'",
            "'device_a'",
            "'device_b'",
            "'Hello'",
            "'text'",
            "NULL",
            "1",
            "0",
            "'2024-01-01T00:00:00+00:00'"
        ]
    );
}

#[test]
fn create_user_replaces_and_binds_optionals_as_null() {
    let user = User {
        id: "d".into(),
        username: "Ana".into(),
        device_id: "d".into(),
        public_key: Some("pk".into()),
        avatar_path: None,
        bio: Some(String::new()),
        designation: None,
        last_seen: None,
        is_online: true,
        created_at: "c".into(),
    };
    let statement = Database::create_user(&user);
    assert!(statement.sql.starts_with("INSERT OR REPLACE INTO users"));
    assert_eq!(
        texts(&statement.params),
        vec!["'d'", "'Ana'", "'d'", "'pk'", "NULL", "''", "NULL", "NULL", "1", "'c'"]
    );
}

#[test]
fn conversation_queries_bind_both_ends_and_the_limit() {
    let statement = Database::get_messages_between("a", "b", 10);
    assert_eq!(statement.sql, GET_MESSAGES_BETWEEN_SQL);
    assert!(statement.sql.ends_with("ORDER BY created_at DESC LIMIT ?3"));
    assert_eq!(texts(&statement.params), vec!["'a'", "'b'", "10"]);
}

#[test]
fn pagination_uses_the_cursor_as_a_strict_upper_bound() {
    let with = Database::get_messages_paginated("a", "b", Some("2024"), 50);
    assert_eq!(with.sql, GET_MESSAGES_BEFORE_SQL);
    assert!(with.sql.contains("created_at < ?3"));
    assert_eq!(texts(&with.params), vec!["'a'", "'b'", "'2024'", "50"]);
    let without = Database::get_messages_paginated("a", "b", None, 50);
    assert_eq!(without.sql, GET_MESSAGES_BETWEEN_SQL);
    assert_eq!(texts(&without.params), vec!["'a'", "'b'", "50"]);
}

#[test]
fn last_messages_number_rows_per_peer() {
    let statement = Database::get_last_messages("me");
    assert!(statement.sql.contains("ROW_NUMBER() OVER ( PARTITION BY"));
    assert!(statement.sql.ends_with("WHERE rn=1"));
    assert_eq!(texts(&statement.params), vec!["'me'"]);
}

#[test]
fn upsert_peer_keeps_a_known_key() {
    let statement = Database::upsert_peer_as_user("d", "Bo", None, "t");
    assert!(statement.sql.contains("ON CONFLICT(id) DO UPDATE"));
    assert!(statement.sql.contains("public_key=COALESCE(excluded.public_key,users.public_key)"));
    assert_eq!(texts(&statement.params), vec!["'d'", "'Bo'", "NULL", "'t'"]);
    let statement = Database::upsert_peer_as_user("d", "Bo", Some("k"), "t");
    assert_eq!(texts(&statement.params), vec!["'d'", "'Bo'", "'k'", "'t'"]);
}

#[test]
fn set_user_avatar_first_makes_sure_of_the_user() {
    let statements = Database::set_user_avatar("d", "http://x/file/f1", "t");
    assert_eq!(statements.len(), 2);
    assert!(statements[0].sql.starts_with("INSERT OR IGNORE INTO users"));
    assert_eq!(texts(&statements[0].params), vec!["'d'", "'Peer'", "'t'"]);
    assert_eq!(statements[1].sql, "UPDATE users SET avatar_path=?1 WHERE id=?2");
    assert_eq!(texts(&statements[1].params), vec!["'http://x/file/f1'", "'d'"]);
}

#[test]
fn delete_group_takes_messages_members_and_group() {
    let statements = Database::delete_group("g");
    let sql: Vec<&str> = statements.iter().map(|s| s.sql.as_str()).collect();
    assert_eq!(
        sql,
        vec![
            "DELETE FROM group_messages WHERE group_id=?1",
            "DELETE FROM group_members WHERE group_id=?1",
            "DELETE FROM groups WHERE id=?1"
        ]
    );
    for s in &statements {
        assert_eq!(texts(&s.params), vec!["'g'"]);
    }
}

#[test]
fn shared_media_names_the_type_or_images_and_files() {
    let all = Database::get_shared_media("a", "b", None);
    assert_eq!(all.sql, SHARED_MEDIA_SQL);
    assert!(all.sql.contains("message_type IN ('image','file')"));
    assert_eq!(texts(&all.params), vec!["'a'", "'b'"]);
    let images = Database::get_shared_media("a", "b", Some("image"));
    assert_eq!(images.sql, SHARED_MEDIA_OF_TYPE_SQL);
    assert!(images.sql.ends_with("AND message_type=?3 ORDER BY created_at DESC"));
    assert_eq!(texts(&images.params), vec!["'a'", "'b'", "'image'"]);
    let odd = Database::get_shared_media("a", "b", Some("x' OR '1'='1"));
    assert_eq!(odd.sql, SHARED_MEDIA_OF_TYPE_SQL);
    assert_eq!(texts(&odd.params)[2], "'x' OR '1'='1'");
}

#[test]
fn simple_statements_bind_their_arguments_in_order() {
    assert_eq!(texts(&Database::get_user("u").params), vec!["'u'"]);
    assert!(Database::get_all_users().params.is_empty());
    assert_eq!(
        texts(&Database::update_user_online_status("u", false, "t").params),
        vec!["0", "'t'", "'u'"]
    );
    assert_eq!(Database::delete_user("u").sql, "DELETE FROM users WHERE id=?1");
    assert_eq!(
        Database::mark_message_read("m").sql,
        "UPDATE messages SET is_read=1, is_delivered=1 WHERE id=?1"
    );
    assert!(Database::mark_messages_read_from_peer("me", "p").sql.contains("is_read=1, is_delivered=1"));
    assert_eq!(
        texts(&Database::mark_messages_read_from_peer("me", "p").params),
        vec!["'me'", "'p'"]
    );
    assert_eq!(
        Database::mark_message_delivered("m").sql,
        "UPDATE messages SET is_delivered=1 WHERE id=?1"
    );
    assert_eq!(texts(&Database::update_message_file_path("m", "/p").params), vec!["'/p'", "'m'"]);
    assert!(Database::get_undelivered_messages_for_peer("a", "b").sql.ends_with("LIMIT 100"));
    assert_eq!(texts(&Database::get_unread_count_from_peer("me", "p").params), vec!["'me'", "'p'"]);
    assert_eq!(texts(&Database::set_setting("k", "v").params), vec!["'k'", "'v'"]);
    assert_eq!(Database::get_setting("k").sql, "SELECT value FROM settings WHERE key=?1");
    assert_eq!(texts(&Database::toggle_note_pin("n", "t").params), vec!["'n'", "'t'"]);
    assert_eq!(texts(&Database::remove_group_member("g", "u").params), vec!["'g'", "'u'"]);
    assert_eq!(texts(&Database::get_group_messages("g", 7).params), vec!["'g'", "7"]);
    assert_eq!(
        texts(&Database::cache_peer("d", "n", "1.2.3.4", 80, None, "t").params),
        vec!["'d'", "'n'", "'1.2.3.4'", "80", "NULL", "'t'"]
    );
    assert_eq!(texts(&Database::get_new_messages_since("a", "b", "s").params), vec!["'a'", "'b'", "'s'"]);
}

#[test]
fn rows_of_groups_bind_their_columns() {
    let group = Group {
        id: "g".into(),
        name: "Team".into(),
        created_by: "me".into(),
        avatar_color: Some("#4f46e5".into()),
        created_at: "t".into(),
    };
    assert_eq!(
        texts(&Database::create_group(&group).params),
        vec!["'g'", "'Team'", "'me'", "'#4f46e5'", "'t'"]
    );
    let member = GroupMember {
        group_id: "g".into(),
        user_id: "u".into(),
        username: "U".into(),
        role: "member".into(),
        joined_at: "t".into(),
    };
    assert_eq!(
        texts(&Database::add_group_member(&member).params),
        vec!["'g'", "'u'", "'U'", "'member'", "'t'"]
    );
    let gm = GroupMessage {
        id: "m".into(),
        group_id: "g".into(),
        sender_id: "u".into(),
        sender_name: "U".into(),
        content: "hi".into(),
        message_type: "text".into(),
        created_at: "t".into(),
    };
    assert_eq!(
        texts(&Database::send_group_message(&gm).params),
        vec!["'m'", "'g'", "'u'", "'U'", "'hi'", "'text'", "'t'"]
    );
    let note = Note {
        id: "n".into(),
        title: "T".into(),
        content: "".into(),
        color: "#fff".into(),
        pinned: true,
        category: None,
        created_at: "c".into(),
        updated_at: "u".into(),
    };
    assert_eq!(
        texts(&Database::save_note(&note).params),
        vec!["'n'", "'T'", "''", "'#fff'", "1", "NULL", "'c'", "'u'"]
    );
}

#[test]
fn migrations_tolerate_only_the_added_columns() {
    let steps = Database::run_migrations();
    assert_eq!(steps.len(), 20);
    assert!(steps[0].sql.contains("PRAGMA journal_mode = WAL"));
    assert!(steps[0].sql.contains("PRAGMA foreign_keys = ON"));
    let tolerated: Vec<usize> =
        steps.iter().enumerate().filter(|(_, s)| s.tolerated).map(|(i, _)| i).collect();
    assert_eq!(tolerated, vec![2, 3]);
    assert!(steps[2].sql.starts_with("ALTER TABLE users ADD COLUMN bio"));
    assert!(steps[3].sql.starts_with("ALTER TABLE users ADD COLUMN designation"));
    assert_eq!(steps.iter().filter(|s| s.sql.starts_with("CREATE TABLE IF NOT EXISTS")).count(), 9);
    assert_eq!(steps.iter().filter(|s| s.sql.starts_with("CREATE INDEX IF NOT EXISTS")).count(), 8);
    assert!(steps.iter().any(|s| s.sql.contains("ON DELETE CASCADE")));
}

#[test]
fn a_message_row_is_read_back() {
    let row = vec![
        t("msg_1"),
        t("device_a"),
        t("device_b"),
        t("Hello"),
        t("text"),
        SqlValue::Null,
        SqlValue::Integer(1),
        SqlValue::Integer(0),
        t("2024"),
    ];
    let m = Database::row_to_message(&row).unwrap();
    assert_eq!(m.id, "msg_1");
    assert_eq!(m.content, "Hello");
    assert_eq!(m.file_path, None);
    assert!(m.is_read);
    assert!(!m.is_delivered);
    assert_eq!(m.created_at, "2024");
    let copy = m.clone();
    assert_eq!(copy.sender_id, "device_a");
}

#[test]
fn a_row_of_the_wrong_shape_is_not_read() {
    let mut row = vec![
        t("msg_1"),
        t("device_a"),
        t("device_b"),
        t("Hello"),
        t("text"),
        SqlValue::Null,
        SqlValue::Integer(1),
        SqlValue::Integer(0),
    ];
    assert!(Database::row_to_message(&row).is_none());
    row.push(SqlValue::Null);
    assert!(Database::row_to_message(&row).is_none());
    row[8] = t("2024");
    row[6] = t("yes");
    assert!(Database::row_to_message(&row).is_none());
    row[6] = SqlValue::Integer(1 << 40);
    assert!(Database::row_to_message(&row).is_none());
    row[6] = SqlValue::Integer(-5);
    assert!(Database::row_to_message(&row).unwrap().is_read);
}

#[test]
fn other_rows_are_read_back() {
    let user = Database::row_to_user(&vec![
        t("d"),
        t("Ana"),
        t("d"),
        SqlValue::Null,
        t("http://a"),
        t(""),
        t(""),
        SqlValue::Null,
        SqlValue::Integer(0),
        t("c"),
    ])
    .unwrap();
    assert_eq!(user.username, "Ana");
    assert_eq!(user.public_key, None);
    assert_eq!(user.avatar_path.as_deref(), Some("http://a"));
    assert!(!user.is_online);

    let last = Database::row_to_last_message(&vec![t("p"), t("hi"), t("t"), SqlValue::Integer(1)])
        .unwrap();
    assert_eq!((last.peer_id.as_str(), last.content.as_str(), last.is_from_me), ("p", "hi", true));

    let file = Database::row_to_file_record(&vec![
        t("f"),
        SqlValue::Null,
        t("a"),
        t("b"),
        t("n"),
        t("/p"),
        SqlValue::Integer(1 << 40),
        t("pdf"),
        t("c"),
        SqlValue::Integer(1),
        t("t"),
    ])
    .unwrap();
    assert_eq!(file.file_size, 1 << 40);
    assert!(file.is_complete);

    let setting = Database::row_to_settings(&vec![t("k"), t("v")]).unwrap();
    assert_eq!((setting.key.as_str(), setting.value.as_str()), ("k", "v"));
    assert!(Database::row_to_settings(&vec![t("k")]).is_none());
    assert_eq!(Database::row_to_count(&vec![SqlValue::Integer(3)]), Some(3));
    assert_eq!(Database::row_to_count(&vec![SqlValue::Null]), None);
    assert_eq!(
        Database::row_to_cached_peer(&vec![t("d"), t("n"), t("1.2.3.4"), SqlValue::Integer(80)]),
        Some(("d".to_string(), "n".to_string(), "1.2.3.4".to_string(), 80))
    );
    assert!(Database::row_to_group(&vec![t("g"), t("n"), t("me"), SqlValue::Null, t("t")]).is_some());
    assert!(Database::row_to_group_member(&vec![t("g"), t("u"), t("n"), t("admin"), t("t")]).is_some());
    assert!(Database::row_to_group_message(&vec![t("m"), t("g"), t("u"), t("n"), t("c"), t("text"), t("t")]).is_some());
    assert!(Database::row_to_note(&vec![t("n"), t("t"), t("c"), t("#f"), SqlValue::Integer(0), SqlValue::Null, t("a"), t("b")]).is_some());
}

#[test]
fn a_missing_setting_is_no_error() {
    assert_eq!(Database::setting_value(&vec![]), Ok(None));
    assert_eq!(Database::setting_value(&vec![vec![t("v")]]), Ok(Some("v".to_string())));
    assert_eq!(Database::setting_value(&vec![vec![SqlValue::Null]]), Err(StoreError::InvalidRow));
    assert!(Database::first_row(&vec![]).is_none());
    assert_eq!(Database::first_row(&vec![vec![t("a")], vec![t("b")]]).unwrap().len(), 1);
}

#[test]
fn columns_are_read_by_kind() {
    let row = vec![t("x"), SqlValue::Null, SqlValue::Integer(7), SqlValue::Integer(0)];
    assert_eq!(column_text(&row, 0), Some("x".to_string()));
    assert_eq!(column_text(&row, 1), None);
    assert_eq!(column_text(&row, 9), None);
    assert_eq!(column_optional_text(&row, 0), Some(Some("x".to_string())));
    assert_eq!(column_optional_text(&row, 1), Some(None));
    assert_eq!(column_optional_text(&row, 2), None);
    assert_eq!(column_integer(&row, 2), Some(7));
    assert_eq!(column_small_integer(&row, 2), Some(7));
    assert_eq!(column_small_integer(&vec![SqlValue::Integer(i32::MAX as i64 + 1)], 0), None);
    assert_eq!(column_small_integer(&vec![SqlValue::Integer(i32::MIN as i64)], 0), Some(i32::MIN));
    assert_eq!(column_flag(&row, 2), Some(true));
    assert_eq!(column_flag(&row, 3), Some(false));
    assert_eq!(column_flag(&row, 0), None);
    assert!(matches!(text("a"), SqlValue::Text(s) if s == "a"));
    assert!(matches!(optional(&None), SqlValue::Null));
    assert!(matches!(optional_str(Some("a")), SqlValue::Text(s) if s == "a"));
    assert!(matches!(flag(true), SqlValue::Integer(1)));
    assert!(matches!(flag(false), SqlValue::Integer(0)));
}

#[test]
fn identifiers_are_fresh_and_hyphenated() {
    let a = generate_id();
    let b = generate_id();
    assert_eq!(a.len(), 36);
    assert_eq!(a.matches('-').count(), 4);
    assert_ne!(a, b);
}

#[test]
fn timestamps_are_utc() {
    let stamp = now();
    assert!(stamp.ends_with("+00:00"));
    assert!(stamp.contains('T'));
}
