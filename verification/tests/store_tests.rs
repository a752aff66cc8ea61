use gtk_qq::store::{
    chatroom_child_name, check_db_version, friend_chatroom_titles, get_friend_remark, get_group_name, group_chatroom_titles,
    init_sqlite, is_current_version, order_friend_groups, sort_by_seq_id, DbVersionCheck, FriendGroupInfo, FriendsGroup, InitStep, VersionLookup, DB_VERSION,
};

fn info(group_id: u8, name: &str, online: i32, seq_id: u8) -> FriendGroupInfo {
    FriendGroupInfo { group_id, group_name: name.to_string(), friend_count: 0, online_friend_count: online, seq_id }
}

#[test]
fn friend_groups_sorted_stably() {
    let input = vec![info(1, "b", 0, 2), info(2, "a", 3, 0), info(3, "c", 1, 2), info(4, "d", 0, 1), info(5, "e", 0, 0)];
    let sorted = sort_by_seq_id(input);
    let ids: Vec<u8> = sorted.iter().map(|g| g.group_id).collect();
    assert_eq!(ids, vec![2, 5, 4, 1, 3]);
}

#[test]
fn friend_groups_sort_edge_cases() {
    assert!(sort_by_seq_id(vec![]).is_empty());
    let one = sort_by_seq_id(vec![info(9, "x", 0, 7)]);
    assert_eq!(one, vec![info(9, "x", 0, 7)]);
}

#[test]
fn stored_friend_groups_in_order() {
    let groups = order_friend_groups(vec![info(7, "work", 2, 1), info(0, "friends", 5, 0)]);
    assert_eq!(
        groups,
        vec![
            FriendsGroup { id: 0, name: "friends".to_string(), online_friends: 5 },
            FriendsGroup { id: 7, name: "work".to_string(), online_friends: 2 },
        ]
    );
}

#[test]
fn db_version_decisions() {
    assert_eq!(check_db_version(VersionLookup::Found(DB_VERSION.to_string())), DbVersionCheck::Current);
    assert_eq!(check_db_version(VersionLookup::Found(format!("+{}", DB_VERSION))), DbVersionCheck::Current);
    assert_eq!(check_db_version(VersionLookup::NoRows), DbVersionCheck::Record(DB_VERSION.to_string()));
}

#[test]
fn stored_versions_told_apart() {
    assert!(is_current_version(&DB_VERSION.to_string()));
    assert!(!is_current_version(&(DB_VERSION + 1).to_string()));
    assert!(!is_current_version("v1"));
    assert!(!is_current_version(""));
    assert!(!is_current_version("-1"));
}

#[test]
fn names_fall_back_to_numbers() {
    assert_eq!(get_friend_remark(Some("Bob".to_string()), 10086), "Bob");
    assert_eq!(get_friend_remark(None, 10086), "10086");
    assert_eq!(get_group_name(Some("Rust".to_string()), 42), "Rust");
    assert_eq!(get_group_name(None, 42), "42");
}

#[test]
fn chatroom_names_and_titles() {
    assert_eq!(chatroom_child_name(123, true), "123 group");
    assert_eq!(chatroom_child_name(456, false), "456 friend");
    assert_eq!(group_chatroom_titles("Rust".to_string(), 42), ("Rust".to_string(), "42".to_string()));
    assert_eq!(
        friend_chatroom_titles("Robert".to_string(), "Bob", 7),
        ("Robert".to_string(), "Bob (7)".to_string())
    );
}

#[test]
fn database_opening_steps() {
    let steps = init_sqlite();
    assert_eq!(steps.len(), 5);
    assert_eq!(steps[1], InitStep::CheckDbVersion);
    let tables: Vec<String> = steps
        .iter()
        .filter_map(|s| match s {
            InitStep::Execute(sql) => Some(sql.split_whitespace().nth(5).unwrap().to_string()),
            InitStep::CheckDbVersion => None,
        })
        .collect();
    assert_eq!(tables, vec!["configs", "friends", "friends_groups", "groups"]);
    match &steps[0] {
        InitStep::Execute(sql) => {
            assert!(sql.starts_with("Create table if not exists configs ("));
            assert!(sql.contains("key     TEXT PRIMARY KEY,"));
        }
        other => panic!("unexpected step {:?}", other),
    }
}

#[test]
fn recorded_version_reads_back_as_current() {
    match check_db_version(VersionLookup::NoRows) {
        DbVersionCheck::Record(text) => assert_eq!(check_db_version(VersionLookup::Found(text)), DbVersionCheck::Current),
        other => panic!("unexpected decision {:?}", other),
    }
}

fn open_db(conn: &rusqlite::Connection) {
    for step in init_sqlite() {
        match step {
            InitStep::Execute(sql) => {
                conn.execute(&sql, []).unwrap();
            }
            InitStep::CheckDbVersion => {
                let stored = conn.query_row::<String, _, _>("Select value from configs where key='db_version'", [], |row| row.get(0));
                let lookup = match stored {
                    Ok(v) => {
                        assert!(is_current_version(&v));
                        VersionLookup::Found(v)
                    }
                    Err(rusqlite::Error::QueryReturnedNoRows) => VersionLookup::NoRows,
                    Err(err) => panic!("{}", err),
                };
                if let DbVersionCheck::Record(v) = check_db_version(lookup) {
                    conn.execute("Insert into configs values ('db_version', ?1)", [v]).unwrap();
                }
            }
        }
    }
}

fn dump(conn: &rusqlite::Connection) -> Vec<String> {
    let mut out = Vec::new();
    for (table, cols) in [("configs", 2), ("friends", 4), ("friends_groups", 3), ("groups", 2)] {
        let mut stmt = conn.prepare(&format!("Select * from {} order by 1", table)).unwrap();
        let rows = stmt
            .query_map([], |row| {
                let mut cells = Vec::new();
                for i in 0..cols {
                    let v: rusqlite::types::Value = row.get(i)?;
                    cells.push(format!("{:?}", v));
                }
                Ok(format!("{}:{}", table, cells.join(",")))
            })
            .unwrap();
        for r in rows {
            out.push(r.unwrap());
        }
    }
    out
}

#[test]
fn opening_the_database_twice_changes_nothing() {
    let conn = rusqlite::Connection::open_in_memory().unwrap();
    open_db(&conn);
    conn.execute("Insert into friends values (1, 'Alice', 'A', 0)", []).unwrap();
    conn.execute("Insert into groups values (2, 'Rust')", []).unwrap();
    conn.execute("Insert into friends_groups values (0, 'Friends', 1)", []).unwrap();
    let before = dump(&conn);
    open_db(&conn);
    assert_eq!(dump(&conn), before);
    assert!(before.contains(&format!("configs:Text(\"db_version\"),Text(\"{}\")", DB_VERSION)));
}
