//! Deterministic tests of the core rules: date parsing, the six sort
//! orders with their tiebreaks, session rotation, ownership scoping, and
//! the end-to-end flow.

use chrono::Datelike;
use neko_todo::config::{ItemSortOrder, ItemSortOrderParseError, NekoTodoConfig};
use neko_todo::database::{Database, ItemTodo};
use neko_todo::dates::{parse_date, Date};
use neko_todo::form::FormTodo;
use neko_todo::todo::{Todo, TodoError};

fn d(year: i32, month: u8, day: u8) -> Date {
    Date { year, month, day }
}

fn today() -> Date {
    let t = chrono::Local::now().date_naive();
    Date { year: t.year(), month: t.month() as u8, day: t.day() as u8 }
}

fn item_titled(title: &str, start: Date, end: Date) -> ItemTodo {
    ItemTodo {
        id: 0,
        user_name: "sorter".to_string(),
        title: title.to_string(),
        work: None,
        update_date: None,
        start_date: Some(start),
        end_date: Some(end),
        done: false,
    }
}

#[test]
fn parse_date_accepts_both_separators() {
    assert_eq!(parse_date("2024-03-05"), Some(d(2024, 3, 5)));
    assert_eq!(parse_date("2024/03/05"), Some(d(2024, 3, 5)));
    assert_eq!(parse_date("2024/03-05"), Some(d(2024, 3, 5)));
    assert_eq!(parse_date("9999-12-31"), Some(d(9999, 12, 31)));
    assert_eq!(parse_date("0000-01-01"), Some(d(0, 1, 1)));
}

#[test]
fn parse_date_checks_the_calendar() {
    assert_eq!(parse_date("2024-02-29"), Some(d(2024, 2, 29)));
    assert_eq!(parse_date("2023-02-29"), None);
    assert_eq!(parse_date("1900-02-29"), None);
    assert_eq!(parse_date("2000-02-29"), Some(d(2000, 2, 29)));
    assert_eq!(parse_date("2024-04-31"), None);
    assert_eq!(parse_date("2024-13-01"), None);
    assert_eq!(parse_date("2024-00-10"), None);
    assert_eq!(parse_date("2024-01-00"), None);
}

#[test]
fn parse_date_rejects_bad_shapes() {
    assert_eq!(parse_date(""), None);
    assert_eq!(parse_date("2024-3-05"), None);
    assert_eq!(parse_date("2024-03-05x"), None);
    assert_eq!(parse_date("2024.03.05"), None);
    assert_eq!(parse_date("abcd-ef-gh"), None);
}

#[test]
fn date_order_is_calendar_order() {
    assert!(d(2024, 1, 31).on_or_before(d(2024, 2, 1)));
    assert!(d(2023, 12, 31).on_or_before(d(2024, 1, 1)));
    assert!(d(2024, 2, 1).on_or_before(d(2024, 2, 1)));
    assert!(!d(2024, 2, 2).on_or_before(d(2024, 2, 1)));
}

#[test]
fn sort_order_names_round_trip() {
    let all = [
        ItemSortOrder::StartAsc,
        ItemSortOrder::StartDesc,
        ItemSortOrder::EndAsc,
        ItemSortOrder::EndDesc,
        ItemSortOrder::UpdateAsc,
        ItemSortOrder::UpdateDesc,
    ];
    for o in all {
        assert_eq!(ItemSortOrder::from_str(o.as_str()), Ok(o));
    }
    assert_eq!(
        ItemSortOrder::from_str("Sideways"),
        Err(ItemSortOrderParseError::InvalidArgument)
    );
    assert_eq!(ItemSortOrder::from_str("EndAsc"), Ok(ItemSortOrder::EndAsc));
}

/// A deterministic store: three rows with chosen dates, listed under every
/// order; ties on the primary date break by the documented secondary one.
fn sorted_titles(order: ItemSortOrder) -> Vec<String> {
    let mut db = Database::new();
    db.add_user("sorter", "hash").unwrap();
    let sess = db.make_new_session_at("sorter", 42, 1000).unwrap();
    // update dates are stamped from the insertion date
    db.add_todo_item_on(&item_titled("A", d(2024, 1, 1), d(2024, 3, 5)), d(2024, 1, 10))
        .unwrap();
    db.add_todo_item_on(&item_titled("B", d(2024, 1, 2), d(2024, 2, 20)), d(2024, 1, 12))
        .unwrap();
    db.add_todo_item_on(&item_titled("C", d(2024, 1, 3), d(2024, 2, 20)), d(2024, 1, 8))
        .unwrap();
    db.get_todo_item_at(sess, d(2024, 2, 1), false, order, 2000)
        .unwrap()
        .iter()
        .map(|i| i.title.clone())
        .collect()
}

#[test]
fn end_asc_breaks_ties_by_update_date() {
    assert_eq!(sorted_titles(ItemSortOrder::EndAsc), vec!["C", "B", "A"]);
}

#[test]
fn end_desc_breaks_ties_by_update_date() {
    assert_eq!(sorted_titles(ItemSortOrder::EndDesc), vec!["A", "C", "B"]);
}

#[test]
fn start_asc_and_desc_follow_start_dates() {
    assert_eq!(sorted_titles(ItemSortOrder::StartAsc), vec!["A", "B", "C"]);
    assert_eq!(sorted_titles(ItemSortOrder::StartDesc), vec!["C", "B", "A"]);
}

#[test]
fn update_asc_and_desc_follow_update_dates() {
    assert_eq!(sorted_titles(ItemSortOrder::UpdateAsc), vec!["C", "A", "B"]);
    assert_eq!(sorted_titles(ItemSortOrder::UpdateDesc), vec!["B", "A", "C"]);
}

/// Registering the same name twice: the second call reports the duplicate.
#[test]
fn duplicate_registration_is_refused() {
    let mut todo = Todo::new();
    todo.add_user("alice", "pw1").unwrap();
    assert_eq!(todo.add_user("alice", "other"), Err(TodoError::DuplicateUser));
}

/// Renewal hands out a different id every time, and a rotated-away id is
/// invalid from then on.
#[test]
fn rotation_never_repeats_and_retires_old_ids() {
    let mut todo = Todo::new();
    todo.add_user("alice", "pw1").unwrap();
    let s1 = todo.login("alice", "pw1").unwrap();
    let s2 = todo.is_valid_session(s1).unwrap().expect("直後の確認は有効のはず");
    let s3 = todo.is_valid_session(s2).unwrap().expect("回転直後の確認は有効のはず");
    assert_ne!(s1, s2);
    assert_ne!(s2, s3);
    assert_ne!(s1, s3);
    // the pre-rotation ids are dead for good
    assert_eq!(todo.is_valid_session(s1).unwrap(), None);
    assert_eq!(todo.is_valid_session(s2).unwrap(), None);
    assert_eq!(todo.is_valid_session(s1).unwrap(), None);
}

/// The end-to-end flow: register, log in, add an item, list it, complete
/// it, list again with and without the incomplete filter.
#[test]
fn register_login_add_list_toggle() {
    let mut todo = Todo::new();
    todo.add_user("alice", "pw1").unwrap();
    let sess = todo.login("alice", "pw1").unwrap();

    let item = ItemTodo {
        id: 0,
        user_name: String::new(),
        title: "buy milk".to_string(),
        work: None,
        update_date: None,
        start_date: None,
        end_date: None,
        done: false,
    };
    todo.add_todo(sess, &item).unwrap();

    let listed = todo.get_todo_list(sess, true, ItemSortOrder::EndAsc).unwrap();
    assert_eq!(listed.len(), 1);
    assert_eq!(listed[0].title, "buy milk");
    assert!(!listed[0].done);
    assert_eq!(listed[0].update_date, Some(today()));
    assert_eq!(listed[0].user_name, "alice");
    // the missing deadline takes the far-future placeholder
    assert_eq!(listed[0].end_date, Some(d(9999, 12, 31)));
    // the missing start defaults to today
    assert_eq!(listed[0].start_date, Some(today()));

    todo.change_done(listed[0].id, sess, true).unwrap();
    let incomplete = todo.get_todo_list(sess, true, ItemSortOrder::EndAsc).unwrap();
    assert_eq!(incomplete.len(), 0);
    let all = todo.get_todo_list(sess, false, ItemSortOrder::EndAsc).unwrap();
    assert_eq!(all.len(), 1);
    assert!(all[0].done);
}

/// A valid session of another user is told `NotFoundTodo`, exactly as if
/// the row did not exist, for lookup, completion and editing alike.
#[test]
fn cross_owner_access_is_denied() {
    let mut todo = Todo::new();
    todo.add_user("alice", "pw1").unwrap();
    todo.add_user("bob", "pw2").unwrap();
    let alice = todo.login("alice", "pw1").unwrap();
    let bob = todo.login("bob", "pw2").unwrap();

    let item = ItemTodo {
        id: 0,
        user_name: String::new(),
        title: "alice only".to_string(),
        work: None,
        update_date: None,
        start_date: None,
        end_date: None,
        done: false,
    };
    todo.add_todo(alice, &item).unwrap();
    let id = todo.get_todo_list(alice, true, ItemSortOrder::EndAsc).unwrap()[0].id;

    assert!(todo.get_todo_list(bob, false, ItemSortOrder::EndAsc).unwrap().is_empty());
    assert_eq!(todo.get_todo_with_id(id, bob).unwrap_err(), TodoError::NotFoundTodo);
    assert_eq!(todo.change_done(id, bob, true).unwrap_err(), TodoError::NotFoundTodo);
    let mut edited = item.clone();
    edited.id = id;
    assert_eq!(todo.edit_todo(&edited, bob).unwrap_err(), TodoError::NotFoundTodo);
    // alice still sees her unchanged row
    let mine = todo.get_todo_list(alice, true, ItemSortOrder::EndAsc).unwrap();
    assert_eq!(mine.len(), 1);
    assert!(!mine[0].done);
}

/// Editing a missing id fails and leaves every stored row as it was.
#[test]
fn edit_missing_id_changes_nothing() {
    let mut todo = Todo::new();
    todo.add_user("alice", "pw1").unwrap();
    let sess = todo.login("alice", "pw1").unwrap();
    let item = ItemTodo {
        id: 0,
        user_name: String::new(),
        title: "keep me".to_string(),
        work: Some("as is".to_string()),
        update_date: None,
        start_date: None,
        end_date: None,
        done: false,
    };
    todo.add_todo(sess, &item).unwrap();
    let before = todo.get_todo_list(sess, false, ItemSortOrder::EndAsc).unwrap();
    let missing = before.iter().map(|i| i.id).max().unwrap() + 1;

    let mut edited = item.clone();
    edited.id = missing;
    edited.title = "should not land".to_string();
    assert_eq!(todo.edit_todo(&edited, sess).unwrap_err(), TodoError::NotFoundTodo);

    let after = todo.get_todo_list(sess, false, ItemSortOrder::EndAsc).unwrap();
    assert_eq!(before, after);
}

/// The login gate: a wrong password never logs in, an unknown name is
/// reported as such.
#[test]
fn login_gate_errors() {
    let mut todo = Todo::new();
    todo.add_user("carol", "secret").unwrap();
    assert_eq!(todo.login("carol", "Secret").unwrap_err(), TodoError::WrongPassword);
    assert_eq!(todo.login("carol", "").unwrap_err(), TodoError::WrongPassword);
    assert_eq!(todo.login("nobody", "secret").unwrap_err(), TodoError::NotFoundUser);
    assert_eq!(todo.add_todo(
        uuid::Uuid::now_v7().as_u128(),
        &ItemTodo {
            id: 0,
            user_name: String::new(),
            title: "x".to_string(),
            work: None,
            update_date: None,
            start_date: None,
            end_date: None,
            done: false,
        },
    ).unwrap_err(), TodoError::NotFoundSession);
}

/// The form conversion: date texts parse with either separator; a bad
/// date refuses the whole form.
#[test]
fn form_turns_into_item() {
    let form = FormTodo {
        title: "from the form".to_string(),
        work: Some("note".to_string()),
        start: Some("2024/03/05".to_string()),
        end: Some("2024-04-01".to_string()),
    };
    let item = form.into_item_todo().expect("両方の日付が正しいので変換できるはず");
    assert_eq!(item.title, "from the form");
    assert_eq!(item.work, Some("note".to_string()));
    assert_eq!(item.start_date, Some(d(2024, 3, 5)));
    assert_eq!(item.end_date, Some(d(2024, 4, 1)));
    assert_eq!(item.id, 0);
    assert!(!item.done);

    let bad = FormTodo {
        title: "broken".to_string(),
        work: None,
        start: Some("2024-02-30".to_string()),
        end: None,
    };
    assert_eq!(bad.into_item_todo(), None);

    let open_ended = FormTodo {
        title: "no dates".to_string(),
        work: None,
        start: None,
        end: None,
    };
    let item = open_ended.into_item_todo().unwrap();
    assert_eq!(item.start_date, None);
    assert_eq!(item.end_date, None);
}

/// The settings: defaults, and the dirty flag that tracks what belongs in
/// the settings file.
#[test]
fn config_defaults_and_dirty_flag() {
    let mut conf = NekoTodoConfig::new();
    assert_eq!(conf.get_db_host(), "");
    assert_eq!(conf.get_db_user(), "");
    assert_eq!(conf.get_db_pass(), "");
    assert_eq!(conf.get_session_id(), None);
    assert!(conf.get_is_incomplete());
    assert_eq!(conf.get_item_sort_order(), ItemSortOrder::EndAsc);
    assert!(!conf.dirty);

    conf.set_is_incomplete(false);
    conf.set_item_sort_order(ItemSortOrder::UpdateDesc);
    assert!(!conf.dirty, "表示設定は設定ファイル行きではない");
    assert!(!conf.get_is_incomplete());
    assert_eq!(conf.get_item_sort_order(), ItemSortOrder::UpdateDesc);

    conf.set_db_host("db.example");
    assert!(conf.dirty, "接続情報の変更で汚れるはず");
    assert_eq!(conf.get_db_host(), "db.example");
    conf.dirty = false;
    conf.set_session_id(77);
    assert!(conf.dirty, "セッションの変更で汚れるはず");
    assert_eq!(conf.get_session_id(), Some(77));
}

/// A session nobody ever issued cannot list: the boundary is told the
/// session is unknown rather than shown an empty list.
#[test]
fn listing_with_unknown_session_is_refused() {
    let mut todo = Todo::new();
    todo.add_user("alice", "pw1").unwrap();
    let _sess = todo.login("alice", "pw1").unwrap();
    let fake = uuid::Uuid::now_v7().as_u128();
    assert_eq!(
        todo.get_todo_list(fake, true, ItemSortOrder::EndAsc).unwrap_err(),
        TodoError::NotFoundSession
    );
}

/// An expired session row counts as absent on every read, even before a
/// purge has removed it.
#[test]
fn expired_session_counts_as_absent() {
    let mut db = Database::new();
    db.add_user("sleeper", "hash").unwrap();
    // issued at the epoch: long expired by the real clock
    let sess = db.make_new_session_at("sleeper", 7, 0).unwrap();
    assert!(db.get_user_from_sess(sess).is_err(), "期限切れセッションで解決できてはいけない");
    assert!(
        db.get_todo_item(sess, d(2024, 1, 1), false, ItemSortOrder::EndAsc)
            .unwrap()
            .is_empty(),
        "期限切れセッションのリストは空のはず"
    );
    assert!(db.get_todo_item_with_id(1, sess).is_err());
    assert!(!db.is_session_valid(sess).unwrap(), "期限切れは無効のはず");

    let mut todo = neko_todo::todo::Todo { database: db };
    assert_eq!(
        todo.get_todo_list(sess, false, ItemSortOrder::EndAsc).unwrap_err(),
        TodoError::NotFoundSession
    );
    assert_eq!(todo.is_valid_session(sess).unwrap(), None);
}

/// The blank-note rule at its edges: empty, ASCII space and tab, and the
/// ideographic space all store as no note; a note with content survives.
#[test]
fn blank_work_normalization_edges() {
    let mut todo = Todo::new();
    todo.add_user("dave", "pw").unwrap();
    let sess = todo.login("dave", "pw").unwrap();
    let blanks = ["", " ", "\t", "　", " \t　"];
    for (k, w) in blanks.iter().enumerate() {
        let item = ItemTodo {
            id: 0,
            user_name: String::new(),
            title: format!("blank {}", k),
            work: Some(w.to_string()),
            update_date: None,
            start_date: None,
            end_date: None,
            done: false,
        };
        todo.add_todo(sess, &item).unwrap();
    }
    let item = ItemTodo {
        id: 0,
        user_name: String::new(),
        title: "kept".to_string(),
        work: Some(" x ".to_string()),
        update_date: None,
        start_date: None,
        end_date: None,
        done: false,
    };
    todo.add_todo(sess, &item).unwrap();

    let listed = todo.get_todo_list(sess, false, ItemSortOrder::EndAsc).unwrap();
    for it in &listed {
        if it.title == "kept" {
            assert_eq!(it.work, Some(" x ".to_string()));
        } else {
            assert_eq!(it.work, None, "空白だけのメモはNoneになるはず: {}", it.title);
        }
    }
}
