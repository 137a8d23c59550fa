//! Tests of the storage gateway: users, sessions, todo rows.

use chrono::Datelike;
use neko_todo::config::ItemSortOrder;
use neko_todo::database::{Database, DbError, ItemTodo};
use neko_todo::dates::Date;

/// Today's local date shifted by `offset` days, as a store date.
fn date_on(offset: i64) -> Date {
    let t = chrono::Local::now().date_naive();
    let d = if offset >= 0 {
        t + chrono::Days::new(offset as u64)
    } else {
        t - chrono::Days::new((-offset) as u64)
    };
    Date { year: d.year(), month: d.month() as u8, day: d.day() as u8 }
}

fn fresh_fake_session() -> u128 {
    uuid::Uuid::now_v7().as_u128()
}

fn login_for_test(db: &mut Database) -> u128 {
    println!("テスト用ユーザー及びセッションの生成");
    let name = "test";
    let pass = "test";
    db.add_user(name, pass).unwrap();
    db.make_new_session(name).unwrap()
}

fn create_todo_for_test(db: &mut Database, sess: u128) {
    let name = db.get_user_from_sess(sess).unwrap().name;

    println!("テストデータをインサート");
    let item = ItemTodo {
        id: 0,
        user_name: name.to_string(),
        title: "一件目(work有り)".to_string(),
        work: Some("働いてます。".to_string()),
        update_date: None,
        start_date: Some(date_on(-4)),
        end_date: Some(date_on(2)),
        done: false,
    };
    db.add_todo_item(&item).unwrap();

    let item = ItemTodo {
        id: 0,
        user_name: name.to_string(),
        title: "二件目(work無し)".to_string(),
        work: None,
        update_date: None,
        start_date: Some(date_on(-5)),
        end_date: Some(date_on(1)),
        done: false,
    };
    db.add_todo_item(&item).unwrap();

    let item = ItemTodo {
        id: 0,
        user_name: name.to_string(),
        title: "三件目(work無し)".to_string(),
        work: None,
        update_date: None,
        start_date: Some(date_on(0)),
        end_date: Some(date_on(3)),
        done: false,
    };
    db.add_todo_item(&item).unwrap();
}

/// ユーザー生成のテスト
#[test]
fn test_add_user_and_get_user() {
    let mut db = Database::new();
    db.add_user("hyara", "password").unwrap();
    let user = db.get_user("hyara").unwrap();
    assert_eq!(user.name, "hyara");
    assert_eq!(user.password, "password");
    let error_user = db.get_user("naiyo");
    match error_user {
        Ok(_) => unreachable!("結果が帰ってくるはずがない。"),
        Err(DbError::NotFoundUser) => { /* 正常 */ }
        Err(e) => unreachable!("このエラーはおかしい。{e:?}"),
    }
}

/// セッション生成関係の一連のテスト。
#[test]
fn test_make_new_session() {
    println!("まずはテスト用のユーザーの生成");
    let mut db = Database::new();
    let user_name = "nekodayo";
    let password = "password";
    db.add_user(user_name, password).unwrap();

    println!("次に、普通にセッションを作ってみる。");
    let sess1 = db.make_new_session(user_name).unwrap();
    println!("セッション生成成功 id=[{}]", sess1);

    println!("次は、存在しないユーザーに対してセッションを生成してみる。");
    let sess2 = db.make_new_session("detarame");
    match sess2 {
        Ok(_) => unreachable!("このユーザーは存在しなかったはず。"),
        Err(DbError::NotFoundUser) => { /* 正常 */ }
        Err(e) => unreachable!("このエラーもおかしい。[{e:?}]"),
    }

    println!("普通に、セッションを更新してみる。");
    let sess3 = db.update_session(sess1).unwrap();
    assert_ne!(sess1, sess3);

    println!("ないはずのセッションを更新しようとしてみる。");
    let sess4 = fresh_fake_session();
    let sess5 = db.update_session(sess4);
    match sess5 {
        Ok(_) => unreachable!("このセッションはないはずなのに。"),
        Err(DbError::NotFoundSession) => { /* 正常 */ }
        Err(e) => unreachable!("セッション更新2回め。失敗するにしてもこれはない{e:?}"),
    }
}

/// セッションが有効かどうかを確認するテスト
#[test]
fn test_is_session_valid() {
    let mut db = Database::new();

    println!("テスト用ユーザーの作成");
    let name = "nekodayo";
    let pass = "nekodamon";
    db.add_user(name, pass).unwrap();

    println!("新規セッションを生成する。");
    let sess = db.make_new_session(name).unwrap();
    println!("生成したセッションIDは、[{}]です。", &sess);

    println!("今作ったセッションIDの妥当性を問い合わせてみる。");
    assert!(db.is_session_valid(sess).unwrap());

    println!("偽セッションIDをいれて、問い合わせてみる。");
    assert!(!db.is_session_valid(fresh_fake_session()).unwrap());
}

/// todoの書き込みと、単純な読み出しのテスト
#[test]
fn test_add_todo() {
    let mut db = Database::new();
    let sess = login_for_test(&mut db);
    let name = db.get_user_from_sess(sess).unwrap().name;

    println!("テストデータをインサート");
    let item = ItemTodo {
        id: 0,
        user_name: name.to_string(),
        title: "インサートできるかな?".to_string(),
        work: Some("中身入り".to_string()),
        update_date: None,
        start_date: Some(date_on(0)),
        end_date: Some(date_on(3)),
        done: true,
    };
    db.add_todo_item(&item).unwrap();

    println!("テストデータを読み出す。一件しかないはず");
    let last_day = date_on(1);
    let res = db
        .get_todo_item(sess, last_day, true, ItemSortOrder::EndAsc)
        .unwrap();
    assert_eq!(res.len(), 1, "あれ?一件のはずだよ");
}

/// todoの書き込みと読み出し。
/// workが未入力の場合。
#[test]
fn test_add_todo_without_work() {
    let mut db = Database::new();
    let sess = login_for_test(&mut db);
    let name = db.get_user_from_sess(sess).unwrap().name;

    println!("テストデータをインサート");
    let item = ItemTodo {
        id: 0,
        user_name: name.to_string(),
        title: "インサートできるかな?".to_string(),
        work: None,
        update_date: None,
        start_date: Some(date_on(0)),
        end_date: Some(date_on(3)),
        done: true,
    };
    db.add_todo_item(&item).unwrap();

    println!("テストデータを読み出す。一件しかないはず");
    let last_day = date_on(1);
    let res = db
        .get_todo_item(sess, last_day, true, ItemSortOrder::EndAsc)
        .unwrap();
    assert_eq!(res.len(), 1, "あれ?一件のはずだよ");
}

/// todoの書き込みと読み出し
/// done=trueとfalseの挙動テスト
#[test]
fn test_get_todo_done_param() {
    let mut db = Database::new();
    let sess = login_for_test(&mut db);
    let name = db.get_user_from_sess(sess).unwrap().name;

    println!("テストデータをインサート");
    let item = ItemTodo {
        id: 0,
        user_name: name.to_string(),
        title: "インサートできるかな?".to_string(),
        work: None,
        update_date: None,
        start_date: Some(date_on(0)),
        end_date: Some(date_on(3)),
        done: true,
    };
    db.add_todo_item(&item).unwrap();

    println!("テストデータを読み出す。一件しかないはず");
    let last_day = date_on(1);
    let res = db
        .get_todo_item(sess, last_day, false, ItemSortOrder::EndAsc)
        .unwrap();
    assert_eq!(res.len(), 1, "全部読み出しだけど一件あるはず。");
    let res = db
        .get_todo_item(sess, last_day, true, ItemSortOrder::EndAsc)
        .unwrap();
    assert_eq!(res.len(), 1, "未完了だけだけど、一件あるはず。");

    println!("今作ったjobを完了済みにする。");
    db.change_done(res[0].id, true).unwrap();
    let res = db
        .get_todo_item(sess, last_day, false, ItemSortOrder::EndAsc)
        .unwrap();
    assert_eq!(res.len(), 1, "全部読み出しだけど一件あるはず。");
    let res = db
        .get_todo_item(sess, last_day, true, ItemSortOrder::EndAsc)
        .unwrap();
    assert_eq!(res.len(), 0, "未完了だけだけだから、なにもないはず。");
}

/// todoの書き込みと読み出し
/// 基準日の挙動テスト
#[test]
fn test_get_todo_ref_date() {
    let mut db = Database::new();
    let sess = login_for_test(&mut db);
    let name = db.get_user_from_sess(sess).unwrap().name;

    println!("テストデータをインサート");
    let item = ItemTodo {
        id: 0,
        user_name: name.to_string(),
        title: "インサートできるかな?".to_string(),
        work: None,
        update_date: None,
        start_date: Some(date_on(0)),
        end_date: Some(date_on(3)),
        done: false,
    };
    db.add_todo_item(&item).unwrap();

    let res = db
        .get_todo_item(sess, date_on(0), true, ItemSortOrder::EndAsc)
        .unwrap();
    assert_eq!(res.len(), 1, "基準日と開始日が同じだからみつかる。");
    let res = db
        .get_todo_item(sess, date_on(1), true, ItemSortOrder::EndAsc)
        .unwrap();
    assert_eq!(res.len(), 1, "開始日の翌日が基準日だからみつかる。");
    let res = db
        .get_todo_item(sess, date_on(-1), true, ItemSortOrder::EndAsc)
        .unwrap();
    assert_eq!(res.len(), 0, "基準日が開始日の前日だからみつからない。");
    let res = db
        .get_todo_item(sess, date_on(4), true, ItemSortOrder::EndAsc)
        .unwrap();
    assert_eq!(res.len(), 1, "基準日が期限を過ぎているけどみつかるの。");
}

#[test]
fn test_get_user_from_sess() {
    let mut db = Database::new();

    let sess = login_for_test(&mut db);
    let name = db.get_user_from_sess(sess).unwrap().name;

    let user = db.get_user_from_sess(sess).unwrap();
    assert_eq!(user.name, name, "これはみつかるはず");
    let dummy_sess = fresh_fake_session();
    let user = db.get_user_from_sess(dummy_sess);
    match user {
        Ok(_) => unreachable!("見つかるわけないでしょう。"),
        Err(DbError::NotFoundSession) => { /* 正常 */ }
        Err(e) => unreachable!("トラブルです。{e:?}"),
    };
}

#[test]
fn test_change_done() {
    let mut db = Database::new();
    let sess = login_for_test(&mut db);
    let ref_date = date_on(0);
    create_todo_for_test(&mut db, sess);

    let items = db
        .get_todo_item(sess, ref_date, true, ItemSortOrder::EndAsc)
        .unwrap();
    let item = items.iter().find(|&i| i.title.contains("二件目")).unwrap();
    db.change_done(item.id, true).unwrap();

    let items = db
        .get_todo_item(sess, ref_date, true, ItemSortOrder::EndAsc)
        .unwrap();
    let item = items.iter().find(|&i| i.title.contains("二件目"));
    assert!(item.is_none(), "状態を完了にしたので見つからないはず。");

    let items = db
        .get_todo_item(sess, ref_date, false, ItemSortOrder::EndAsc)
        .unwrap();
    let item = items.iter().find(|&i| i.title.contains("二件目"));
    match item {
        Some(i) => assert!(i.done, "完了済みになっているはずですね?"),
        None => unreachable!("状態を変えたら、レコードなくなった???"),
    }
    assert_eq!(
        items.len(),
        3,
        "全件見ているのでレコードは3件あるはずですが?"
    );
}

#[test]
fn test_get_todo_with_id() {
    let mut db = Database::new();
    let sess = login_for_test(&mut db);
    create_todo_for_test(&mut db, sess);

    let items = db
        .get_todo_item(sess, date_on(0), false, ItemSortOrder::EndAsc)
        .unwrap();
    let id = items
        .iter()
        .find(|&i| i.title.contains("一件目"))
        .expect("これはあるはず")
        .id;
    let non_exist_id = items.iter().max_by_key(|&i| i.id).unwrap().id + 1;

    // 正常な読み出し
    let res = db
        .get_todo_item_with_id(id, sess)
        .expect("これは正常に読み出せるはず。エラーはだめ");
    res.work
        .expect("このレーコードはworkを持つはずです。")
        .find("働いてます。")
        .expect("workの内容がおかしい。");

    // 間違ったid
    let res = db.get_todo_item_with_id(non_exist_id, sess);
    match res {
        Ok(_) => unreachable!("そんなIDは存在しなかったはずなのに。"),
        Err(DbError::NotFoundTodo) => { /* 正常 */ }
        Err(e) => unreachable!("データベースエラーだよ。({e:?})"),
    }

    // 間違ったセッション
    let res = db.get_todo_item_with_id(id, fresh_fake_session());
    match res {
        Ok(_) => unreachable!("そんなセッションはないはず。"),
        Err(DbError::NotFoundTodo) => { /* 正常 */ }
        Err(e) => unreachable!("データベースエラー発生。({e:?})"),
    }
}

#[test]
fn test_edit() {
    let mut db = Database::new();
    let sess = login_for_test(&mut db);
    create_todo_for_test(&mut db, sess);

    // 書き込みテスト用レコードの取得
    let today = date_on(0);
    let items = db
        .get_todo_item(sess, today, false, ItemSortOrder::EndAsc)
        .unwrap();
    let mut item = items
        .iter()
        .find(|&i| i.title.contains("一件目"))
        .expect("ないはずがない。")
        .clone();
    item.title = "更新しました。".to_string();
    item.work = Some("書き換え後".to_string());
    item.start_date = Some(date_on(-5));
    item.end_date = Some(date_on(10));
    db.edit_todo(&item).expect("更新がエラーを起こした。");
    // 書き込み後の照合
    let items_new = db
        .get_todo_item(sess, today, false, ItemSortOrder::EndAsc)
        .unwrap();
    let item_new = items_new
        .iter()
        .find(|&i| i.title.contains("更新しました。"))
        .expect("更新されたレコードが存在しない。");
    assert_eq!(
        item_new.work,
        Some("書き換え後".to_string()),
        "更新後のworkがおかしい"
    );
    assert_eq!(
        item_new.start_date,
        Some(date_on(-5)),
        "更新後のstart_dateがおかしい"
    );
    assert_eq!(
        item_new.end_date,
        Some(date_on(10)),
        "更新後のend_dateがおかしい"
    );

    // 存在しないレコードの更新
    let id_max_plus_one = items.iter().max_by_key(|&i| i.id).unwrap().id + 1;
    item.id = id_max_plus_one;
    let res = db.edit_todo(&item);
    match res {
        Ok(_) => unreachable!("更新できちゃだめっ"),
        Err(DbError::NotFoundTodo) => {}
        Err(e) => unreachable!("db_err: {e:?}"),
    }
}

#[test]
fn test_sort_end_date() {
    let mut db = Database::new();
    let sess = login_for_test(&mut db);
    create_todo_for_test(&mut db, sess);

    let today = date_on(0);
    let recs = db
        .get_todo_item(sess, today, false, ItemSortOrder::EndAsc)
        .expect("取得時にエラーを起こした。");
    println!("取得データ(昇順)");
    println!("0 => {:?}", recs[0]);
    println!("1 => {:?}", recs[1]);
    println!("2 => {:?}", recs[2]);
    assert!(
        end_key(&recs[0]) <= end_key(&recs[1]),
        "終了日が昇順になってない。"
    );
    assert!(
        end_key(&recs[1]) <= end_key(&recs[2]),
        "終了日が昇順になってない(2)。"
    );

    let recs = db
        .get_todo_item(sess, today, false, ItemSortOrder::EndDesc)
        .expect("取得時にエラーを起こした(2)");
    println!("取得データ(降順)");
    println!("0 => {:?}", recs[0]);
    println!("1 => {:?}", recs[1]);
    println!("2 => {:?}", recs[2]);
    assert!(
        end_key(&recs[0]) >= end_key(&recs[1]),
        "終了日が降順になってない(1)"
    );
    assert!(
        end_key(&recs[1]) >= end_key(&recs[2]),
        "終了日が降順になってない(2)"
    );
}

#[test]
fn test_sort_start_date() {
    let mut db = Database::new();
    let sess = login_for_test(&mut db);
    create_todo_for_test(&mut db, sess);

    let today = date_on(0);
    let recs = db
        .get_todo_item(sess, today, false, ItemSortOrder::StartAsc)
        .expect("取得時にエラーを起こした。");
    assert!(
        start_key(&recs[0]) <= start_key(&recs[1]),
        "開始日が昇順になってない。"
    );
    assert!(
        start_key(&recs[1]) <= start_key(&recs[2]),
        "開始日が昇順になってない(2)。"
    );

    let recs = db
        .get_todo_item(sess, today, false, ItemSortOrder::StartDesc)
        .expect("取得時にエラーを起こした(2)");
    assert!(
        start_key(&recs[0]) >= start_key(&recs[1]),
        "開始日が降順になってない(1)"
    );
    assert!(
        start_key(&recs[1]) >= start_key(&recs[2]),
        "開始日が降順になってない(2)"
    );
}

#[test]
fn test_sort_update_date() {
    let mut db = Database::new();
    let sess = login_for_test(&mut db);
    create_todo_for_test(&mut db, sess);
    let today = date_on(0);

    // update_dateはストアが毎回今日で刻印するので、日付を指定できる
    // 編集操作で一件ずつ書き換える
    let keys: Vec<u32> = db
        .get_todo_item(sess, today, false, ItemSortOrder::EndAsc)
        .unwrap()
        .iter()
        .map(|r| r.id)
        .collect();
    let days = [date_on(2), date_on(1), date_on(3)];
    for i in 0..3 {
        let row = db.get_todo_item_with_id(keys[i], sess).unwrap();
        db.edit_todo_on(&row, days[i]).unwrap();
    }

    let recs = db
        .get_todo_item(sess, today, false, ItemSortOrder::UpdateAsc)
        .expect("取得時にエラーを起こした。");
    assert!(
        update_key(&recs[0]) <= update_key(&recs[1]),
        "更新日が昇順になってない。"
    );
    assert!(
        update_key(&recs[1]) <= update_key(&recs[2]),
        "更新日が昇順になってない(2)。"
    );

    let recs = db
        .get_todo_item(sess, today, false, ItemSortOrder::UpdateDesc)
        .expect("取得時にエラーを起こした(2)");
    assert!(
        update_key(&recs[0]) >= update_key(&recs[1]),
        "更新日が降順になってない(1)"
    );
    assert!(
        update_key(&recs[1]) >= update_key(&recs[2]),
        "更新日が降順になってない(2)"
    );
}

fn key_of(d: Option<Date>) -> (i64, u8, u8) {
    match d {
        Some(d) => (d.year as i64, d.month, d.day),
        None => (i64::MIN, 0, 0),
    }
}

fn end_key(i: &ItemTodo) -> (i64, u8, u8) {
    key_of(i.end_date)
}

fn start_key(i: &ItemTodo) -> (i64, u8, u8) {
    key_of(i.start_date)
}

fn update_key(i: &ItemTodo) -> (i64, u8, u8) {
    key_of(i.update_date)
}
