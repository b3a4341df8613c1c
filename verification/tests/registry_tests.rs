use gcp_twist_bridge::registry::{FileStore, LoadError, TwistIntegration, TwistOnConfigure};
use std::sync::{Arc, Mutex};

fn config(install_id: &str, url: &str) -> TwistOnConfigure {
    TwistOnConfigure {
        install_id: install_id.to_string(),
        post_data_url: url.to_string(),
        user_id: "7".to_string(),
        user_name: "Ada".to_string(),
    }
}

fn record(install_id: &str, url: &str) -> TwistIntegration {
    TwistIntegration { secret_id: install_id.to_string(), configuration: config(install_id, url) }
}

fn records(store: &FileStore) -> Vec<TwistIntegration> {
    (0..store.len()).map(|at| store.get(at).expect("within bounds").clone()).collect()
}

#[test]
fn new_store_is_empty() {
    let store = FileStore::new("db.json");
    assert_eq!(store.path(), "db.json");
    assert_eq!(store.len(), 0);
    assert!(store.get(0).is_none());
    assert_eq!(store.find_twist_thread("abc".to_string()), None);
    assert_eq!(store.save(), "[]");
}

#[test]
fn two_registrations_are_each_found() {
    let mut store = FileStore::new("db.json");
    store.register_twist_thread(config("a", "http://x/a"));
    store.register_twist_thread(config("b", "http://x/b"));
    assert_eq!(store.find_twist_thread("a".to_string()), Some(record("a", "http://x/a")));
    assert_eq!(store.find_twist_thread("b".to_string()), Some(record("b", "http://x/b")));
    assert_eq!(store.find_twist_thread("c".to_string()), None);
    assert_eq!(store.find_twist_thread("".to_string()), None);
    assert_eq!(store.len(), 2);
}

#[test]
fn find_does_not_change_the_store() {
    let mut store = FileStore::new("db.json");
    store.register_twist_thread(config("a", "http://x/a"));
    let before = store.save();
    store.find_twist_thread("a".to_string());
    store.find_twist_thread("b".to_string());
    assert_eq!(store.save(), before);
}

#[test]
fn register_then_unregister_then_find_is_nothing() {
    let mut store = FileStore::new("db.json");
    store.register_twist_thread(config("a", "http://x/a"));
    assert_eq!(store.unregister_twist_thread("a".to_string()), Some("[]".to_string()));
    assert_eq!(store.find_twist_thread("a".to_string()), None);
    assert_eq!(store.len(), 0);
}

#[test]
fn unregister_of_unknown_id_changes_nothing() {
    let mut store = FileStore::new("db.json");
    assert_eq!(store.unregister_twist_thread("a".to_string()), None);
    store.register_twist_thread(config("a", "http://x/a"));
    let before = records(&store);
    assert_eq!(store.unregister_twist_thread("b".to_string()), None);
    assert_eq!(records(&store), before);
}

#[test]
fn registering_an_id_twice_keeps_both_and_finds_the_first() {
    let mut store = FileStore::new("db.json");
    store.register_twist_thread(config("a", "http://x/first"));
    store.register_twist_thread(config("b", "http://x/b"));
    store.register_twist_thread(config("a", "http://x/second"));
    assert_eq!(store.len(), 3);
    assert_eq!(store.find_twist_thread("a".to_string()), Some(record("a", "http://x/first")));
    assert!(store.unregister_twist_thread("a".to_string()).is_some());
    assert_eq!(records(&store), vec![record("b", "http://x/b"), record("a", "http://x/second")]);
    assert_eq!(store.find_twist_thread("a".to_string()), Some(record("a", "http://x/second")));
}

#[test]
fn register_returns_the_text_of_the_whole_registry() {
    let mut store = FileStore::new("db.json");
    let first = store.register_twist_thread(config("abc", "http://x/y"));
    assert_eq!(
        first,
        r#"[{"secret_id":"abc","configuration":{"install_id":"abc","post_data_url":"http://x/y","user_id":"7","user_name":"Ada"}}]"#
    );
    let second = store.register_twist_thread(config("d", "u"));
    assert_eq!(
        second,
        r#"[{"secret_id":"abc","configuration":{"install_id":"abc","post_data_url":"http://x/y","user_id":"7","user_name":"Ada"}},{"secret_id":"d","configuration":{"install_id":"d","post_data_url":"u","user_id":"7","user_name":"Ada"}}]"#
    );
    assert_eq!(store.save(), second);
}

#[test]
fn save_writes_texts_as_json_strings() {
    let mut store = FileStore::new("db.json");
    store.register_twist_thread(TwistOnConfigure {
        install_id: "a\"b".to_string(),
        post_data_url: "back\\slash".to_string(),
        user_id: "line\nbreak".to_string(),
        user_name: "Zoë 🚀".to_string(),
    });
    assert_eq!(
        store.save(),
        "[{\"secret_id\":\"a\\\"b\",\"configuration\":{\"install_id\":\"a\\\"b\",\"post_data_url\":\"back\\\\slash\",\"user_id\":\"line\\nbreak\",\"user_name\":\"Zoë 🚀\"}}]"
    );
}

#[test]
fn snapshot_is_the_array_of_records() {
    let mut store = FileStore::new("db.json");
    store.register_twist_thread(config("abc", "http://x/y"));
    let snapshot = store.snapshot();
    let items = snapshot.as_array().expect("an array");
    assert_eq!(items.len(), 1);
    assert_eq!(items[0]["secret_id"], "abc");
    assert_eq!(items[0]["configuration"]["install_id"], "abc");
    assert_eq!(items[0]["configuration"]["post_data_url"], "http://x/y");
    assert_eq!(items[0]["configuration"]["user_id"], "7");
    assert_eq!(items[0]["configuration"]["user_name"], "Ada");
    let keys: Vec<&String> = items[0].as_object().expect("an object").keys().collect();
    assert_eq!(keys, ["secret_id", "configuration"]);
    let keys: Vec<&String> =
        items[0]["configuration"].as_object().expect("an object").keys().collect();
    assert_eq!(keys, ["install_id", "post_data_url", "user_id", "user_name"]);
}

#[test]
fn load_without_a_file_is_an_empty_registry() {
    let mut store = FileStore::new("db.json");
    store.register_twist_thread(config("a", "u"));
    assert_eq!(store.load(None), Ok(()));
    assert_eq!(store.len(), 0);
    assert_eq!(store.path(), "db.json");
}

#[test]
fn load_of_an_empty_array_is_an_empty_registry() {
    let mut store = FileStore::new("db.json");
    assert_eq!(store.load(Some("[]")), Ok(()));
    assert_eq!(store.len(), 0);
}

#[test]
fn load_takes_the_records_in_order() {
    let mut store = FileStore::new("db.json");
    let text = r#"[
        {"secret_id":"b","configuration":{"install_id":"b","post_data_url":"http://x/b","user_id":"7","user_name":"Ada"}},
        {"configuration":{"user_name":"Ada","user_id":"7","post_data_url":"http://x/a","install_id":"a","more":1},"secret_id":"a","note":null}
    ]"#;
    assert_eq!(store.load(Some(text)), Ok(()));
    assert_eq!(records(&store), vec![record("b", "http://x/b"), record("a", "http://x/a")]);
}

#[test]
fn load_keeps_a_secret_that_differs_from_the_install_id() {
    let mut store = FileStore::new("db.json");
    let text = r#"[{"secret_id":"s","configuration":{"install_id":"i","post_data_url":"u","user_id":"7","user_name":"Ada"}}]"#;
    assert_eq!(store.load(Some(text)), Ok(()));
    assert!(store.find_twist_thread("s".to_string()).is_some());
    assert_eq!(store.find_twist_thread("i".to_string()), None);
}

#[test]
fn load_of_text_that_is_not_json_fails() {
    let mut store = FileStore::new("db.json");
    store.register_twist_thread(config("a", "u"));
    assert_eq!(
        store.load(Some("[{]")),
        Err(LoadError::Syntax("key must be a string at line 1 column 3".to_string()))
    );
    assert_eq!(
        store.load(Some("")),
        Err(LoadError::Syntax("EOF while parsing a value at line 1 column 0".to_string()))
    );
    assert_eq!(records(&store), vec![record("a", "u")]);
}

#[test]
fn load_of_json_that_is_no_registry_fails() {
    let mut store = FileStore::new("db.json");
    store.register_twist_thread(config("a", "u"));
    for text in [
        "{}",
        "null",
        "\"[]\"",
        "[1]",
        "[null]",
        r#"[{"secret_id":"a"}]"#,
        r#"[{"secret_id":1,"configuration":{"install_id":"a","post_data_url":"u","user_id":"7","user_name":"Ada"}}]"#,
        r#"[{"secret_id":"a","configuration":{"install_id":"a","post_data_url":"u","user_id":"7"}}]"#,
        r#"[{"secret_id":"a","configuration":{"install_id":"a","post_data_url":"u","user_id":7,"user_name":"Ada"}}]"#,
        r#"[{"secret_id":"a","configuration":["a","u","7","Ada"]}]"#,
    ] {
        assert_eq!(store.load(Some(text)), Err(LoadError::Shape));
        assert_eq!(records(&store), vec![record("a", "u")]);
    }
}

#[test]
fn restore_takes_a_parsed_document() {
    let mut store = FileStore::new("db.json");
    let good: serde_json::Value = serde_json::from_str(
        r#"[{"secret_id":"a","configuration":{"install_id":"a","post_data_url":"u","user_id":"7","user_name":"Ada"}}]"#,
    )
    .expect("the test's own JSON");
    assert_eq!(store.restore(&good), Ok(()));
    assert_eq!(records(&store), vec![record("a", "u")]);
    let bad: serde_json::Value = serde_json::from_str("{}").expect("the test's own JSON");
    assert_eq!(store.restore(&bad), Err(LoadError::Shape));
    assert_eq!(records(&store), vec![record("a", "u")]);
}

#[test]
fn saved_registry_loads_back_the_same() {
    let mut store = FileStore::new("db.json");
    store.register_twist_thread(config("b", "http://x/b"));
    store.register_twist_thread(config("a", "http://x/a"));
    store.register_twist_thread(TwistOnConfigure {
        install_id: "quote\" back\\ tab\t".to_string(),
        post_data_url: "".to_string(),
        user_id: "\u{0}\u{1f}".to_string(),
        user_name: "Zoë 🚀".to_string(),
    });
    store.register_twist_thread(config("b", "http://x/b2"));
    let text = store.save();
    let mut again = FileStore::new("other.json");
    assert_eq!(again.load(Some(&text)), Ok(()));
    assert_eq!(records(&again), records(&store));
    assert_eq!(again.save(), text);
}

#[test]
fn snapshot_restores_the_same() {
    let mut store = FileStore::new("db.json");
    store.register_twist_thread(config("b", "http://x/b"));
    store.register_twist_thread(config("a", "http://x/a"));
    let mut again = FileStore::new("db.json");
    assert_eq!(again.restore(&store.snapshot()), Ok(()));
    assert_eq!(records(&again), records(&store));
}

#[test]
fn registrations_from_many_tasks_are_all_kept() {
    let store = Arc::new(Mutex::new(FileStore::new("db.json")));
    let file = Arc::new(Mutex::new(String::new()));
    let tasks: Vec<(Arc<Mutex<FileStore>>, Arc<Mutex<String>>)> =
        (0..8).map(|_| (Arc::clone(&store), Arc::clone(&file))).collect();
    for turn in 0..25 {
        for step in 0..8 {
            let task = (step * 5 + turn) % 8;
            let (store, file) = &tasks[task];
            let id = format!("{}-{}", task, turn);
            let mut store = store.lock().expect("the lock");
            let text = store.register_twist_thread(config(&id, "http://x/y"));
            *file.lock().expect("the lock") = text;
        }
    }
    let store = store.lock().expect("the lock");
    assert_eq!(store.len(), 200);
    for task in 0..8 {
        for turn in 0..25 {
            let id = format!("{}-{}", task, turn);
            assert_eq!(store.find_twist_thread(id.clone()), Some(record(&id, "http://x/y")));
        }
    }
    let file = file.lock().expect("the lock");
    assert_eq!(*file, store.save());
    let mut again = FileStore::new("db.json");
    assert_eq!(again.load(Some(file.as_str())), Ok(()));
    assert_eq!(records(&again), records(&store));
}

#[test]
fn registrations_in_any_order_are_all_found() {
    let ids = ["a", "b", "c", "d"];
    for start in 0..ids.len() {
        let mut store = FileStore::new("db.json");
        for step in 0..ids.len() {
            let id = ids[(start + step * 3) % ids.len()];
            store.register_twist_thread(config(id, id));
        }
        assert_eq!(store.len(), 4);
        for id in ids {
            assert_eq!(store.find_twist_thread(id.to_string()), Some(record(id, id)));
        }
    }
}

#[test]
fn clone_copies_every_field() {
    let original = record("a", "http://x/a");
    assert_eq!(original.clone(), original);
    assert_eq!(original.configuration.clone(), config("a", "http://x/a"));
}
