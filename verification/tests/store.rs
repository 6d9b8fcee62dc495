use flagpole::api::{delete_flag, get_flags, head_flags, put_flag, store_result, ApiError};
use flagpole::auth::ApiKey;
use flagpole::db::mem::InMemoryDb;
use flagpole::db::redis::{classify, Command, Failure, RedisDb, Verb};
use flagpole::db::{Database, StoreError};
use flagpole::etag::{etag_for, now_millis};
use flagpole::flag::{FlagError, FlagField};
use flagpole::flagset::{same_text, FlagSet};

fn sorted(set: &FlagSet) -> Vec<String> {
    let mut list = set.to_vec();
    list.sort();
    list
}

#[test]
fn flag_set_counts_each_member_once() {
    let mut set = FlagSet::new();
    assert!(set.is_empty());
    assert!(set.insert(String::from("a")));
    assert!(set.insert(String::from("b")));
    assert!(!set.insert(String::from("a")));
    assert_eq!(set.len(), 2);
    assert!(set.contains("a"));
    assert!(set.contains("b"));
    assert!(!set.contains("c"));
    assert_eq!(sorted(&set), vec![String::from("a"), String::from("b")]);
}

#[test]
fn flag_set_removes_only_members() {
    let mut set = FlagSet::from_vec(vec![String::from("a"), String::from("b"), String::from("c")]);
    assert!(set.remove("b"));
    assert!(!set.remove("b"));
    assert!(!set.remove("z"));
    assert_eq!(sorted(&set), vec![String::from("a"), String::from("c")]);
    assert!(set.remove("a"));
    assert!(set.remove("c"));
    assert!(set.is_empty());
    assert_eq!(set.len(), 0);
}

#[test]
fn flag_set_from_a_list_drops_repeats() {
    let set = FlagSet::from_vec(vec![
        String::from("x"),
        String::from("y"),
        String::from("x"),
        String::from("x"),
    ]);
    assert_eq!(set.len(), 2);
    assert_eq!(sorted(&set), vec![String::from("x"), String::from("y")]);
}

#[test]
fn flag_set_snapshot_is_cut_off_from_its_source() {
    let mut set = FlagSet::new();
    set.insert(String::from("a"));
    let copy = set.snapshot();
    set.insert(String::from("b"));
    set.remove("a");
    assert_eq!(sorted(&copy), vec![String::from("a")]);
    assert_eq!(sorted(&set), vec![String::from("b")]);
}

#[test]
fn same_text_compares_whole_texts() {
    assert!(same_text("", ""));
    assert!(same_text("dark-mode", "dark-mode"));
    assert!(!same_text("dark-mode", "dark-mod"));
    assert!(!same_text("dark-mode", "dark-mods"));
    assert!(!same_text("a", "A"));
}

#[test]
fn etag_is_the_time_in_radix_sixteen() {
    assert_eq!(etag_for(0), "0");
    assert_eq!(etag_for(255), "ff");
    assert_eq!(etag_for(1_700_000_000_000), "18bcfe56800");
}

#[test]
fn clock_gives_a_time_after_the_year_two_thousand() {
    assert!(now_millis() > 946_684_800_000);
}

#[test]
fn new_store_has_nothing() {
    let db = InMemoryDb::new();
    assert!(db.get_values("team-a").unwrap().is_empty());
    assert_eq!(db.etag("team-a").unwrap(), "");
    let by_default = InMemoryDb::default();
    assert!(by_default.get_values("team-a").unwrap().is_empty());
    assert_eq!(by_default.etag("team-a").unwrap(), "");
}

#[test]
fn health_check_in_memory_passes() {
    let db = InMemoryDb::new();
    assert_eq!(db.health_check(), Ok(()));
}

#[test]
fn set_then_values_holds_the_flag() {
    let mut db = InMemoryDb::new();
    assert_eq!(db.set_value("team-a", String::from("dark-mode")), Ok(true));
    assert!(db.get_values("team-a").unwrap().contains("dark-mode"));
}

#[test]
fn set_twice_changes_nothing_the_second_time() {
    let mut db = InMemoryDb::new();
    assert!(db.set_value_at("team-a", String::from("dark-mode"), 1000));
    let after_first = db.etag("team-a").unwrap();
    assert_eq!(after_first, "3e8");
    assert!(!db.set_value_at("team-a", String::from("dark-mode"), 2000));
    assert_eq!(db.etag("team-a").unwrap(), after_first);
    assert_eq!(db.get_values("team-a").unwrap().len(), 1);
}

#[test]
fn set_twice_by_the_clock_keeps_the_token() {
    let mut db = InMemoryDb::new();
    assert_eq!(db.set_value("team-a", String::from("dark-mode")), Ok(true));
    let after_first = db.etag("team-a").unwrap();
    assert_ne!(after_first, "");
    assert_eq!(db.set_value("team-a", String::from("dark-mode")), Ok(false));
    assert_eq!(db.etag("team-a").unwrap(), after_first);
}

#[test]
fn delete_of_an_absent_flag_changes_nothing() {
    let mut db = InMemoryDb::new();
    assert!(!db.delete_flag_at("team-a", String::from("dark-mode"), 1000));
    assert_eq!(db.etag("team-a").unwrap(), "");
    assert!(db.set_value_at("team-a", String::from("beta"), 2000));
    assert!(!db.delete_flag_at("team-a", String::from("dark-mode"), 3000));
    assert_eq!(db.etag("team-a").unwrap(), "7d0");
    assert_eq!(db.delete_flag("team-a", String::from("dark-mode")), Ok(false));
    assert_eq!(db.etag("team-a").unwrap(), "7d0");
    assert_eq!(sorted(&db.get_values("team-a").unwrap()), vec![String::from("beta")]);
}

#[test]
fn set_then_delete_removes_the_flag_and_renews_the_token() {
    let mut db = InMemoryDb::new();
    assert!(db.set_value_at("team-a", String::from("dark-mode"), 1000));
    let after_set = db.etag("team-a").unwrap();
    assert!(db.delete_flag_at("team-a", String::from("dark-mode"), 1001));
    let after_delete = db.etag("team-a").unwrap();
    assert!(!db.get_values("team-a").unwrap().contains("dark-mode"));
    assert_ne!(after_delete, after_set);
    assert_eq!(after_delete, "3e9");
}

#[test]
fn changes_within_one_millisecond_share_a_token() {
    let mut db = InMemoryDb::new();
    assert!(db.set_value_at("team-a", String::from("dark-mode"), 5));
    assert!(db.delete_flag_at("team-a", String::from("dark-mode"), 5));
    assert_eq!(db.etag("team-a").unwrap(), "5");
}

#[test]
fn end_to_end_scenario() {
    let mut db = InMemoryDb::new();
    assert!(db.get_values("team-a").unwrap().is_empty());
    assert!(db.set_value_at("team-a", String::from("dark-mode"), 1_700_000_000_000));
    let e1 = db.etag("team-a").unwrap();
    assert_eq!(sorted(&db.get_values("team-a").unwrap()), vec![String::from("dark-mode")]);
    assert!(!db.set_value_at("team-a", String::from("dark-mode"), 1_700_000_000_001));
    assert_eq!(db.etag("team-a").unwrap(), e1);
    assert!(db.delete_flag_at("team-a", String::from("dark-mode"), 1_700_000_000_002));
    let e2 = db.etag("team-a").unwrap();
    assert_ne!(e2, e1);
    assert!(db.get_values("team-a").unwrap().is_empty());
}

#[test]
fn namespaces_do_not_touch_each_other() {
    let mut db = InMemoryDb::new();
    assert!(db.set_value_at("team-a", String::from("dark-mode"), 10));
    assert!(db.set_value_at("team-b", String::from("dark-mode"), 20));
    assert!(db.delete_flag_at("team-a", String::from("dark-mode"), 30));
    assert!(db.get_values("team-a").unwrap().is_empty());
    assert!(db.get_values("team-b").unwrap().contains("dark-mode"));
    assert_eq!(db.etag("team-a").unwrap(), "1e");
    assert_eq!(db.etag("team-b").unwrap(), "14");
}

#[test]
fn values_are_a_copy() {
    let mut db = InMemoryDb::new();
    db.set_value_at("team-a", String::from("one"), 1);
    let mut values = db.get_values("team-a").unwrap();
    values.insert(String::from("two"));
    assert_eq!(db.get_values("team-a").unwrap().len(), 1);
}

#[test]
fn update_etag_returns_the_time_it_recorded() {
    let mut db = InMemoryDb::new();
    let millis = db.update_etag("team-a");
    assert_eq!(db.etag("team-a").unwrap(), etag_for(millis));
    db.record_etag("team-a", 4096);
    assert_eq!(db.etag("team-a").unwrap(), "1000");
}

#[test]
fn remote_failures_are_classified() {
    assert_eq!(classify(Failure::Connection), StoreError::Unavailable);
    assert_eq!(classify(Failure::Timeout), StoreError::Unavailable);
    assert_eq!(classify(Failure::Other), StoreError::Internal);
}

#[test]
fn remote_commands_name_the_verb_and_the_arguments() {
    let add = Command::add("team-a", "dark-mode");
    assert_eq!(add.verb, Verb::Add);
    assert_eq!(add.verb.name(), "SADD");
    assert_eq!(add.args, vec![String::from("team-a"), String::from("dark-mode")]);
    let remove = Command::remove("team-a", "dark-mode");
    assert_eq!(remove.verb.name(), "SREM");
    assert_eq!(remove.args, vec![String::from("team-a"), String::from("dark-mode")]);
    let members = Command::members("team-a");
    assert_eq!(members.verb.name(), "SMEMBERS");
    assert_eq!(members.args, vec![String::from("team-a")]);
    let ping = Command::ping();
    assert_eq!(ping.verb.name(), "PING");
    assert!(ping.args.is_empty());
}

#[test]
fn remote_store_renews_the_token_only_on_a_change() {
    let mut db = RedisDb::new(String::from("redis://127.0.0.1:6379"));
    assert_eq!(db.uri(), "redis://127.0.0.1:6379");
    assert_eq!(db.etag("team-a"), "");
    assert_eq!(db.changed_at("team-a", Ok(0), 100), Ok(false));
    assert_eq!(db.etag("team-a"), "");
    assert_eq!(db.changed_at("team-a", Ok(1), 200), Ok(true));
    assert_eq!(db.etag("team-a"), "c8");
    assert_eq!(db.changed_at("team-a", Ok(0), 300), Ok(false));
    assert_eq!(db.etag("team-a"), "c8");
    assert_eq!(db.changed_at("team-a", Ok(3), 400), Ok(true));
    assert_eq!(db.etag("team-a"), "190");
    assert_eq!(db.etag("team-b"), "");
}

#[test]
fn remote_store_hands_failures_on() {
    let mut db = RedisDb::new(String::from("redis://invalid-host:6379"));
    assert_eq!(db.changed_at("team-a", Err(Failure::Timeout), 1), Err(StoreError::Unavailable));
    assert_eq!(db.set_value("team-a", Err(Failure::Connection)), Err(StoreError::Unavailable));
    assert_eq!(db.delete_flag("team-a", Err(Failure::Other)), Err(StoreError::Internal));
    assert_eq!(db.etag("team-a"), "");
    assert_eq!(RedisDb::health_check(Err(Failure::Connection)), Err(StoreError::Unavailable));
    assert_eq!(RedisDb::health_check(Err(Failure::Other)), Err(StoreError::Internal));
    assert_eq!(RedisDb::health_check(Ok(())), Ok(()));
    assert_eq!(RedisDb::get_values(Err(Failure::Timeout)).err(), Some(StoreError::Unavailable));
}

#[test]
fn remote_store_by_the_clock() {
    let mut db = RedisDb::new(String::from("redis://127.0.0.1:6379"));
    assert_eq!(db.set_value("team-a", Ok(0)), Ok(false));
    assert_eq!(db.etag("team-a"), "");
    assert_eq!(db.set_value("team-a", Ok(1)), Ok(true));
    let token = db.etag("team-a");
    assert_ne!(token, "");
    assert_eq!(db.delete_flag("team-a", Ok(0)), Ok(false));
    assert_eq!(db.etag("team-a"), token);
    assert_eq!(db.delete_flag("team-b", Ok(1)), Ok(true));
    assert_ne!(db.etag("team-b"), "");
    let millis = db.update_etag("team-c");
    assert_eq!(db.etag("team-c"), etag_for(millis));
}

#[test]
fn remote_members_become_a_set() {
    let set = RedisDb::get_values(Ok(vec![String::from("b"), String::from("a")])).unwrap();
    assert_eq!(sorted(&set), vec![String::from("a"), String::from("b")]);
}

#[test]
fn store_result_keeps_values_and_wraps_errors() {
    assert_eq!(store_result(Ok::<u8, StoreError>(3)), Ok(3));
    assert_eq!(
        store_result(Err::<u8, StoreError>(StoreError::Unavailable)),
        Err(ApiError::Store(StoreError::Unavailable))
    );
}

#[test]
fn put_flag_validates_before_anything_else() {
    let mut db = InMemoryDb::new();
    let secret = Some(String::from("secret"));
    assert_eq!(
        put_flag("team a", "dark-mode", &secret, None, &mut db),
        Err(ApiError::Validation(FlagError::InvalidByte(FlagField::Namespace, b' ')))
    );
    assert_eq!(
        put_flag("team-a", "", &secret, None, &mut db),
        Err(ApiError::Validation(FlagError::Length(FlagField::Key, 0)))
    );
    assert!(db.get_values("team-a").unwrap().is_empty());
}

#[test]
fn put_flag_checks_the_key_before_the_store() {
    let mut db = InMemoryDb::new();
    let secret = Some(String::from("secret"));
    assert_eq!(put_flag("team-a", "dark-mode", &secret, None, &mut db), Err(ApiError::AuthRejected));
    assert_eq!(
        put_flag(
            "team-a",
            "dark-mode",
            &secret,
            Some(ApiKey::new(String::from("wrong"))),
            &mut db
        ),
        Err(ApiError::AuthRejected)
    );
    assert!(db.get_values("team-a").unwrap().is_empty());
    assert_eq!(db.etag("team-a").unwrap(), "");
    assert_eq!(
        put_flag(
            "team-a",
            "dark-mode",
            &secret,
            Some(ApiKey::new(String::from("secret"))),
            &mut db
        ),
        Ok(true)
    );
    assert!(db.get_values("team-a").unwrap().contains("dark-mode"));
}

#[test]
fn put_and_delete_report_whether_they_changed_the_set() {
    let mut db = InMemoryDb::new();
    assert_eq!(put_flag("team-a", "dark-mode", &None, None, &mut db), Ok(true));
    assert_eq!(put_flag("team-a", "dark-mode", &None, None, &mut db), Ok(false));
    assert_eq!(delete_flag("team-a", "dark-mode", &None, None, &mut db), Ok(true));
    assert_eq!(delete_flag("team-a", "dark-mode", &None, None, &mut db), Ok(false));
}

#[test]
fn delete_flag_checks_the_key_like_put_flag() {
    let mut db = InMemoryDb::new();
    let secret = Some(String::from("secret"));
    db.set_value_at("team-a", String::from("dark-mode"), 1);
    assert_eq!(
        delete_flag("team-a", "dark-mode", &secret, None, &mut db),
        Err(ApiError::AuthRejected)
    );
    assert_eq!(
        delete_flag("team-a", "dark mode", &secret, None, &mut db),
        Err(ApiError::Validation(FlagError::InvalidByte(FlagField::Key, b' ')))
    );
    assert!(db.get_values("team-a").unwrap().contains("dark-mode"));
    assert_eq!(db.etag("team-a").unwrap(), "1");
}

#[test]
fn reads_need_no_key() {
    let mut db = InMemoryDb::new();
    db.set_value_at("team-a", String::from("dark-mode"), 255);
    assert_eq!(head_flags("team-a", &db), Ok(String::from("ff")));
    let listing = get_flags("team-a", &db).unwrap();
    assert_eq!(listing.namespace, "team-a");
    assert_eq!(listing.etag, "ff");
    assert_eq!(sorted(&listing.flags), vec![String::from("dark-mode")]);
    assert_eq!(head_flags("never-written", &db), Ok(String::new()));
}

#[test]
fn reads_validate_the_namespace() {
    let db = InMemoryDb::new();
    assert_eq!(
        head_flags("", &db),
        Err(ApiError::Validation(FlagError::Length(FlagField::Namespace, 0)))
    );
    assert_eq!(
        get_flags("a/b", &db).err(),
        Some(ApiError::Validation(FlagError::InvalidByte(FlagField::Namespace, b'/')))
    );
}
