use token_ledger::records::{RecordError, RecordStore};

type Body = (Option<f32>, Option<f32>);
type Store = RecordStore<Body, String>;

fn register(store: &mut Store, id: u8, name: &str) -> Result<(), RecordError> {
    store.register_user(
        vec![id],
        name.to_string(),
        30,
        "other".to_string(),
        (Some(170.0), Some(65.5)),
        None,
        None,
    )
}

#[test]
fn register_then_duplicate() {
    let mut store = Store::new();
    assert_eq!(register(&mut store, 1, "Ada"), Ok(()));
    assert_eq!(register(&mut store, 1, "Ada"), Err(RecordError::AlreadyRegistered));
    assert_eq!(register(&mut store, 2, "Grace"), Ok(()));
    assert_eq!(store.users.len(), 2);
}

#[test]
fn fresh_user_starts_empty() {
    let mut store = Store::new();
    register(&mut store, 1, "Ada").unwrap();
    let u = store.get_user_profile(&vec![1]).unwrap();
    assert_eq!(u.full_name, "Ada");
    assert_eq!(u.age, 30);
    assert_eq!(u.total_rewards, 0);
    assert!(u.health_data.is_empty());
}

#[test]
fn profile_of_unknown_user() {
    let store = Store::new();
    assert!(matches!(store.get_user_profile(&vec![9]), Err(RecordError::UserNotFound)));
}

#[test]
fn add_checkup_appends_private_record() {
    let mut store = Store::new();
    register(&mut store, 1, "Ada").unwrap();
    store.add_checkup(&vec![1], "c-1".to_string(), 42, "fine".to_string()).unwrap();
    store.add_checkup(&vec![1], "c-2".to_string(), 43, "tired".to_string()).unwrap();
    let h = store.get_user_history(&vec![1]).unwrap();
    assert_eq!(h.len(), 2);
    assert_eq!(h[0].id, "c-1");
    assert_eq!(h[0].date, 42);
    assert_eq!(h[0].data, "fine");
    assert!(!h[0].is_public);
    assert_eq!(h[1].id, "c-2");
    let r = store.add_checkup(&vec![9], "c-3".to_string(), 44, "x".to_string());
    assert_eq!(r, Err(RecordError::UserNotFound));
}

#[test]
fn publish_marks_public_once_and_rewards() {
    let mut store = Store::new();
    register(&mut store, 1, "Ada").unwrap();
    store.add_checkup(&vec![1], "c-1".to_string(), 42, "fine".to_string()).unwrap();
    assert_eq!(store.publish_checkup(&vec![1], &"c-1".to_string()), Ok(()));
    let u = store.get_user_profile(&vec![1]).unwrap();
    assert_eq!(u.total_rewards, 10);
    assert!(u.health_data[0].is_public);
    assert_eq!(
        store.publish_checkup(&vec![1], &"c-1".to_string()),
        Err(RecordError::AlreadyPublished)
    );
    assert_eq!(
        store.publish_checkup(&vec![1], &"missing".to_string()),
        Err(RecordError::CheckupNotFound)
    );
    assert_eq!(
        store.publish_checkup(&vec![9], &"c-1".to_string()),
        Err(RecordError::UserNotFound)
    );
    let u = store.get_user_profile(&vec![1]).unwrap();
    assert_eq!(u.total_rewards, 10);
}

#[test]
fn reward_user_adds_points() {
    let mut store = Store::new();
    register(&mut store, 1, "Ada").unwrap();
    assert_eq!(store.reward_user(&vec![1], 25), Ok(()));
    assert_eq!(store.reward_user(&vec![1], 5), Ok(()));
    assert_eq!(store.get_user_profile(&vec![1]).unwrap().total_rewards, 30);
    assert_eq!(store.reward_user(&vec![9], 5), Err(RecordError::UserNotFound));
}

#[test]
fn update_profile_replaces_fields_but_not_history() {
    let mut store = Store::new();
    register(&mut store, 1, "Ada").unwrap();
    store.add_checkup(&vec![1], "c-1".to_string(), 42, "fine".to_string()).unwrap();
    store.reward_user(&vec![1], 3).unwrap();
    let r = store.update_profile_user(
        &vec![1],
        "Ada Lovelace".to_string(),
        37,
        "female".to_string(),
        (Some(171.0), None),
        Some("pollen".to_string()),
        None,
    );
    assert_eq!(r, Ok(()));
    let u = store.get_user_profile(&vec![1]).unwrap();
    assert_eq!(u.full_name, "Ada Lovelace");
    assert_eq!(u.age, 37);
    assert_eq!(u.gender, "female");
    assert_eq!(u.allergies, Some("pollen".to_string()));
    assert_eq!(u.total_rewards, 3);
    assert_eq!(u.health_data.len(), 1);
}

#[test]
fn update_profile_rejects_blank_name() {
    let mut store = Store::new();
    register(&mut store, 1, "Ada").unwrap();
    let r = store.update_profile_user(
        &vec![1],
        "   \t ".to_string(),
        37,
        "female".to_string(),
        (None, None),
        None,
        None,
    );
    assert_eq!(r, Err(RecordError::EmptyName));
    assert_eq!(store.get_user_profile(&vec![1]).unwrap().full_name, "Ada");
    let r = store.update_profile_user(
        &vec![9],
        "Grace".to_string(),
        40,
        "female".to_string(),
        (None, None),
        None,
        None,
    );
    assert_eq!(r, Err(RecordError::UserNotFound));
}

#[test]
fn public_data_lists_only_published_checkups_in_order() {
    let mut store = Store::new();
    register(&mut store, 1, "Ada").unwrap();
    register(&mut store, 2, "Grace").unwrap();
    store.add_checkup(&vec![1], "a-1".to_string(), 1, "p".to_string()).unwrap();
    store.add_checkup(&vec![1], "a-2".to_string(), 2, "q".to_string()).unwrap();
    store.add_checkup(&vec![2], "b-1".to_string(), 3, "r".to_string()).unwrap();
    store.publish_checkup(&vec![1], &"a-2".to_string()).unwrap();
    store.publish_checkup(&vec![2], &"b-1".to_string()).unwrap();
    let pubs = store.get_public_data();
    assert_eq!(pubs.len(), 2);
    assert_eq!(pubs[0].id, "a-2");
    assert_eq!(pubs[1].id, "b-1");
    assert!(pubs.iter().all(|c| c.is_public));
}

#[test]
fn private_data_mirrors_history() {
    let mut store = Store::new();
    register(&mut store, 1, "Ada").unwrap();
    store.add_checkup(&vec![1], "c-1".to_string(), 42, "fine".to_string()).unwrap();
    let a = store.get_private_data(&vec![1]).unwrap().len();
    let b = store.get_user_history(&vec![1]).unwrap().len();
    assert_eq!(a, b);
    assert!(matches!(store.get_private_data(&vec![9]), Err(RecordError::UserNotFound)));
}

#[test]
fn error_messages_match_their_variants() {
    assert_eq!(RecordError::AlreadyRegistered.message(), "User already registered");
    assert_eq!(RecordError::UserNotFound.message(), "User not found");
    assert_eq!(RecordError::CheckupNotFound.message(), "Checkup not found");
    assert_eq!(RecordError::AlreadyPublished.message(), "Checkup already published");
    assert_eq!(RecordError::EmptyName.message(), "Full name cannot be empty");
}
