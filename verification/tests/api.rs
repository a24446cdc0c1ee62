use ephemeride_backend::api::index::package_info;
use ephemeride_backend::api::v1::auth::{auth_config, authenticate_user, authenticate_with};
use ephemeride_backend::api::v1::category::{
  create_category, delete_category, edit_category, CreateCategoryRequest, EditCategoryRequest,
};
use ephemeride_backend::api::v1::entries::{
  entry_options, get_entries, get_entries_in_range, read_order, EntryParams,
};
use ephemeride_backend::api::v1::entry::{
  create_entry, delete_entry, edit_entry, CreateEntryRequest, EditEntryRequest,
};
use ephemeride_backend::api::v1::metrics::{metrics, metrics_at, time_ago};
use ephemeride_backend::api::v1::sessions::{get_sessions, get_sessions_at};
use ephemeride_backend::api::v1::tag::{
  create_tag, delete_tag, edit_tag, CreateTagRequest, EditTagRequest,
};
use ephemeride_backend::api::v1::user::{
  create_user, delete_user, get_current_user, get_user_categories_with_tags, update_password,
  update_user,
};
use ephemeride_backend::api::v1::answer;
use ephemeride_backend::services::auth::{create_user_session, SessionMetadata, UserCredentials};
use ephemeride_backend::services::entry::EntryOptionsOrder;
use ephemeride_backend::services::invite::generate_invite;
use ephemeride_backend::services::user::{AuthUser, CreateUser, UpdatePassword, UpdateUser};
use ephemeride_backend::store::Store;
use ephemeride_backend::util::EphemerideError;

fn metadata() -> SessionMetadata {
  SessionMetadata {
    ip_address: "127.0.0.1".to_string(),
    user_agent: "test".to_string(),
  }
}

fn sign_up(store: &mut Store, name: &str) -> String {
  let session = create_user(
    store,
    CreateUser {
      name: name.to_string(),
      email: format!("{name}@example.com"),
      password: "password".to_string(),
      invite: None,
    },
    false,
    4,
    metadata(),
  )
  .unwrap();
  format!("Bearer {}", session.id)
}

#[test]
fn signing_up_logs_the_user_in() {
  let mut store = Store::new();
  let header = sign_up(&mut store, "ann");
  let user = get_current_user(&mut store, Some(&header)).unwrap();
  assert_eq!(user.name, "ann");
  assert_eq!(user.email, "ann@example.com");
  assert_eq!(store.sessions.len(), 1);
  assert_eq!(store.sessions[0].user_id, user.id);
}

#[test]
fn signing_up_may_need_an_invite() {
  let mut store = Store::new();
  let invite = generate_invite(&mut store, Some("welcome")).unwrap();
  let user = |email: &str, invite: Option<&str>| CreateUser {
    name: "ann".to_string(),
    email: email.to_string(),
    password: "password".to_string(),
    invite: invite.map(|code| code.to_string()),
  };
  let without = create_user(&mut store, user("a@example.com", None), true, 4, metadata());
  assert_eq!(without.unwrap_err(), EphemerideError::InviteNotFound);
  let unknown = create_user(
    &mut store,
    user("a@example.com", Some("nope")),
    true,
    4,
    metadata(),
  );
  assert_eq!(unknown.unwrap_err(), EphemerideError::InviteNotFound);
  let with = create_user(
    &mut store,
    user("a@example.com", Some(&invite.code)),
    true,
    4,
    metadata(),
  );
  assert!(with.is_ok());
  assert!(store.invites[0].used);
  let again = create_user(
    &mut store,
    user("b@example.com", Some(&invite.code)),
    true,
    4,
    metadata(),
  );
  assert_eq!(again.unwrap_err(), EphemerideError::InviteNotFound);
  assert_eq!(store.users.len(), 1);
}

#[test]
fn logging_in_checks_the_password() {
  let mut store = Store::new();
  let _ = sign_up(&mut store, "ann");
  let login = |email: &str, password: &str| AuthUser {
    email: email.to_string(),
    password: password.to_string(),
  };
  let right = authenticate_user(&mut store, login("ann@example.com", "password"), metadata());
  assert_eq!(right.unwrap().user_id, store.users[0].id);
  let wrong = authenticate_user(&mut store, login("ann@example.com", "passw0rd"), metadata());
  assert_eq!(wrong.unwrap_err(), EphemerideError::InvalidPassword);
  let unknown = authenticate_user(&mut store, login("bob@example.com", "password"), metadata());
  assert_eq!(unknown.unwrap_err(), EphemerideError::UserNotFound);
  let short = authenticate_user(&mut store, login("ann@example.com", "pass"), metadata());
  assert_eq!(short.unwrap_err(), EphemerideError::BadRequest);
  let no_email = authenticate_user(&mut store, login("ann", "password"), metadata());
  assert_eq!(no_email.unwrap_err(), EphemerideError::BadRequest);
  let corrupt = create_user_session(
    &mut store,
    UserCredentials {
      email: "ann@example.com".to_string(),
      password: "wrong password".to_string(),
    },
    metadata(),
  );
  assert_eq!(corrupt.unwrap_err(), EphemerideError::InvalidPassword);
  let given = authenticate_with(
    &mut store,
    login("ann@example.com", "password"),
    true,
    Some(true),
    metadata(),
    "token".to_string(),
    77,
  )
  .unwrap();
  assert_eq!(given.id, "token");
  assert_eq!(given.created_at, 77);
}

#[test]
fn a_corrupt_hash_fails_inside() {
  let mut store = Store::new();
  let _ = sign_up(&mut store, "ann");
  store.users[0].password = "not a hash".to_string();
  let refused = authenticate_user(
    &mut store,
    AuthUser {
      email: "ann@example.com".to_string(),
      password: "password".to_string(),
    },
    metadata(),
  );
  assert_eq!(refused.unwrap_err(), EphemerideError::InternalServerError);
}

#[test]
fn requests_without_a_session_are_refused() {
  let mut store = Store::new();
  let _ = sign_up(&mut store, "ann");
  let body = || CreateCategoryRequest {
    name: "Mine".to_string(),
  };
  let none = create_category(&mut store, None, body());
  assert_eq!(none.unwrap_err(), EphemerideError::SessionNotFound);
  let unknown = create_category(&mut store, Some("Bearer nothing"), body());
  assert_eq!(unknown.unwrap_err(), EphemerideError::SessionNotFound);
  assert_eq!(store.categories.len(), 2);
  assert_eq!(
    get_current_user(&mut store, None).unwrap_err(),
    EphemerideError::SessionNotFound
  );
  assert_eq!(
    delete_user(&mut store, Some("nothing")).unwrap_err(),
    EphemerideError::SessionNotFound
  );
  assert_eq!(store.users.len(), 1);
}

#[test]
fn a_user_acts_on_the_own_rows_only() {
  let mut store = Store::new();
  let ann = sign_up(&mut store, "ann");
  let bob = sign_up(&mut store, "bob");
  let category = create_category(
    &mut store,
    Some(&ann),
    CreateCategoryRequest {
      name: "Mine".to_string(),
    },
  )
  .unwrap();
  assert_eq!(category.user_id, store.users[0].id);
  let rename = || EditCategoryRequest {
    name: "Taken".to_string(),
  };
  let foreign = edit_category(&mut store, Some(&bob), category.id.clone(), rename());
  assert_eq!(foreign.unwrap_err(), EphemerideError::CategoryNotFound);
  assert_eq!(
    delete_category(&mut store, Some(&bob), &category.id).unwrap_err(),
    EphemerideError::CategoryNotFound
  );
  let own = edit_category(&mut store, Some(&ann), category.id.clone(), rename()).unwrap();
  assert_eq!(own.name, "Taken");
  let tag = create_tag(
    &mut store,
    Some(&ann),
    CreateTagRequest {
      name: "Tag".to_string(),
      color: "PURPLE".to_string(),
      category_id: category.id.clone(),
    },
  )
  .unwrap();
  assert_eq!(tag.color, "purple");
  let stolen = create_tag(
    &mut store,
    Some(&bob),
    CreateTagRequest {
      name: "Tag".to_string(),
      color: "red".to_string(),
      category_id: category.id.clone(),
    },
  );
  assert_eq!(stolen.unwrap_err(), EphemerideError::CategoryNotFound);
  let restyle = |color: &str| EditTagRequest {
    name: "Renamed".to_string(),
    color: color.to_string(),
  };
  assert_eq!(
    edit_tag(&mut store, Some(&bob), tag.id.clone(), restyle("red")).unwrap_err(),
    EphemerideError::TagNotFound
  );
  let edited = edit_tag(&mut store, Some(&ann), tag.id.clone(), restyle("mauve")).unwrap();
  assert_eq!(edited.name, "Renamed");
  assert_eq!(edited.color, "base");
  let entry = create_entry(
    &mut store,
    Some(&ann),
    CreateEntryRequest {
      date: "2025-05-05".to_string(),
      mood: 4,
      entry: None,
      selected_tags: vec![tag.id.clone()],
    },
  )
  .unwrap();
  let change = || EditEntryRequest {
    date: "2025-05-06".to_string(),
    mood: 2,
    entry: Some("text".to_string()),
    selected_tags: vec![],
  };
  assert_eq!(
    edit_entry(&mut store, Some(&bob), entry.id.clone(), change()).unwrap_err(),
    EphemerideError::EntryNotFound
  );
  assert_eq!(
    delete_entry(&mut store, Some(&bob), &entry.id).unwrap_err(),
    EphemerideError::EntryNotFound
  );
  let changed = edit_entry(&mut store, Some(&ann), entry.id.clone(), change()).unwrap();
  assert_eq!(changed.mood, 2);
  assert!(changed.selected_tags.is_empty());
  assert_eq!(
    delete_tag(&mut store, Some(&bob), &tag.id).unwrap_err(),
    EphemerideError::TagNotFound
  );
  assert_eq!(delete_tag(&mut store, Some(&ann), &tag.id), Ok(()));
  assert_eq!(delete_entry(&mut store, Some(&ann), &entry.id), Ok(()));
  assert_eq!(delete_category(&mut store, Some(&ann), &category.id), Ok(()));
  let listed = get_user_categories_with_tags(&mut store, Some(&bob)).unwrap();
  assert_eq!(listed.len(), 2);
  assert_eq!(listed[0].name, "Activities");
  assert_eq!(listed[0].tags.len(), 6);
  assert_eq!(listed[1].tags.len(), 3);
}

#[test]
fn an_account_is_changed_and_deleted() {
  let mut store = Store::new();
  let ann = sign_up(&mut store, "ann");
  let bob = sign_up(&mut store, "bob");
  let update = |name: &str, email: &str| UpdateUser {
    name: name.to_string(),
    email: email.to_string(),
  };
  assert_eq!(
    update_user(&mut store, Some(&ann), update("Ann", "bob@example.com")).unwrap_err(),
    EphemerideError::EmailAlreadyInUse
  );
  assert_eq!(
    update_user(&mut store, Some(&ann), update("Ann", "nonsense")).unwrap_err(),
    EphemerideError::BadRequest
  );
  assert_eq!(
    update_user(&mut store, Some(&ann), update("Ann", "ann@example.org")),
    Ok(())
  );
  assert_eq!(
    get_current_user(&mut store, Some(&ann)).unwrap().email,
    "ann@example.org"
  );
  let old_hash = store.users[0].password.clone();
  let password = UpdatePassword {
    password: "another password".to_string(),
  };
  assert_eq!(update_password(&mut store, Some(&ann), password), Ok(()));
  assert_ne!(store.users[0].password, old_hash);
  assert_eq!(delete_user(&mut store, Some(&ann)), Ok(()));
  assert_eq!(
    get_current_user(&mut store, Some(&ann)).unwrap_err(),
    EphemerideError::SessionNotFound
  );
  assert_eq!(get_current_user(&mut store, Some(&bob)).unwrap().name, "bob");
  assert_eq!(store.users.len(), 1);
  assert_eq!(store.categories.len(), 2);
}

#[test]
fn sessions_are_listed_for_a_request() {
  let mut store = Store::new();
  let ann = sign_up(&mut store, "ann");
  let _ = sign_up(&mut store, "bob");
  let _ = authenticate_user(
    &mut store,
    AuthUser {
      email: "ann@example.com".to_string(),
      password: "password".to_string(),
    },
    metadata(),
  );
  assert_eq!(get_sessions(&mut store, Some(&ann)).unwrap().len(), 2);
  let listed = get_sessions_at(&mut store, Some(&ann), 123).unwrap();
  assert_eq!(listed[0].accessed_at, 123);
  assert_eq!(
    get_sessions(&mut store, None).unwrap_err(),
    EphemerideError::SessionNotFound
  );
  assert_eq!(
    get_sessions(&mut store, Some("Bearer x")).unwrap_err(),
    EphemerideError::SessionNotFound
  );
}

#[test]
fn entries_are_asked_for_by_parameters() {
  let mut store = Store::new();
  let ann = sign_up(&mut store, "ann");
  for (day, mood) in [(1, 5), (2, 1), (3, 3)] {
    let created = create_entry(
      &mut store,
      Some(&ann),
      CreateEntryRequest {
        date: format!("2025-06-{day:02}"),
        mood,
        entry: Some(format!("day {day}")),
        selected_tags: vec![],
      },
    );
    assert!(created.is_ok());
  }
  let params = |order: Option<&str>| EntryParams {
    from_date: Some("2025-06-02".to_string()),
    to_date: None,
    tags: None,
    from_mood: None,
    to_mood: None,
    order: order.map(|name| name.to_string()),
  };
  let page = get_entries(&mut store, Some(&ann), entry_options(params(Some("mood_asc")))).unwrap();
  let texts: Vec<String> = page.data.into_iter().map(|e| e.entry.unwrap()).collect();
  assert_eq!(texts, vec!["day 2", "day 3"]);
  assert_eq!(page.pagination.total_count, 2);
  assert_eq!(page.pagination.limit, 31);
  let page = get_entries(&mut store, Some(&ann), entry_options(params(None))).unwrap();
  let texts: Vec<String> = page.data.into_iter().map(|e| e.entry.unwrap()).collect();
  assert_eq!(texts, vec!["day 3", "day 2"]);
  let refused = get_entries(&mut store, None, entry_options(params(None)));
  assert_eq!(refused.unwrap_err(), EphemerideError::SessionNotFound);
}

#[test]
fn parameters_are_read_into_options() {
  let options = entry_options(EntryParams {
    from_date: Some("a".to_string()),
    to_date: Some("b".to_string()),
    tags: Some("x,y".to_string()),
    from_mood: Some(1),
    to_mood: Some(2),
    order: Some("date_asc".to_string()),
  });
  assert_eq!(options.from_date, Some("a".to_string()));
  assert_eq!(options.to_date, Some("b".to_string()));
  assert_eq!(options.tags, Some(vec!["x".to_string(), "y".to_string()]));
  assert_eq!(options.from_mood, Some(1));
  assert_eq!(options.to_mood, Some(2));
  assert_eq!(options.order, Some(EntryOptionsOrder::DateAsc));
  assert_eq!(options.limit, Some(31));
  assert_eq!(options.offset, Some(0));
  assert_eq!(read_order("date_asc"), Some(EntryOptionsOrder::DateAsc));
  assert_eq!(read_order("date_desc"), Some(EntryOptionsOrder::DateDesc));
  assert_eq!(read_order("mood_asc"), Some(EntryOptionsOrder::MoodAsc));
  assert_eq!(read_order("mood_desc"), Some(EntryOptionsOrder::MoodDesc));
  assert_eq!(read_order("DATE_ASC"), None);
  assert_eq!(read_order(""), None);
}

#[test]
fn metrics_count_the_active_users() {
  let mut store = Store::new();
  let _ = sign_up(&mut store, "ann");
  let _ = sign_up(&mut store, "bob");
  store.sessions[0].accessed_at = 10_000_000_000;
  store.sessions[1].accessed_at = 10_000_000_000 - 90_000_000;
  let now = metrics_at(&store, 10_000_000_000).unwrap();
  assert_eq!(now.total_users, 2);
  assert_eq!(now.active_1h, 1);
  assert_eq!(now.active_24h, 1);
  assert_eq!(now.active_7d, 2);
  assert_eq!(now.active_30d, 2);
  let later = metrics_at(&store, 10_000_000_000 + 604_800_000).unwrap();
  assert_eq!(later.active_1h, 0);
  assert_eq!(later.active_7d, 1);
  assert_eq!(later.active_30d, 2);
  assert_eq!(metrics(&store).unwrap().total_users, 2);
  assert_eq!(time_ago(5_000_000, 3_600_000), 1_400_000);
  assert_eq!(time_ago(0, 3_600_000), -3_600_000);
  assert_eq!(time_ago(i64::MIN, 1), i64::MIN);
  assert_eq!(time_ago(i64::MAX, -1), i64::MAX);
}

#[test]
fn small_answers() {
  assert!(auth_config(true).invite_required);
  assert!(!auth_config(false).invite_required);
  let info = package_info("name", "1.2.3");
  assert_eq!(info.name, "name");
  assert_eq!(info.version, "1.2.3");
  assert_eq!(answer(Ok(true), EphemerideError::TagNotFound), Ok(()));
  assert_eq!(
    answer(Ok(false), EphemerideError::TagNotFound),
    Err(EphemerideError::TagNotFound)
  );
  assert_eq!(
    answer(Err(EphemerideError::BadRequest), EphemerideError::TagNotFound),
    Err(EphemerideError::BadRequest)
  );
}

#[test]
fn a_span_of_days_is_asked_for() {
  let mut store = Store::new();
  let ann = sign_up(&mut store, "ann");
  let bob = sign_up(&mut store, "bob");
  for (who, day) in [(&ann, 3), (&ann, 1), (&bob, 2), (&ann, 9)] {
    let created = create_entry(
      &mut store,
      Some(who),
      CreateEntryRequest {
        date: format!("2025-07-{day:02}"),
        mood: 3,
        entry: Some(format!("day {day}")),
        selected_tags: vec![],
      },
    );
    assert!(created.is_ok());
  }
  let found = get_entries_in_range(&mut store, Some(&ann), "2025-07-01", "2025-07-03").unwrap();
  let texts: Vec<String> = found.into_iter().map(|e| e.entry.unwrap()).collect();
  assert_eq!(texts, vec!["day 1", "day 3"]);
  assert_eq!(
    get_entries_in_range(&mut store, Some(&ann), "2025-07-01", "soon").unwrap_err(),
    EphemerideError::BadRequest
  );
  assert_eq!(
    get_entries_in_range(&mut store, None, "2025-07-01", "2025-07-03").unwrap_err(),
    EphemerideError::SessionNotFound
  );
}
