use ephemeride_backend::services::auth::{
  authorize, create_session_with, delete_all_user_sessions, delete_user_session,
  get_all_user_sessions, list_sessions, lookup_session, session_metadata, token_from_header,
  SessionMetadata,
};
use ephemeride_backend::services::category::{
  create_category_with, delete_category, get_all_categories, CreateCategory,
};
use ephemeride_backend::services::entry::{
  create_entry_with, delete_entry, edit_entry, edit_entry_with, get_entries, get_entries_in_range,
  get_entry_by_date, get_entry_with_tags, query_entries, read_options, CreateEntry, EditEntry,
  EntryFilter, EntryOptionsOrder, GetEntriesOptions,
};
use ephemeride_backend::services::invite::{generate_invite_with, get_invite, use_invite};
use ephemeride_backend::services::log::{create_default_data_with, DefaultIds};
use ephemeride_backend::services::tag::{
  create_tag_with, delete_tag, get_category_tags, get_tag, get_tags, CreateTag,
};
use ephemeride_backend::services::user::{
  active_user_count, create_user, delete_user, get_password_hash, get_user, get_user_id,
  register_user, update_password, update_user_with, user_count, CreateUser, UpdatePassword,
  UpdateUser,
};
use ephemeride_backend::store::Store;
use ephemeride_backend::util::date::{has_date_shape, parse_date, Date};
use ephemeride_backend::util::text::{
  has_length_within, split_on_commas, str_eq, str_le, strip_prefix,
};
use ephemeride_backend::util::{Color, EphemerideError};

fn default_ids(prefix: &str) -> DefaultIds {
  DefaultIds {
    activities: format!("{prefix}-c1"),
    work: format!("{prefix}-t1"),
    movie: format!("{prefix}-t2"),
    exercise: format!("{prefix}-t3"),
    read: format!("{prefix}-t4"),
    shopping: format!("{prefix}-t5"),
    gaming: format!("{prefix}-t6"),
    tags: format!("{prefix}-c2"),
    travel: format!("{prefix}-t7"),
    important: format!("{prefix}-t8"),
    sick: format!("{prefix}-t9"),
  }
}

fn add_user(store: &mut Store, id: &str) {
  let user = CreateUser {
    name: format!("name of {id}"),
    email: format!("{id}@example.com"),
    password: "password".to_string(),
    invite: None,
  };
  let created = register_user(
    store,
    user,
    true,
    Some(format!("hash of {id}")),
    id.to_string(),
    &default_ids(id),
    1000,
  );
  assert!(created.is_ok());
}

fn add_entry(store: &mut Store, user: &str, id: &str, date: &str, mood: i32, tags: Vec<String>) {
  let created = create_entry_with(
    store,
    CreateEntry {
      date: date.to_string(),
      mood,
      entry: Some(format!("text of {id}")),
      selected_tags: tags,
      user_id: user.to_string(),
    },
    parse_date(date),
    id.to_string(),
    2000,
  );
  assert!(created.is_ok());
}

fn metadata() -> SessionMetadata {
  SessionMetadata {
    ip_address: "127.0.0.1".to_string(),
    user_agent: "test".to_string(),
  }
}

fn filter(order: EntryOptionsOrder, limit: i64, offset: i64) -> EntryFilter {
  EntryFilter {
    from_date: None,
    to_date: None,
    tags: vec![],
    from_mood: None,
    to_mood: None,
    order,
    limit,
    offset,
  }
}

fn ids_of_page(store: &Store, user: &str, query: &EntryFilter) -> Vec<String> {
  query_entries(store, user, query)
    .unwrap()
    .data
    .into_iter()
    .map(|entry| entry.id)
    .collect()
}

#[test]
fn a_new_store_is_empty() {
  let store = Store::new();
  assert_eq!(user_count(&store), Ok(0));
  assert!(store.sessions.is_empty());
  assert!(store.entries.is_empty());
}

#[test]
fn login_opens_a_session_that_resolves() {
  let mut store = Store::new();
  add_user(&mut store, "u1");
  let session = create_session_with(
    &mut store,
    "u1@example.com",
    Some(true),
    metadata(),
    "token-1".to_string(),
    5000,
  )
  .unwrap();
  assert_eq!(session.id, "token-1");
  assert_eq!(session.user_id, "u1");
  assert_eq!(session.created_at, 5000);
  assert_eq!(session.accessed_at, 5000);
  assert_eq!(session.ip_address, "127.0.0.1");
  assert_eq!(session.user_agent, "test");
  let found = lookup_session(&mut store, "token-1", 6000).unwrap();
  assert_eq!(found.user_id, "u1");
  assert_eq!(found.accessed_at, 5000);
  assert_eq!(store.sessions[0].accessed_at, 6000);
}

#[test]
fn login_is_refused_for_a_wrong_password() {
  let mut store = Store::new();
  add_user(&mut store, "u1");
  let refused = create_session_with(
    &mut store,
    "u1@example.com",
    Some(false),
    metadata(),
    "token-1".to_string(),
    5000,
  );
  assert_eq!(refused.unwrap_err(), EphemerideError::InvalidPassword);
  assert!(store.sessions.is_empty());
}

#[test]
fn login_is_refused_for_an_unknown_email() {
  let mut store = Store::new();
  add_user(&mut store, "u1");
  let refused = create_session_with(
    &mut store,
    "nobody@example.com",
    Some(true),
    metadata(),
    "token-1".to_string(),
    5000,
  );
  assert_eq!(refused.unwrap_err(), EphemerideError::UserNotFound);
}

#[test]
fn login_fails_inside_for_an_unreadable_hash() {
  let mut store = Store::new();
  add_user(&mut store, "u1");
  let refused = create_session_with(
    &mut store,
    "u1@example.com",
    None,
    metadata(),
    "token-1".to_string(),
    5000,
  );
  assert_eq!(refused.unwrap_err(), EphemerideError::InternalServerError);
}

#[test]
fn a_token_is_given_out_once() {
  let mut store = Store::new();
  add_user(&mut store, "u1");
  let first = create_session_with(
    &mut store,
    "u1@example.com",
    Some(true),
    metadata(),
    "token-1".to_string(),
    5000,
  );
  assert!(first.is_ok());
  let second = create_session_with(
    &mut store,
    "u1@example.com",
    Some(true),
    metadata(),
    "token-1".to_string(),
    5001,
  );
  assert_eq!(second.unwrap_err(), EphemerideError::DatabaseError);
  assert_eq!(store.sessions.len(), 1);
}

#[test]
fn an_unknown_token_is_refused() {
  let mut store = Store::new();
  add_user(&mut store, "u1");
  let refused = lookup_session(&mut store, "never-issued", 1);
  assert_eq!(refused.unwrap_err(), EphemerideError::SessionNotFound);
}

#[test]
fn a_revoked_token_is_refused() {
  let mut store = Store::new();
  add_user(&mut store, "u1");
  let _ = create_session_with(
    &mut store,
    "u1@example.com",
    Some(true),
    metadata(),
    "token-1".to_string(),
    5000,
  );
  assert_eq!(delete_user_session(&mut store, "token-1"), Ok(true));
  assert_eq!(delete_user_session(&mut store, "token-1"), Ok(false));
  let refused = lookup_session(&mut store, "token-1", 6000);
  assert_eq!(refused.unwrap_err(), EphemerideError::SessionNotFound);
}

#[test]
fn sessions_are_listed_for_the_user_of_a_token() {
  let mut store = Store::new();
  add_user(&mut store, "u1");
  add_user(&mut store, "u2");
  for (email, token) in [
    ("u1@example.com", "a"),
    ("u2@example.com", "b"),
    ("u1@example.com", "c"),
  ] {
    let opened = create_session_with(
      &mut store,
      email,
      Some(true),
      metadata(),
      token.to_string(),
      10,
    );
    assert!(opened.is_ok());
  }
  let listed = list_sessions(&mut store, "c", 99).unwrap();
  let tokens: Vec<String> = listed.iter().map(|s| s.id.clone()).collect();
  assert_eq!(tokens, vec!["a".to_string(), "c".to_string()]);
  assert_eq!(listed[0].accessed_at, 10);
  assert_eq!(listed[1].accessed_at, 99);
  assert_eq!(
    get_all_user_sessions(&mut store, "zzz").unwrap_err(),
    EphemerideError::SessionNotFound
  );
  assert_eq!(delete_all_user_sessions(&mut store, "u1"), Ok(true));
  assert_eq!(delete_all_user_sessions(&mut store, "u1"), Ok(false));
  assert_eq!(store.sessions.len(), 1);
}

#[test]
fn the_token_is_read_with_and_without_its_prefix() {
  assert_eq!(token_from_header(Some("Bearer abc")), Some("abc".to_string()));
  assert_eq!(token_from_header(Some("abc")), Some("abc".to_string()));
  assert_eq!(token_from_header(Some("Bearer ")), Some("".to_string()));
  assert_eq!(token_from_header(Some("bearer abc")), Some("bearer abc".to_string()));
  assert_eq!(token_from_header(None), None);
}

#[test]
fn a_request_is_authorized_by_its_token() {
  let mut store = Store::new();
  add_user(&mut store, "u1");
  let _ = create_session_with(
    &mut store,
    "u1@example.com",
    Some(true),
    metadata(),
    "token-1".to_string(),
    5000,
  );
  assert_eq!(
    authorize(&mut store, Some("Bearer token-1"), 7000).unwrap().user_id,
    "u1"
  );
  assert_eq!(store.sessions[0].accessed_at, 7000);
  assert_eq!(authorize(&mut store, Some("token-1"), 8000).unwrap().user_id, "u1");
  assert_eq!(
    authorize(&mut store, None, 9000).unwrap_err(),
    EphemerideError::SessionNotFound
  );
  assert_eq!(
    authorize(&mut store, Some("Bearer other"), 9000).unwrap_err(),
    EphemerideError::SessionNotFound
  );
  assert_eq!(store.sessions[0].accessed_at, 8000);
}

#[test]
fn metadata_names_an_unknown_agent() {
  let known = session_metadata("1.2.3.4:80", Some("agent"));
  assert_eq!(known.ip_address, "1.2.3.4:80");
  assert_eq!(known.user_agent, "agent");
  assert_eq!(session_metadata("1.2.3.4:80", None).user_agent, "unknown");
}

#[test]
fn an_invite_is_redeemed_once() {
  let mut store = Store::new();
  let invite = generate_invite_with(
    &mut store,
    Some("welcome"),
    "fresh".to_string(),
    "i1".to_string(),
    7,
  )
  .unwrap();
  assert_eq!(invite.code, "welcome");
  assert_eq!(invite.created_at, 7);
  assert!(!invite.used);
  let first = use_invite(&mut store, "welcome").unwrap();
  assert!(first.used);
  assert!(get_invite(&store, "welcome").unwrap().used);
  assert_eq!(
    use_invite(&mut store, "welcome").unwrap_err(),
    EphemerideError::InviteUsed
  );
  assert_eq!(
    use_invite(&mut store, "unknown").unwrap_err(),
    EphemerideError::InviteNotFound
  );
  assert_eq!(
    get_invite(&store, "unknown").unwrap_err(),
    EphemerideError::InviteNotFound
  );
}

#[test]
fn an_invite_falls_back_on_a_fresh_code() {
  let mut store = Store::new();
  let _ = generate_invite_with(
    &mut store,
    Some("welcome"),
    "fresh-1".to_string(),
    "i1".to_string(),
    7,
  );
  let second = generate_invite_with(
    &mut store,
    Some("welcome"),
    "fresh-2".to_string(),
    "i2".to_string(),
    8,
  )
  .unwrap();
  assert_eq!(second.code, "fresh-2");
  let third =
    generate_invite_with(&mut store, None, "fresh-3".to_string(), "i3".to_string(), 9).unwrap();
  assert_eq!(third.code, "fresh-3");
  let same_id =
    generate_invite_with(&mut store, None, "fresh-4".to_string(), "i3".to_string(), 9);
  assert_eq!(same_id.unwrap_err(), EphemerideError::DatabaseError);
  let same_code =
    generate_invite_with(&mut store, None, "fresh-3".to_string(), "i5".to_string(), 9);
  assert_eq!(same_code.unwrap_err(), EphemerideError::DatabaseError);
}

#[test]
fn a_user_starts_with_the_default_categories_and_tags() {
  let mut store = Store::new();
  add_user(&mut store, "u1");
  let categories = get_all_categories(&store, "u1").unwrap();
  let names: Vec<String> = categories.iter().map(|c| c.name.clone()).collect();
  assert_eq!(names, vec!["Activities".to_string(), "Tags".to_string()]);
  let activities = get_category_tags(&store, "u1-c1", "u1").unwrap();
  let names: Vec<String> = activities.iter().map(|t| t.name.clone()).collect();
  assert_eq!(
    names,
    vec!["Work", "Movie", "Exercise", "Read", "Shopping", "Gaming"]
  );
  assert!(activities.iter().all(|t| t.color == "base"));
  let tags = get_category_tags(&store, "u1-c2", "u1").unwrap();
  let described: Vec<(String, String)> = tags
    .iter()
    .map(|t| (t.name.clone(), t.color.clone()))
    .collect();
  assert_eq!(
    described,
    vec![
      ("Travel".to_string(), "base".to_string()),
      ("Important".to_string(), "blue".to_string()),
      ("Sick".to_string(), "red".to_string()),
    ]
  );
}

#[test]
fn default_data_stops_at_the_first_failure() {
  let mut store = Store::new();
  add_user(&mut store, "u1");
  let mut ids = default_ids("again");
  ids.movie = "u1-t1".to_string();
  let result = create_default_data_with(&mut store, "u1".to_string(), &ids, 5);
  assert_eq!(result.unwrap_err(), EphemerideError::DatabaseError);
  assert_eq!(store.categories.len(), 3);
  assert_eq!(store.tags.len(), 10);
  let missing = create_default_data_with(&mut store, "nobody".to_string(), &default_ids("x"), 5);
  assert_eq!(missing.unwrap_err(), EphemerideError::DatabaseError);
}

#[test]
fn sign_up_checks_its_fields() {
  let mut store = Store::new();
  let user = |name: &str, password: &str| CreateUser {
    name: name.to_string(),
    email: "u@example.com".to_string(),
    password: password.to_string(),
    invite: None,
  };
  let ids = default_ids("u");
  let some = || Some("hash".to_string());
  let refused = register_user(&mut store, user("", "password"), true, some(), "u".to_string(), &ids, 1);
  assert_eq!(refused.unwrap_err(), EphemerideError::BadRequest);
  let refused =
    register_user(&mut store, user("name", "short"), true, some(), "u".to_string(), &ids, 1);
  assert_eq!(refused.unwrap_err(), EphemerideError::BadRequest);
  let refused =
    register_user(&mut store, user("name", "password"), false, some(), "u".to_string(), &ids, 1);
  assert_eq!(refused.unwrap_err(), EphemerideError::BadRequest);
  let refused =
    register_user(&mut store, user("name", "password"), true, None, "u".to_string(), &ids, 1);
  assert_eq!(refused.unwrap_err(), EphemerideError::InternalServerError);
  assert!(store.users.is_empty());
  let seven =
    register_user(&mut store, user("name", "1234567"), true, some(), "u".to_string(), &ids, 1);
  let created = seven.unwrap();
  assert_eq!(created.id, "u");
  assert_eq!(created.created_at, 1);
  assert_eq!(created.email, "u@example.com");
  let again =
    register_user(&mut store, user("name", "password"), true, some(), "v".to_string(), &ids, 1);
  assert_eq!(again.unwrap_err(), EphemerideError::EmailAlreadyInUse);
}

#[test]
fn sign_up_hashes_the_password() {
  let mut store = Store::new();
  let created = create_user(
    &mut store,
    CreateUser {
      name: "name".to_string(),
      email: "u@example.com".to_string(),
      password: "password".to_string(),
      invite: None,
    },
    4,
  )
  .unwrap();
  let hash = get_password_hash(&store, &created.id).unwrap();
  assert_ne!(hash, "password");
  assert_eq!(hash.len(), 60);
  assert_eq!(get_user_id(&store, "u@example.com").unwrap(), created.id);
}

#[test]
fn sign_up_refuses_what_is_no_email() {
  let mut store = Store::new();
  let refused = create_user(
    &mut store,
    CreateUser {
      name: "name".to_string(),
      email: "not an email".to_string(),
      password: "password".to_string(),
      invite: None,
    },
    4,
  );
  assert_eq!(refused.unwrap_err(), EphemerideError::BadRequest);
}

#[test]
fn sign_up_fails_inside_for_a_cost_out_of_range() {
  let mut store = Store::new();
  let refused = create_user(
    &mut store,
    CreateUser {
      name: "name".to_string(),
      email: "u@example.com".to_string(),
      password: "password".to_string(),
      invite: None,
    },
    3,
  );
  assert_eq!(refused.unwrap_err(), EphemerideError::InternalServerError);
  assert!(store.users.is_empty());
}

#[test]
fn a_profile_is_updated() {
  let mut store = Store::new();
  add_user(&mut store, "u1");
  add_user(&mut store, "u2");
  let update = |name: &str, email: &str| UpdateUser {
    name: name.to_string(),
    email: email.to_string(),
  };
  assert_eq!(
    update_user_with(&mut store, "u1", update("", "new@example.com"), true),
    Err(EphemerideError::BadRequest)
  );
  assert_eq!(
    update_user_with(&mut store, "u1", update("new", "new@example.com"), false),
    Err(EphemerideError::BadRequest)
  );
  assert_eq!(
    update_user_with(&mut store, "u1", update("new", "u2@example.com"), true),
    Err(EphemerideError::EmailAlreadyInUse)
  );
  assert_eq!(
    update_user_with(&mut store, "nobody", update("new", "new@example.com"), true),
    Ok(false)
  );
  assert_eq!(
    update_user_with(&mut store, "u1", update("new", "new@example.com"), true),
    Ok(true)
  );
  let user = get_user(&store, "u1").unwrap();
  assert_eq!(user.name, "new");
  assert_eq!(user.email, "new@example.com");
  assert_eq!(get_user(&store, "u2").unwrap().name, "name of u2");
}

#[test]
fn a_password_is_replaced() {
  let mut store = Store::new();
  add_user(&mut store, "u1");
  let password = || UpdatePassword {
    password: "new password".to_string(),
  };
  assert_eq!(update_password(&mut store, "u1", password()), Ok(true));
  assert_ne!(get_password_hash(&store, "u1").unwrap(), "hash of u1");
  assert_eq!(update_password(&mut store, "nobody", password()), Ok(false));
  assert_eq!(
    get_password_hash(&store, "nobody").unwrap_err(),
    EphemerideError::UserNotFound
  );
}

#[test]
fn active_users_are_counted_once() {
  let mut store = Store::new();
  add_user(&mut store, "u1");
  add_user(&mut store, "u2");
  add_user(&mut store, "u3");
  for (email, token, at) in [
    ("u1@example.com", "a", 100),
    ("u1@example.com", "b", 200),
    ("u2@example.com", "c", 50),
  ] {
    let _ = create_session_with(
      &mut store,
      email,
      Some(true),
      metadata(),
      token.to_string(),
      at,
    );
  }
  assert_eq!(user_count(&store), Ok(3));
  assert_eq!(active_user_count(&store, 0), Ok(2));
  assert_eq!(active_user_count(&store, 50), Ok(2));
  assert_eq!(active_user_count(&store, 51), Ok(1));
  assert_eq!(active_user_count(&store, 200), Ok(1));
  assert_eq!(active_user_count(&store, 201), Ok(0));
}

#[test]
fn categories_are_listed_by_name() {
  let mut store = Store::new();
  add_user(&mut store, "u1");
  for (id, name) in [("x", "Zebra"), ("y", "Apple"), ("z", "apple")] {
    let created = create_category_with(
      &mut store,
      CreateCategory {
        name: name.to_string(),
        user_id: "u1".to_string(),
      },
      id.to_string(),
      3,
    );
    assert!(created.is_ok());
  }
  let names: Vec<String> = get_all_categories(&store, "u1")
    .unwrap()
    .into_iter()
    .map(|c| c.name)
    .collect();
  assert_eq!(names, vec!["Activities", "Apple", "Tags", "Zebra", "apple"]);
  assert_eq!(
    get_all_categories(&store, "nobody").unwrap_err(),
    EphemerideError::UserNotFound
  );
}

#[test]
fn a_category_id_is_given_out_once() {
  let mut store = Store::new();
  add_user(&mut store, "u1");
  let again = create_category_with(
    &mut store,
    CreateCategory {
      name: "Other".to_string(),
      user_id: "u1".to_string(),
    },
    "u1-c1".to_string(),
    3,
  );
  assert_eq!(again.unwrap_err(), EphemerideError::DatabaseError);
  let nobody = create_category_with(
    &mut store,
    CreateCategory {
      name: "Other".to_string(),
      user_id: "nobody".to_string(),
    },
    "c9".to_string(),
    3,
  );
  assert_eq!(nobody.unwrap_err(), EphemerideError::UserNotFound);
}

#[test]
fn a_tag_needs_a_category_of_its_user() {
  let mut store = Store::new();
  add_user(&mut store, "u1");
  add_user(&mut store, "u2");
  let tag = |category: &str, user: &str| CreateTag {
    name: "Tag".to_string(),
    color: "pink".to_string(),
    category_id: category.to_string(),
    user_id: user.to_string(),
  };
  let foreign = create_tag_with(&mut store, tag("u2-c1", "u1"), Color::Pink, "t".to_string(), 1);
  assert_eq!(foreign.unwrap_err(), EphemerideError::CategoryNotFound);
  let missing = create_tag_with(&mut store, tag("none", "u1"), Color::Pink, "t".to_string(), 1);
  assert_eq!(missing.unwrap_err(), EphemerideError::CategoryNotFound);
  let taken = create_tag_with(&mut store, tag("u1-c1", "u1"), Color::Pink, "u2-t1".to_string(), 1);
  assert_eq!(taken.unwrap_err(), EphemerideError::DatabaseError);
  let created =
    create_tag_with(&mut store, tag("u1-c1", "u1"), Color::Pink, "t".to_string(), 1).unwrap();
  assert_eq!(created.color, "pink");
  assert_eq!(created.category_id, "u1-c1");
  assert_eq!(get_tag(&store, "t", "u1").unwrap().color, "pink");
  assert_eq!(
    get_tag(&store, "t", "u2").unwrap_err(),
    EphemerideError::TagNotFound
  );
  assert_eq!(
    get_tag(&store, "t", "nobody").unwrap_err(),
    EphemerideError::UserNotFound
  );
  let found = get_tags(&store, vec!["t", "u1-t2", "u2-t1", "none"], "u1").unwrap();
  let ids: Vec<String> = found.into_iter().map(|t| t.id).collect();
  assert_eq!(ids, vec!["u1-t2".to_string(), "t".to_string()]);
}

#[test]
fn deleting_a_category_detaches_its_tags() {
  let mut store = Store::new();
  add_user(&mut store, "u1");
  add_entry(
    &mut store,
    "u1",
    "e1",
    "2025-01-01",
    3,
    vec!["u1-t1".to_string(), "u1-t8".to_string()],
  );
  assert_eq!(delete_category(&mut store, "u1-c1", "u1"), Ok(true));
  assert_eq!(delete_category(&mut store, "u1-c1", "u1"), Ok(false));
  assert_eq!(
    get_tag(&store, "u1-t1", "u1").unwrap_err(),
    EphemerideError::TagNotFound
  );
  assert_eq!(store.tags.len(), 3);
  let entry = get_entry_with_tags(&store, "e1", "u1").unwrap();
  assert_eq!(entry.selected_tags, vec!["u1-t8".to_string()]);
  assert_eq!(
    delete_category(&mut store, "u1-c2", "nobody").unwrap_err(),
    EphemerideError::UserNotFound
  );
}

#[test]
fn deleting_a_tag_detaches_it() {
  let mut store = Store::new();
  add_user(&mut store, "u1");
  add_user(&mut store, "u2");
  add_entry(
    &mut store,
    "u1",
    "e1",
    "2025-01-01",
    3,
    vec!["u1-t1".to_string(), "u1-t2".to_string()],
  );
  assert_eq!(delete_tag(&mut store, "u1-t1", "u2"), Ok(false));
  assert_eq!(store.entry_tags.len(), 2);
  assert_eq!(delete_tag(&mut store, "u1-t1", "u1"), Ok(true));
  assert_eq!(delete_tag(&mut store, "u1-t1", "u1"), Ok(false));
  let entry = get_entry_with_tags(&store, "e1", "u1").unwrap();
  assert_eq!(entry.selected_tags, vec!["u1-t2".to_string()]);
}

#[test]
fn deleting_a_user_takes_everything() {
  let mut store = Store::new();
  add_user(&mut store, "u1");
  add_user(&mut store, "u2");
  add_entry(&mut store, "u1", "e1", "2025-01-01", 3, vec!["u1-t1".to_string()]);
  add_entry(&mut store, "u2", "e2", "2025-01-01", 4, vec!["u2-t1".to_string()]);
  let _ = create_session_with(
    &mut store,
    "u1@example.com",
    Some(true),
    metadata(),
    "a".to_string(),
    1,
  );
  assert_eq!(delete_user(&mut store, "u1"), Ok(true));
  assert_eq!(delete_user(&mut store, "u1"), Ok(false));
  assert!(store.sessions.is_empty());
  assert!(store.users.iter().all(|row| row.id != "u1"));
  assert!(store.entries.iter().all(|row| row.user_id != "u1"));
  assert!(store.tags.iter().all(|row| row.user_id != "u1"));
  assert!(store.categories.iter().all(|row| row.user_id != "u1"));
  assert!(store.entry_tags.iter().all(|row| row.entry_id != "e1"));
  assert_eq!(store.entries.len(), 1);
  assert_eq!(store.tags.len(), 9);
  assert_eq!(store.entry_tags.len(), 1);
  assert_eq!(
    get_user(&store, "u1").unwrap_err(),
    EphemerideError::UserNotFound
  );
  assert_eq!(
    get_user_id(&store, "u1@example.com").unwrap_err(),
    EphemerideError::UserNotFound
  );
}

#[test]
fn a_user_has_one_entry_a_day() {
  let mut store = Store::new();
  add_user(&mut store, "u1");
  add_user(&mut store, "u2");
  add_entry(&mut store, "u1", "e1", "2025-01-01", 3, vec![]);
  add_entry(&mut store, "u2", "e2", "2025-01-01", 3, vec![]);
  add_entry(&mut store, "u1", "e3", "2025-01-02", 3, vec![]);
  let entry = |date: &str| CreateEntry {
    date: date.to_string(),
    mood: 1,
    entry: None,
    selected_tags: vec![],
    user_id: "u1".to_string(),
  };
  let again = create_entry_with(
    &mut store,
    entry("2025-01-01"),
    parse_date("2025-01-01"),
    "e4".to_string(),
    1,
  );
  assert_eq!(
    again.unwrap_err(),
    EphemerideError::EntryAlreadyExistsForDate
  );
  let taken = create_entry_with(
    &mut store,
    entry("2025-01-03"),
    parse_date("2025-01-03"),
    "e1".to_string(),
    1,
  );
  assert_eq!(taken.unwrap_err(), EphemerideError::DatabaseError);
  let edit = |id: &str, date: &str| EditEntry {
    id: id.to_string(),
    date: date.to_string(),
    mood: 5,
    entry: Some("changed".to_string()),
    selected_tags: vec!["u1-t3".to_string(), "u2-t1".to_string()],
    user_id: "u1".to_string(),
  };
  assert_eq!(
    edit_entry(&mut store, edit("e1", "2025-01-02")).unwrap_err(),
    EphemerideError::EntryAlreadyExistsForDate
  );
  let kept = edit_entry(&mut store, edit("e1", "2025-01-01")).unwrap();
  assert_eq!(kept.mood, 5);
  assert_eq!(kept.entry, Some("changed".to_string()));
  assert_eq!(kept.selected_tags, vec!["u1-t3".to_string()]);
  let moved = edit_entry(&mut store, edit("e1", "2025-01-05")).unwrap();
  assert_eq!(
    moved.date,
    Date {
      year: 2025,
      month: 1,
      day: 5
    }
  );
  assert_eq!(
    edit_entry(&mut store, edit("e2", "2025-01-09")).unwrap_err(),
    EphemerideError::EntryNotFound
  );
  assert_eq!(
    edit_entry_with(&mut store, edit("e1", "2025-01-06"), None).unwrap_err(),
    EphemerideError::BadRequest
  );
  assert_eq!(
    get_entry_by_date(
      &store,
      Date {
        year: 2025,
        month: 1,
        day: 5
      },
      "u1"
    )
    .unwrap()
    .id,
    "e1"
  );
  assert_eq!(
    get_entry_by_date(
      &store,
      Date {
        year: 2025,
        month: 1,
        day: 1
      },
      "u1"
    )
    .unwrap_err(),
    EphemerideError::EntryNotFound
  );
}

#[test]
fn an_entry_is_deleted_with_its_links() {
  let mut store = Store::new();
  add_user(&mut store, "u1");
  add_user(&mut store, "u2");
  add_entry(&mut store, "u1", "e1", "2025-01-01", 3, vec!["u1-t1".to_string()]);
  assert_eq!(delete_entry(&mut store, "e1", "u2"), Ok(false));
  assert_eq!(store.entry_tags.len(), 1);
  assert_eq!(delete_entry(&mut store, "e1", "u1"), Ok(true));
  assert_eq!(delete_entry(&mut store, "e1", "u1"), Ok(false));
  assert!(store.entry_tags.is_empty());
  assert!(store.entries.is_empty());
  assert_eq!(
    delete_entry(&mut store, "e1", "nobody").unwrap_err(),
    EphemerideError::UserNotFound
  );
  assert_eq!(
    get_entry_with_tags(&store, "e1", "u1").unwrap_err(),
    EphemerideError::EntryNotFound
  );
}

#[test]
fn a_day_must_be_on_the_calendar() {
  let mut store = Store::new();
  add_user(&mut store, "u1");
  for date in ["2025-02-30", "2025-13-01", "2025-00-10", "2025-1-01", "2025-01-32", "20250101"] {
    let refused = create_entry_with(
      &mut store,
      CreateEntry {
        date: date.to_string(),
        mood: 3,
        entry: None,
        selected_tags: vec![],
        user_id: "u1".to_string(),
      },
      parse_date(date),
      "e".to_string(),
      1,
    );
    assert_eq!(refused.unwrap_err(), EphemerideError::BadRequest);
  }
  assert_eq!(parse_date("2025-02-30"), None);
  assert_eq!(
    parse_date("2024-02-29"),
    Some(Date {
      year: 2024,
      month: 2,
      day: 29
    })
  );
  assert_eq!(parse_date("2025-02-29"), None);
  assert!(has_date_shape("2025-02-30"));
  assert!(has_date_shape("0000-12-31"));
  assert!(!has_date_shape("2025-13-01"));
  assert!(!has_date_shape("2025-00-10"));
  assert!(!has_date_shape("2025-10-00"));
  assert!(!has_date_shape("2025-10-32"));
  assert!(!has_date_shape("2025-1-01"));
  assert!(!has_date_shape("2025-10-17 "));
  assert!(!has_date_shape(""));
}

#[test]
fn entries_are_filtered_by_mood() {
  let mut store = Store::new();
  add_user(&mut store, "u1");
  for (id, date, mood) in [
    ("e1", "2025-01-01", 1),
    ("e2", "2025-01-02", 2),
    ("e3", "2025-01-03", 3),
    ("e4", "2025-01-04", 4),
    ("e5", "2025-01-05", 5),
  ] {
    add_entry(&mut store, "u1", id, date, mood, vec![]);
  }
  let mut query = filter(EntryOptionsOrder::DateAsc, 31, 0);
  query.from_mood = Some(3);
  query.to_mood = Some(5);
  assert_eq!(ids_of_page(&store, "u1", &query), vec!["e3", "e4", "e5"]);
  query.to_mood = Some(3);
  assert_eq!(ids_of_page(&store, "u1", &query), vec!["e3"]);
  query.from_mood = Some(4);
  let page = query_entries(&store, "u1", &query).unwrap();
  assert!(page.data.is_empty());
  assert_eq!(page.pagination.total_count, 0);
}

#[test]
fn entries_are_filtered_by_all_of_the_tags() {
  let mut store = Store::new();
  add_user(&mut store, "u1");
  let t1 = "u1-t1".to_string();
  let t2 = "u1-t2".to_string();
  add_entry(&mut store, "u1", "e1", "2025-01-01", 3, vec![t1.clone()]);
  add_entry(&mut store, "u1", "e2", "2025-01-02", 3, vec![t1.clone(), t2.clone()]);
  add_entry(&mut store, "u1", "e3", "2025-01-03", 3, vec![t2.clone()]);
  add_entry(&mut store, "u1", "e4", "2025-01-04", 3, vec![]);
  let mut query = filter(EntryOptionsOrder::DateAsc, 31, 0);
  query.tags = vec![t1.clone()];
  assert_eq!(ids_of_page(&store, "u1", &query), vec!["e1", "e2"]);
  query.tags = vec![t1.clone(), t2.clone()];
  assert_eq!(ids_of_page(&store, "u1", &query), vec!["e2"]);
  query.tags = vec!["none".to_string()];
  assert!(ids_of_page(&store, "u1", &query).is_empty());
  query.tags = vec![];
  assert_eq!(ids_of_page(&store, "u1", &query).len(), 4);
}

#[test]
fn entries_are_filtered_by_day() {
  let mut store = Store::new();
  add_user(&mut store, "u1");
  add_user(&mut store, "u2");
  add_entry(&mut store, "u1", "e1", "2024-12-31", 3, vec![]);
  add_entry(&mut store, "u1", "e2", "2025-01-01", 3, vec![]);
  add_entry(&mut store, "u1", "e3", "2025-01-31", 3, vec![]);
  add_entry(&mut store, "u1", "e4", "2025-02-01", 3, vec![]);
  add_entry(&mut store, "u2", "e5", "2025-01-15", 3, vec![]);
  let found: Vec<String> = get_entries_in_range(&store, "2025-01-01", "2025-01-31", "u1")
    .unwrap()
    .into_iter()
    .map(|entry| entry.id)
    .collect();
  assert_eq!(found, vec!["e2", "e3"]);
  assert_eq!(
    get_entries_in_range(&store, "2025-01-01", "never", "u1").unwrap_err(),
    EphemerideError::BadRequest
  );
  let options = GetEntriesOptions {
    from_date: Some("nonsense".to_string()),
    ..Default::default()
  };
  assert_eq!(
    get_entries(&store, "u1", Some(options)).unwrap_err(),
    EphemerideError::BadRequest
  );
  let options = GetEntriesOptions {
    to_date: Some("2025-02-31".to_string()),
    ..Default::default()
  };
  assert_eq!(
    get_entries(&store, "u1", Some(options)).unwrap_err(),
    EphemerideError::BadRequest
  );
}

#[test]
fn entries_come_in_the_order_asked_for() {
  let mut store = Store::new();
  add_user(&mut store, "u1");
  for (id, date, mood) in [
    ("e1", "2025-01-03", 2),
    ("e2", "2025-01-01", 5),
    ("e3", "2025-01-04", 2),
    ("e4", "2025-01-02", 5),
    ("e5", "2024-12-31", 1),
  ] {
    add_entry(&mut store, "u1", id, date, mood, vec![]);
  }
  let page = |order| ids_of_page(&store, "u1", &filter(order, 0, 0));
  assert_eq!(
    page(EntryOptionsOrder::DateAsc),
    vec!["e5", "e2", "e4", "e1", "e3"]
  );
  assert_eq!(
    page(EntryOptionsOrder::DateDesc),
    vec!["e3", "e1", "e4", "e2", "e5"]
  );
  assert_eq!(
    page(EntryOptionsOrder::MoodAsc),
    vec!["e5", "e1", "e3", "e2", "e4"]
  );
  assert_eq!(
    page(EntryOptionsOrder::MoodDesc),
    vec!["e4", "e2", "e3", "e1", "e5"]
  );
  let newest_first: Vec<String> = get_entries(&store, "u1", None)
    .unwrap()
    .data
    .into_iter()
    .map(|entry| entry.id)
    .collect();
  assert_eq!(newest_first, vec!["e3", "e1", "e4", "e2", "e5"]);
}

#[test]
fn a_page_is_a_window_of_the_matches() {
  let mut store = Store::new();
  add_user(&mut store, "u1");
  for day in 1..=10 {
    add_entry(
      &mut store,
      "u1",
      &format!("e{day}"),
      &format!("2025-03-{day:02}"),
      3,
      vec![],
    );
  }
  let page = query_entries(&store, "u1", &filter(EntryOptionsOrder::DateAsc, 3, 4)).unwrap();
  let ids: Vec<String> = page.data.into_iter().map(|entry| entry.id).collect();
  assert_eq!(ids, vec!["e5", "e6", "e7"]);
  assert_eq!(page.pagination.total_count, 10);
  assert_eq!(page.pagination.limit, 3);
  assert_eq!(page.pagination.offset, 4);
  let tail = query_entries(&store, "u1", &filter(EntryOptionsOrder::DateAsc, 3, 8)).unwrap();
  assert_eq!(tail.data.len(), 2);
  assert_eq!(tail.pagination.total_count, 10);
  let beyond = query_entries(&store, "u1", &filter(EntryOptionsOrder::DateAsc, 3, 10)).unwrap();
  assert!(beyond.data.is_empty());
  assert_eq!(beyond.pagination.total_count, 10);
  let all = query_entries(&store, "u1", &filter(EntryOptionsOrder::DateAsc, 0, 0)).unwrap();
  assert_eq!(all.data.len(), 10);
  assert_eq!(all.pagination.limit, 0);
  let rest = query_entries(&store, "u1", &filter(EntryOptionsOrder::DateAsc, 0, 7)).unwrap();
  assert_eq!(rest.data.len(), 3);
  let unbounded = query_entries(&store, "u1", &filter(EntryOptionsOrder::DateAsc, -5, 0)).unwrap();
  assert_eq!(unbounded.data.len(), 10);
  assert_eq!(unbounded.pagination.limit, -5);
  let refused = query_entries(&store, "u1", &filter(EntryOptionsOrder::DateAsc, 3, -1));
  assert_eq!(refused.unwrap_err(), EphemerideError::DatabaseError);
  let nobody = query_entries(&store, "u2", &filter(EntryOptionsOrder::DateAsc, 3, 0)).unwrap();
  assert!(nobody.data.is_empty());
  assert_eq!(nobody.pagination.total_count, 0);
}

#[test]
fn options_are_read_with_their_defaults() {
  let query = read_options(None).unwrap();
  assert_eq!(query.order, EntryOptionsOrder::DateDesc);
  assert_eq!(query.limit, 31);
  assert_eq!(query.offset, 0);
  assert!(query.tags.is_empty());
  assert_eq!(query.from_date, None);
  let query = read_options(Some(GetEntriesOptions {
    from_date: Some("2025-01-02".to_string()),
    to_date: None,
    tags: Some(vec!["a".to_string()]),
    from_mood: Some(2),
    to_mood: None,
    order: None,
    limit: None,
    offset: None,
  }))
  .unwrap();
  assert_eq!(
    query.from_date,
    Some(Date {
      year: 2025,
      month: 1,
      day: 2
    })
  );
  assert_eq!(query.to_date, None);
  assert_eq!(query.tags, vec!["a".to_string()]);
  assert_eq!(query.from_mood, Some(2));
  assert_eq!(query.order, EntryOptionsOrder::DateDesc);
  assert_eq!(query.limit, 31);
  assert_eq!(query.offset, 0);
  let defaults = GetEntriesOptions::default();
  assert_eq!(defaults.order, Some(EntryOptionsOrder::DateDesc));
  assert_eq!(defaults.limit, Some(31));
  assert_eq!(defaults.offset, Some(0));
}

#[test]
fn texts_are_measured_in_characters() {
  assert!(has_length_within("é", 1, 1));
  assert!(!has_length_within("", 1, 255));
  assert!(has_length_within("", 0, 1000));
  assert!(has_length_within(&"x".repeat(255), 1, 255));
  assert!(!has_length_within(&"x".repeat(256), 1, 255));
  assert!(str_eq("abc", "abc"));
  assert!(!str_eq("abc", "abd"));
  assert!(!str_eq("abc", "ab"));
  assert_eq!(strip_prefix("Bearer x", "Bearer "), "x");
  assert_eq!(strip_prefix("Bear", "Bearer "), "Bear");
  assert_eq!(strip_prefix("x Bearer y", "Bearer "), "x Bearer y");
}

#[test]
fn texts_are_ordered_by_their_bytes() {
  assert!(str_le("", ""));
  assert!(str_le("", "a"));
  assert!(!str_le("a", ""));
  assert!(str_le("a", "a"));
  assert!(str_le("a", "ab"));
  assert!(!str_le("ab", "a"));
  assert!(str_le("Z", "a"));
  assert!(!str_le("b", "a"));
  assert!(str_le("z", "é"));
}

#[test]
fn texts_are_split_at_commas() {
  assert_eq!(split_on_commas("a,b,c"), vec!["a", "b", "c"]);
  assert_eq!(split_on_commas("abc"), vec!["abc"]);
  assert_eq!(split_on_commas(""), vec![""]);
  assert_eq!(split_on_commas("a,"), vec!["a", ""]);
  assert_eq!(split_on_commas(",a"), vec!["", "a"]);
  assert_eq!(split_on_commas(",,"), vec!["", "", ""]);
  assert_eq!(split_on_commas("é,ü"), vec!["é", "ü"]);
}
