use ephemeride_backend::services::{auth, log, user};
use ephemeride_backend::store::Store;
use uuid::Uuid;

#[test]
fn create_user() {
  let mut store = Store::new();
  let random_name = Uuid::new_v4().to_string();
  let email = format!("{}@example.com", random_name);

  let user = user::CreateUser {
    name: random_name.clone(),
    email: email.clone(),
    password: "password".to_string(),
    invite: None,
  };

  let created_user = user::create_user(&mut store, user, 4);

  assert!(created_user.is_ok());

  let found_user = user::get_user(&store, &created_user.unwrap().id);

  assert!(found_user.is_ok());
  let found_user = found_user.unwrap();
  assert_eq!(found_user.name, random_name);

  let found_categories = log::get_all_categories(&store, &found_user.id);

  assert!(found_categories.is_ok());
  let categories = found_categories.unwrap();
  assert!(categories.len() > 0);

  for category in categories {
    let found_tags = log::get_category_tags(&store, &category.id, &found_user.id);
    assert!(found_tags.is_ok());
    assert!(found_tags.unwrap().len() > 0);
  }
}

#[test]
fn create_user_and_delete() {
  let mut store = Store::new();
  let random_name = Uuid::new_v4().to_string();
  let email = format!("{}@example.com", random_name);

  let user = user::CreateUser {
    name: random_name.clone(),
    email: email.clone(),
    password: "password".to_string(),
    invite: None,
  };

  let created_user = user::create_user(&mut store, user, 4);

  assert!(created_user.is_ok());

  let found_user = user::get_user(&store, &created_user.unwrap().id);

  assert!(found_user.is_ok());

  let deleted = match user::delete_user(&mut store, &found_user.unwrap().id) {
    Ok(deleted) => deleted,
    Err(_) => false,
  };

  assert!(deleted);

  let found_user = user::get_user_id(&store, &email);

  assert!(found_user.is_err());
}

#[test]
fn delete_user_that_does_not_exist() {
  let mut store = Store::new();
  let deleted = match user::delete_user(&mut store, "INVALID_ID") {
    Ok(deleted) => deleted,
    Err(_) => false,
  };

  assert!(!deleted);
}

#[test]
fn updates_user() {
  let mut store = Store::new();
  let random_name = Uuid::new_v4().to_string();
  let email = format!("{}@example.com", random_name);

  let user = user::CreateUser {
    name: random_name.clone(),
    email: email.clone(),
    password: "password".to_string(),
    invite: None,
  };

  let created_user = user::create_user(&mut store, user, 4);

  assert!(created_user.is_ok());

  let found_user = user::get_user(&store, &created_user.unwrap().id);

  assert!(found_user.is_ok());
  let found_user = found_user.unwrap();
  let found_user_name = found_user.name.clone();
  assert_eq!(found_user_name, random_name);

  let new_random_name = Uuid::new_v4().to_string();
  let new_email = format!("{}@example.com", new_random_name);

  let updated_user = user::UpdateUser {
    name: new_random_name.clone(),
    email: new_email.clone(),
  };

  let updated = user::update_user(&mut store, &found_user.id, updated_user);

  assert!(updated.is_ok());

  let found_user = user::get_user(&store, &found_user.id);

  assert!(found_user.is_ok());
  assert_eq!(found_user.unwrap().name, new_random_name);
}

#[test]
fn user_creates_a_session() {
  let mut store = Store::new();
  let random_name = Uuid::new_v4().to_string();
  let email = format!("{}@example.com", random_name);
  let password = "password".to_string();

  let user = user::CreateUser {
    name: random_name.clone(),
    email: email.clone(),
    password: password.clone(),
    invite: None,
  };

  let created_user = user::create_user(&mut store, user, 4);

  assert!(created_user.is_ok());

  let user_id = user::get_user_id(&store, &email);

  assert!(user_id.is_ok());

  let credentials = auth::UserCredentials {
    email: email.clone(),
    password: password.clone(),
  };
  let metadata = auth::SessionMetadata {
    ip_address: "SYSTEM".to_string(),
    user_agent: "SYSTEM".to_string(),
  };

  let session = auth::create_user_session(&mut store, credentials, metadata);

  assert!(session.is_ok());

  let found_session = auth::get_user_session_by_id(&mut store, &session.unwrap().id);

  assert!(found_session.is_ok());
}

#[test]
fn user_deletes_a_session() {
  let mut store = Store::new();
  let random_name = Uuid::new_v4().to_string();
  let email = format!("{}@example.com", random_name);
  let password = "password".to_string();

  let user = user::CreateUser {
    name: random_name.clone(),
    email: email.clone(),
    password: password.clone(),
    invite: None,
  };

  let created_user = user::create_user(&mut store, user, 4);

  assert!(created_user.is_ok());

  let found_user = user::get_user_id(&store, &email);

  assert!(found_user.is_ok());

  let credentials = auth::UserCredentials {
    email: email.clone(),
    password: password.clone(),
  };
  let metadata = auth::SessionMetadata {
    ip_address: "SYSTEM".to_string(),
    user_agent: "SYSTEM".to_string(),
  };

  let session = auth::create_user_session(&mut store, credentials, metadata);

  assert!(session.is_ok());

  let session_id = session.unwrap().id;
  let found_session = auth::get_user_session_by_id(&mut store, &session_id);

  assert!(found_session.is_ok());

  let deleted = auth::delete_user_session(&mut store, &session_id);

  assert!(deleted.unwrap());

  let found_session = auth::get_user_session_by_id(&mut store, &session_id);

  assert!(found_session.is_err());
}

#[test]
fn user_count() {
  let mut store = Store::new();
  let email = format!("{}@example.com", Uuid::new_v4().to_string());
  let _created_user = user::create_user(
    &mut store,
    user::CreateUser {
      name: Uuid::new_v4().to_string(),
      email: email.clone(),
      password: "password".to_string(),
      invite: None,
    },
    4,
  );
  let _session = auth::create_user_session(
    &mut store,
    auth::UserCredentials {
      email,
      password: "password".to_string(),
    },
    auth::SessionMetadata {
      ip_address: "SYSTEM".to_string(),
      user_agent: "SYSTEM".to_string(),
    },
  );

  let count = user::user_count(&store);
  let active_count = user::active_user_count(&store, 0);
  let active_count_max_i64 = user::active_user_count(&store, i64::MAX);

  assert!(count.is_ok());
  assert!(count.unwrap() > 0);
  assert!(active_count.is_ok());
  assert!(active_count.unwrap() > 0);
  assert!(active_count_max_i64.is_ok());
  assert!(active_count_max_i64.unwrap() == 0);
}
