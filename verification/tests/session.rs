use ephemeride_backend::services;
use ephemeride_backend::services::auth::{
  create_user_session, delete_user_session, get_user_session_by_id, SessionMetadata,
  UserCredentials,
};
use ephemeride_backend::store::Store;
use uuid::Uuid;

#[test]
fn session_creates_a_session() {
  let mut store = Store::new();
  let random_name = Uuid::new_v4().to_string();
  let email = format!("{}@example.com", random_name);
  let password = "password".to_string();

  let user = services::CreateUser {
    name: random_name.clone(),
    email: email.clone(),
    password: password.clone(),
    invite: None,
  };

  let created_user = services::create_user(&mut store, user, 4);

  assert!(created_user.is_ok());

  let found_user = services::get_user_by_email(&store, &email);

  assert!(found_user.is_ok());

  let credentials = UserCredentials {
    email: email.clone(),
    password: password.clone(),
  };
  let metadata = SessionMetadata {
    ip_address: "SYSTEM".to_string(),
    user_agent: "SYSTEM".to_string(),
  };

  let session = create_user_session(&mut store, credentials, metadata);

  assert!(session.is_ok());

  let found_session = get_user_session_by_id(&mut store, &session.unwrap().id);

  assert!(found_session.is_ok());
}

#[test]
fn session_deletes_a_session() {
  let mut store = Store::new();
  let random_name = Uuid::new_v4().to_string();
  let email = format!("{}@example.com", random_name);
  let password = "password".to_string();

  let user = services::CreateUser {
    name: random_name.clone(),
    email: email.clone(),
    password: password.clone(),
    invite: None,
  };

  let created_user = services::create_user(&mut store, user, 4);

  assert!(created_user.is_ok());

  let found_user = services::get_user_by_email(&store, &email);

  assert!(found_user.is_ok());

  let credentials = UserCredentials {
    email: email.clone(),
    password: password.clone(),
  };
  let metadata = SessionMetadata {
    ip_address: "SYSTEM".to_string(),
    user_agent: "SYSTEM".to_string(),
  };

  let session = create_user_session(&mut store, credentials, metadata);

  assert!(session.is_ok());

  let session_id = session.unwrap().id;
  let found_session = get_user_session_by_id(&mut store, &session_id);

  assert!(found_session.is_ok());

  let deleted = delete_user_session(&mut store, &session_id);

  assert!(deleted.unwrap());

  let found_session = get_user_session_by_id(&mut store, &session_id);

  assert!(found_session.is_err());
}
