use ephemeride_backend::services::log::DefaultIds;
use ephemeride_backend::util::error::{error_body, error_message, status_code};
use ephemeride_backend::util::unix_time::timestamp;
use ephemeride_backend::util::{generate_invite_code, unix_ms, Color, EphemerideError};

#[test]
fn test_error_response() {
  let error = EphemerideError::Unauthorized;
  assert_eq!(status_code(error), 401);
  let body = error_body(error);
  assert_eq!(body.code, EphemerideError::Unauthorized);
  assert_eq!(body.message, "Unauthorized");
}

#[test]
fn test_generate_invite_code_uniqueness() {
  let code1 = generate_invite_code();
  let code2 = generate_invite_code();
  assert_ne!(code1, code2);
}

#[test]
fn every_error_has_its_status_and_message() {
  let cases = vec![
    (EphemerideError::Unauthorized, 401, "Unauthorized"),
    (EphemerideError::DatabaseError, 500, "An error occurred"),
    (EphemerideError::InternalServerError, 500, "An error occurred"),
    (EphemerideError::UserNotFound, 404, "User not found"),
    (EphemerideError::InviteNotFound, 404, "Invite not found"),
    (EphemerideError::SessionNotFound, 404, "Session not found"),
    (EphemerideError::CategoryNotFound, 404, "Category not found"),
    (EphemerideError::TagNotFound, 404, "Tag not found"),
    (EphemerideError::EntryNotFound, 404, "Entry not found"),
    (EphemerideError::EmailAlreadyInUse, 409, "Email already in use"),
    (EphemerideError::InvalidPassword, 401, "Invalid password"),
    (EphemerideError::InviteUsed, 409, "Invite already used"),
    (EphemerideError::BadRequest, 400, "Bad request"),
    (
      EphemerideError::EntryAlreadyExistsForDate,
      409,
      "An entry already exists for the given date",
    ),
  ];
  for (error, status, message) in cases {
    assert_eq!(status_code(error), status);
    assert_eq!(error_message(error), message);
  }
}

#[test]
fn colors_are_read_in_any_case() {
  assert_eq!(Color::from("blue"), Color::Blue);
  assert_eq!(Color::from("BLUE"), Color::Blue);
  assert_eq!(Color::from("Green"), Color::Green);
  assert_eq!(Color::from("lime"), Color::Lime);
  assert_eq!(Color::from("yellow"), Color::Yellow);
  assert_eq!(Color::from("orange"), Color::Orange);
  assert_eq!(Color::from("red"), Color::Red);
  assert_eq!(Color::from("purple"), Color::Purple);
  assert_eq!(Color::from("pink"), Color::Pink);
  assert_eq!(Color::from("base"), Color::Base);
}

#[test]
fn unknown_colors_are_base() {
  assert_eq!(Color::from("invalid"), Color::Base);
  assert_eq!(Color::from(""), Color::Base);
  assert_eq!(Color::from("bluish"), Color::Base);
}

#[test]
fn colors_have_lowercase_names() {
  assert_eq!(Color::Base.to_string(), "base");
  assert_eq!(Color::Blue.to_string(), "blue");
  assert_eq!(Color::Green.to_string(), "green");
  assert_eq!(Color::Lime.to_string(), "lime");
  assert_eq!(Color::Yellow.to_string(), "yellow");
  assert_eq!(Color::Orange.to_string(), "orange");
  assert_eq!(Color::Red.to_string(), "red");
  assert_eq!(Color::Purple.to_string(), "purple");
  assert_eq!(Color::Pink.to_string(), "pink");
}

#[test]
fn the_clock_is_past_the_epoch() {
  assert!(unix_ms() > 0);
}

fn has_the_shape_of_an_id(text: &str) -> bool {
  let chars: Vec<char> = text.chars().collect();
  chars.len() == 36
    && chars.iter().enumerate().all(|(place, c)| {
      if place == 8 || place == 13 || place == 18 || place == 23 {
        *c == '-'
      } else {
        matches!(c, '0'..='9' | 'a'..='f')
      }
    })
    && chars[14] == '4'
}

#[test]
fn fresh_codes_have_the_shape_of_ids() {
  for _ in 0..200 {
    assert!(has_the_shape_of_an_id(&generate_invite_code()));
  }
  assert!(!has_the_shape_of_an_id(""));
  assert!(!has_the_shape_of_an_id("67E55044-10B1-426F-9247-BB680E5FE0C8"));
  assert!(has_the_shape_of_an_id("67e55044-10b1-426f-9247-bb680e5fe0c8"));
}

#[test]
fn fresh_default_ids_are_eleven_ids() {
  let ids = DefaultIds::fresh();
  let all = vec![
    ids.activities,
    ids.work,
    ids.movie,
    ids.exercise,
    ids.read,
    ids.shopping,
    ids.gaming,
    ids.tags,
    ids.travel,
    ids.important,
    ids.sick,
  ];
  assert!(all.iter().all(|id| has_the_shape_of_an_id(id)));
  for (i, id) in all.iter().enumerate() {
    assert!(all.iter().skip(i + 1).all(|other| other != id));
  }
}

#[test]
fn a_timestamp_is_the_number_of_milliseconds() {
  assert_eq!(timestamp(None), 0);
  assert_eq!(timestamp(Some(0)), 0);
  assert_eq!(timestamp(Some(1_700_000_000_000)), 1_700_000_000_000);
  assert_eq!(timestamp(Some(i64::MAX as u128)), i64::MAX);
  assert_eq!(timestamp(Some(i64::MAX as u128 + 1)), i64::MIN);
  assert_eq!(timestamp(Some(u64::MAX as u128)), -1);
  assert_eq!(timestamp(Some(1u128 << 64)), 0);
}
