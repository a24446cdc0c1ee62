//! Small building blocks shared by the services.

pub mod color;
pub mod date;
pub mod email;
pub mod error;
pub mod invite_code;
pub mod password;
pub mod text;
pub mod unix_time;

pub use color::Color;
pub use error::EphemerideError;
pub use invite_code::generate_invite_code;
pub use unix_time::unix_ms;
