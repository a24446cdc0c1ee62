//! The operations of the service, one module for each component.

pub mod auth;
pub mod category;
pub mod entry;
pub mod pagination;
pub mod invite;
pub mod log;
pub mod tag;
pub mod user;

pub use auth::{
    authorize_request, create_user_session, delete_all_user_sessions, delete_user_session,
    get_all_user_sessions, get_user_session_by_id, session_metadata, update_accessed_at, Session,
    SessionMetadata, UserCredentials,
};
pub use entry::GetEntriesOptions as EntryOptions;
pub use invite::{generate_invite, get_invite, use_invite, Invite};
pub use log::{create_default_data, delete_all_user_data};
pub use pagination::{Paginated, PaginationObject};
pub use user::{
    active_user_count, create_user, delete_user, get_password_hash, get_user, get_user_by_email,
    get_user_id, update_password, update_user, user_count, AuthUser, CreateUser, UpdatePassword,
    UpdateUser, User, UserDetails,
};
