//! Domain value types and the capability interfaces of the stores.

pub mod data_stores;
pub mod email;
pub mod email_client;
pub mod error;
pub mod login_attempt_id;
pub mod member_id;
pub mod member_name;
pub mod password;
pub mod project_name;
pub mod secret;
pub mod shift;
pub mod two_fa_code;
pub mod user;
pub mod user_id;
pub mod user_password_hash;
pub mod uuid_string;
