pub mod error;
pub mod record;
pub mod verify_user_token;
