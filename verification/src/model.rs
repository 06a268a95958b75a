pub mod demon;
pub mod player;
pub mod record;
pub mod submitter;
pub mod user;
