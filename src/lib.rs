pub mod authority;
pub mod database_keys;
pub mod laws;
pub mod leaderboard;
pub mod request_error;
pub mod requests;
pub mod score;
pub mod store;
