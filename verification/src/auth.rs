//! Sign in with Apple: the requests and results that pass between the app,
//! the iOS bridge and the backend.

pub mod apple;
pub mod ios;
