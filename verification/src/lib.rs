//! Verified core of the ABCDEEZ adaptive-learning application: text helpers,
//! data models, gamification rules, timing, demo tours and navigation state.

pub mod text;
pub mod clock;
pub mod models;
pub mod state;
pub mod demo;
pub mod gamification;
pub mod timing;
pub mod auth;
pub mod components;
pub mod views;
pub mod services;
pub mod ids;
pub mod chance;
pub mod utils;
