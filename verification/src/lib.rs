pub mod text;
pub mod keys;
pub mod api;
pub mod store;
pub mod types;
pub mod effects;
pub mod ids;
pub mod app;

pub mod onboarding;
pub mod lifecycle;
pub mod msglist;
pub mod sending;
pub mod chatnav;
pub mod chatmove;
pub mod chatkeys;
pub mod friends;
pub mod groups;
pub mod communities;
pub mod inbox;
pub mod broadcasts;
pub mod relay;
pub mod dispatch;
pub mod loads;
pub mod showing;
pub mod history;
pub mod tally;
pub mod discovery;
pub mod display;
pub mod wrap;
pub mod clock;
pub mod keyring;
pub mod laws;
