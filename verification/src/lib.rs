//! Terminal bracket viewer core: domain tree, wire normalizers, provider
//! chain, bracket layout geometry, and navigation state.

pub mod app;
pub mod banner;
pub mod chat;
pub mod clock;
pub mod domain;
pub mod espn;
pub mod layout;
pub mod nav;
pub mod normalize;
pub mod provider;
pub mod session;
pub mod text;
pub mod wire;
pub mod wizard;
