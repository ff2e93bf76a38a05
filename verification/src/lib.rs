//! Playtime tracking for launched games: session state, the two tracking
//! strategies, the process locator and the records they keep up to date.

pub mod classic;
pub mod exstatic;
pub mod games;
pub mod images;
pub mod launch;
pub mod locator;
pub mod presence;
pub mod session;
pub mod settings;
pub mod text;
pub mod vndb;
