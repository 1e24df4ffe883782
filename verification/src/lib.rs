//! Host side of the SPUD plugin runtime, together with the small pure
//! state machines of the shell around it.

pub mod agent;
pub mod clock;
pub mod command;
pub mod console;
pub mod cursor;
pub mod discovery;
pub mod events;
pub mod failure;
pub mod format;
pub mod fps;
pub mod graphics;
pub mod hud;
pub mod logging;
pub mod manifest;
pub mod modules;
pub mod ordered;
pub mod permissions;
pub mod pixels;
pub mod protocol;
pub mod runtime;
pub mod session;
pub mod sixel;
pub mod state;
pub mod subscriptions;
pub mod text;
pub mod transport;
pub mod version;
