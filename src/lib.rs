//! Server runtime of a LAN remote-input service: the binary action codec, the
//! key bindings, the client pool, the per-client session state machine, the
//! control plane and the discovery responder.
pub mod actions;
pub mod dispatch;
pub mod keybinds;
pub mod input;
pub mod pool;
pub mod commands;
pub mod server;
pub mod control;
pub mod session;
pub mod discovery;
pub mod sender;
