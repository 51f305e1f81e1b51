//! A remote dual-pane file manager: the wire codec, the server's request
//! handling and the client's pane state machine.

pub mod text;
pub mod listing;
pub mod protocol;
pub mod framing;
pub mod server;
pub mod menu;
pub mod cache;
pub mod editor;
pub mod pane;
pub mod panes;
