//! A per-connection bridge between an interactive shell on a pseudo-terminal
//! and a framed, bidirectional network stream.
//!
//! The crate holds the decision logic of such a bridge: routing of inbound
//! frames, the wire grammar of terminal-resize requests, the handshake
//! classification, the shell-selection policy, and the session lifecycle
//! state machine. The surrounding I/O (the network transport, the
//! pseudo-terminal itself, the child process) is driven by a thin host layer
//! that feeds events to this crate and performs the effects it returns.

pub mod handshake;
pub mod laws;
pub mod pty_size;
pub mod recording;
pub mod resize;
pub mod session;
pub mod shell;

pub use handshake::HandshakeDecision;
pub use handshake::LookupResult;
pub use handshake::ProjectRecord;
pub use handshake::RejectStatus;
pub use handshake::classify_handshake;
pub use handshake::project_ref_of_path;
pub use pty_size::PtySize;
pub use pty_size::initial_size;
pub use recording::record_data;
pub use resize::parse_pty_size;
pub use session::DATA_TAG;
pub use session::Effect;
pub use session::Event;
pub use session::RESIZE_TAG;
pub use session::SessionState;
pub use session::frame_output;
pub use shell::CommandSpec;
pub use shell::LaunchError;
pub use shell::shell_command;
