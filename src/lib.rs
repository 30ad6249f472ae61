//! Relaying keyboard and mouse input to a remote machine over an untrusted
//! network: a length-prefixed frame codec, a verifier pinned to one peer
//! certificate, the plain/secure transporter, the client and server session
//! state machines and the server's session manager, together with the
//! capturing side's decisions of when and what to relay.

pub mod capture;
pub mod client;
pub mod frame;
pub mod input_event;
pub mod input_source;
pub mod manager;
pub mod pinning;
pub mod protocol;
pub mod server;
pub mod transport;

pub use capture::{App, CaptureState, LocalInputEvent, MousePosition};
pub use client::{ClientAction, ClientError, ClientInput, ClientPhase, ClientSession, State};
pub use frame::{encode_frame, poke_frame, FrameError, MessageReader, MAX_FRAME_LEN};
pub use input_event::{InputEvent, KeyCode, MouseButton, MouseScrollDirection};
pub use input_source::{cursor_locked_pos, mouse_position_event, repeat_key, wheel_scroll};
pub use manager::{ManagerAction, ManagerEvent, ManagerView, SessionManager};
pub use pinning::SingleCertVerifier;
pub use protocol::{
    Certificate, ClientMessage, Fingerprint, HelloMessage, HelloReply, HelloReplyError, Message,
    PrivateKey, ServerMessage, UpgradeTransportRequest, UpgradeTransportResponse,
};
pub use server::{
    is_connected, ServerAction, ServerInput, ServerPhase, ServerSession, SessionEnd, SessionState,
};
pub use transport::{ModeError, Transport, Transporter, Upgrading};
