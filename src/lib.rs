//! A device agent that bridges a relay (a garage-door opener) and a
//! publish/subscribe broker: liveness announcements, a reconnect policy,
//! a debounced actuation path and an interrupt-driven shutdown.
//!
//! Every decision is a plain function from state and event to next state and
//! action; the program around the library performs the actions.
pub mod debounce;
pub mod door;
pub mod lifecycle;
pub mod liveness;
pub mod message;
pub mod reconnect;
pub mod router;

pub use debounce::{pulse_steps, Debouncer, PinStep, Trigger, DEBOUNCE_WINDOW_MS, PULSE_HOLD_MS};
pub use door::{parse_door_state, DoorState};
pub use lifecycle::{
    after_connect, finish_shutdown, shutdown_steps, ShutdownEnd, ShutdownStep,
    DISCONNECT_TIMEOUT_MS, EXIT_CLEAN, EXIT_CONNECT_FAILED,
};
pub use liveness::{
    build_button_reset, build_offline_message, build_online_message, connection_config,
    ConnectionConfig, BUTTON_QOS, DOOR_QOS, KEEP_ALIVE_SECS, STATUS_QOS,
};
pub use message::{same_text, BusMessage, DeviceProfile};
pub use reconnect::{
    ReconnectEvent, ReconnectOutcome, ReconnectPolicy, ReconnectStep, EXIT_RECONNECT_EXHAUSTED,
    MAX_RECONNECT_ATTEMPTS, RETRY_DELAY_SECS,
};
pub use router::{classify, Action, Agent, MessageKind, Subscription};
