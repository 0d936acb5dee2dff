pub mod captcha;
pub mod dns_probe;
pub mod logs;
pub mod manager;
pub mod proxybridge;
pub mod readiness;
pub mod retry;
pub mod windivert;

pub use manager::{
    InputKind, ProxyEvent, ProxyState, SessionState, StartError, StateSnapshot, StopError,
    SubmitInputError, UiBridge,
};
