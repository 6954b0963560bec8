//! Control of a Shure MV7 USB microphone: its mute state and its DSP position.
//!
//! The library holds the rules of talking to the device and performs no
//! transfer itself. An operation on a session is an
//! [`Exchange`](session::Exchange): it names one request at a time, the caller
//! carries the request out on the device and hands the reply back, and at the
//! end the exchange yields the result and the session.
//!
//! - [`usb`], [`mute`], [`frame`] and [`position`] describe what goes over the
//!   wire: addressing, the mute control's transfers, the text frames of the
//!   command channel, and the mode codes.
//! - [`transport`] names the requests and replies.
//! - [`machine`] is the state machine that says which request follows which
//!   reply, [`session`] runs it, and [`laws`] proves what it guarantees.
//! - [`cli`] maps user commands to operations, and [`error`] lists what can go
//!   wrong.

pub mod cli;
pub mod error;
pub mod frame;
pub mod laws;
pub mod machine;
pub mod mute;
pub mod position;
pub mod session;
pub mod transport;
pub mod usb;
