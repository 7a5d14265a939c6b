//! Driver core for a hardware digital-signature (DS) engine.
//!
//! The engine signs with an RSA private key that software never sees: the
//! key's parameters arrive as an encrypted block, a keyed-hash (HMAC) engine
//! derives the decryption key from a provisioned key slot, and the DS engine
//! decrypts, checks and uses the parameters internally.
//!
//! This crate holds everything the driver decides: which hardware operation
//! comes next, how long a busy engine is waited for, and which result a
//! finished exchange has. It touches no register itself. A caller performs
//! each [`Request`] on the hardware and hands the [`Reply`] back to
//! [`Ds::advance`], until the step is [`Step::Finished`].

pub mod clock;
pub mod data;
pub mod driver;
pub mod error;
pub mod laws;
pub mod protocol;
pub mod run;

pub use clock::{power_up_order, Peripheral, PeripheralClockControl};
pub use data::{DsData, DsDataView, DS_C_LEN, DS_IV_LEN, MAX_RSA_LENGTH};
pub use driver::{result_of, Ds};
pub use error::{Error, Poll};
pub use protocol::{verdict, FaultLatches, KeyId, Phase, PollLimits, Reply, Request, State, Step};
pub use run::{budget, repeat, run, Run};
