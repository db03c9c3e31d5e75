//! Control and conversion logic of a binding to the speexdsp echo canceller,
//! decorrelator and preprocessor: the request codes of the control calls,
//! how values are encoded for them and read back, and how a constructor
//! decides between a state and an error.

pub mod convert;
pub mod ctl;
pub mod error;
