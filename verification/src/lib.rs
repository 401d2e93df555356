//! Evaluation core of a certificate check: compares identity attributes of an
//! X.509 certificate with configured expectations and classifies the remaining
//! validity against a warning and a critical threshold.

pub mod check;
pub mod checker;
pub mod decimal;
pub mod duration;
pub mod x509;
