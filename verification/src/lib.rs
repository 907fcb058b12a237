//! Verified core of a small desktop shell: the fixed metadata record it
//! reports to its frontend, and the decision logic of the best-effort
//! backend launch (probe the backend, and spawn it only when the probe
//! did not find it running).

pub mod info;
pub mod launch;
