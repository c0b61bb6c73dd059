//! Message types, timeouts and handshakes of the lorri daemon protocol, and the
//! results that command-line operations end with.

pub mod ops;
pub mod communicate;
