//! Watches a cable modem's diagnostics page for rising error counts and
//! decides when to notify an operator and reboot (or reset) the modem.
pub mod decimal;
pub mod counts;
pub mod page;
pub mod options;
pub mod fanout;
pub mod pipeline;
pub mod credentials;
