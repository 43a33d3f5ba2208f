//! Verified core of an OSC pregnancy tracker: the gestation record and its
//! rules, the message dispatch state machine, the time-bounded metadata cache
//! and the connection registry that outbound traffic is routed by.

pub mod duration;
pub mod gestation;
pub mod numeral;
pub mod osc_query_cache;
pub mod osc_server;
pub mod pregancy_handler;
pub mod stored;
pub mod utils;
