//! The concrete actor implementations: each module holds one actor's
//! message handling and its wire encoding.

pub mod accessibility;
pub mod breakpoint;
pub mod browsing_context;
pub mod frame;
pub mod highlighter;
pub mod long_string;
pub mod network_event;
pub mod network_parent;
pub mod node;
pub mod object;
pub mod preference;
pub mod tab;
pub mod thread;
pub mod thread_configuration;
pub mod walker;
