//! A tool registry and request dispatcher for a discover/invoke protocol:
//! clients list the callable tools, then invoke one by name with structured
//! arguments and receive text content back.

pub mod model;
pub mod registry;
pub mod tools;
pub mod handler;
