//! A minimal native-extension library: it exposes one entry point that
//! returns a fixed greeting as bytes, and a registry that models the
//! load-time step of binding that entry point to its name.

pub mod greeting;
pub mod registry;
