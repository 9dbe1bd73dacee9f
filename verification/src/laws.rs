//! What holds of the library as a whole, stated over the registry as a
//! mathematical object and proved from its transitions.

pub mod lifecycle;
pub mod registry;
pub mod shutdown;
