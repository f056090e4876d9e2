//! Plans the expansion of a styleable node's class declaration: reads the
//! target type's header and the property constants with their attributes,
//! names each property's key, and derives a setter when none is declared.

pub mod expand;
pub mod laws;
pub mod model;
pub mod names;
