pub mod netvarengine;
pub mod netvarmap;
pub mod types;

pub use netvarengine::{get_offset, offset_in_engine, ClientClassTable, NetvarEngine};
pub use netvarmap::NetvarMap;
