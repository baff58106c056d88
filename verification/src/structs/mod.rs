pub mod cmdbutton;
pub mod entity;
pub mod entityflags;
pub mod entityteam;
pub mod item_definition_indices;
pub mod paneltype;
pub mod recvprop;
pub mod studio;
pub mod tracestructs;

pub use cmdbutton::CmdButton;
pub use entity::{EntityHandle, EntityIndex, EntityIterator, EntityLifeState, EntityState};
pub use entityflags::EntityFlags;
pub use entityteam::EntityTeam;
pub use item_definition_indices::ItemDefIndices;
pub use paneltype::PanelType;
pub use recvprop::{CRecvProp, CRecvTable, EPropType};
pub use studio::{HitBoxes, HitGroup, ModType, StudioBoxSet, StudioHdr};
pub use tracestructs::{TraceFilterGeneric, TraceType};
