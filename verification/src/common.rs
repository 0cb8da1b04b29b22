//! Pieces shared by the two architecture cores: the condition code, the
//! general-purpose register names, the 64K-word memory, and the watcher
//! tables.
pub mod condition_code;
pub mod gpr;
pub mod image;
pub mod instruction;
pub mod memory_16x16;
pub mod watcher_storage;

pub use condition_code::ConditionCode;
pub use gpr::Gpr;
pub use memory_16x16::Memory16x16;
pub use watcher_storage::{WatcherEvent, WatcherSlots};
