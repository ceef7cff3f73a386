//! A host-agnostic plugin contract: bus negotiation, the lifecycle of a plugin and its
//! editor, the status reported by each process call, incoming note events and the metadata
//! that each plugin protocol needs.
pub mod clap;
pub mod config;
pub mod context;
pub mod editor;
pub mod lifecycle;
pub mod modifiers;
pub mod note;
pub mod platform;
pub mod plugin;
pub mod status;
pub mod vst3;
pub mod window;

pub use clap::ClapPlugin;
pub use config::{BufferConfig, BusConfig};
pub use context::{GuiContext, ProcessContext};
pub use editor::{Editor, EditorHandle, SpawnedEditor};
pub use platform::Platform;
pub use plugin::Plugin;
pub use lifecycle::LifecycleState;
pub use modifiers::{KeyModifiers, ModifiersExt};
pub use note::NoteEvent;
pub use status::ProcessStatus;
pub use vst3::{swap_vst3_uid_byte_order, Vst3Plugin};
pub use window::ParentWindowHandle;
