//! Driving the MuMu Player emulator's `MuMuManager` command line: typed
//! slot indices and settings, the argument lists of each subcommand, and
//! the decisions taken on what the tool answers.
pub mod adb;
pub mod cli;
pub mod control;
pub mod error;
pub mod idx;
pub mod info;
pub mod player_info;
pub mod setting;
pub mod simu;
pub mod text;
pub mod vm_index;
pub mod write_file;

pub use cli::MumuCli;
pub use control::ControlAction;
pub use error::{MumuError, Result};
pub use idx::{Idx, Slot, SlotIndex};
pub use player_info::PlayerInfo;
pub use setting::{
    GpuMode, NetBridgeIpMode, PerformanceMode, RendererMode, RendererStrategy, ResolutionMode,
    Setting,
};
pub use simu::SimuKey;
pub use vm_index::VmIndex;
