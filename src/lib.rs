//! Output capture and cancellation supervision for benchmark runs on
//! development boards, together with the workspace layout the builders share.

pub mod layout;
pub mod native;
pub mod rzg3e;
pub mod session;
pub mod streamer;
pub mod text;
pub mod watcher;

pub use layout::{
    board_folder, lvgl_cmakelists, lvgl_folder, lvgl_snapshot_cmakelists, results_path,
    workspace_folder, BuildProcess, FsPath,
};
pub use session::{
    Command, FailReason, Outcome, OutputEvent, Session, SourceKind, State, Step,
    DEFAULT_GRACE_PERIOD_MS, DEFAULT_READ_TIMEOUT_MS,
};
pub use streamer::LineBuffer;
pub use watcher::SentinelWatcher;
