//! Parameter blocks of the firmware's dialog and utility services, and of
//! the remote-control library.
//!
//! These are plain data declarations: the engine only assembles and hands
//! them over, the firmware interprets them. Fields that the firmware fills
//! in are documented as such.

use vstd::prelude::*;

verus! {

/// The header every utility dialog shares.
#[derive(Debug, Copy, Clone)]
pub struct DialogCommon {
    /// Size of the structure.
    pub size: u32,
    /// Language.
    pub language: i32,
    /// Set to 1 to swap the confirm and cancel buttons.
    pub button_swap: i32,
    /// Graphics thread priority.
    pub graphics_thread: i32,
    /// Access/fileio thread priority.
    pub access_thread: i32,
    /// Font thread priority.
    pub font_thread: i32,
    /// Sound thread priority.
    pub sound_thread: i32,
    /// Result, filled in by the firmware.
    pub result: i32,
    pub reserved: [i32; 4],
}

/// What a message dialog shows: an error code or a text message.
#[derive(Debug, Clone, Copy)]
pub enum MsgDialogMode {
    Error,
    Text,
}

/// The button a message dialog was closed with, filled in by the firmware.
#[derive(Debug, Clone, Copy)]
pub enum MsgDialogPressed {
    Unknown1,
    Yes,
    No,
    Back,
}

/// The parameters of a message dialog.
pub struct MsgDialogParams {
    pub base: DialogCommon,
    pub unknown: i32,
    pub mode: MsgDialogMode,
    pub error_value: u32,
    /// The message to display; it may contain embedded linefeeds.
    pub message: [u8; 512],
    pub options: i32,
    pub button_pressed: MsgDialogPressed,
}

/// Ad-hoc networking parameters of the network configuration dialog.
#[derive(Debug, Copy, Clone)]
pub struct NetconfAdhoc {
    pub name: [u8; 8],
    pub timeout: u32,
}

/// What the savedata utility is asked to do.
#[derive(Debug, Copy, Clone)]
pub enum SavedataMode {
    AutoLoad,
    AutoSave,
    Load,
    Save,
    ListLoad,
    ListSave,
    ListDelete,
    Delete,
}

/// The entry a savedata list opens on.
#[derive(Debug, Copy, Clone)]
pub enum SavedataFocus {
    Unknown1,
    FirstList,
    LastList,
    Latest,
    Oldest,
    Unknown2,
    Unknown3,
    FirstEmpty,
    LastEmpty,
}

/// The unencrypted SFO text of a save: what the system software's load and
/// save screens show.
#[derive(Copy, Clone)]
pub struct SavedataSFOParam {
    pub title: [u8; 128],
    pub savedata_title: [u8; 128],
    pub detail: [u8; 1024],
    pub parental_level: u8,
    pub unknown: [u8; 3],
}

/// Whether one game is shared or several.
#[derive(Debug, Copy, Clone)]
pub enum GameSharingMode {
    Single,
    Multiple,
}

/// Whether the shared game is handed over as a file or from memory.
#[derive(Debug, Copy, Clone)]
pub enum GameSharingDataType {
    File,
    Memory,
}

/// One remote-control event of the integrated remote-control library.
#[derive(Debug, Copy, Clone)]
pub struct SircsData {
    pub type_: u8,
    pub cmd: u8,
    pub dev: u16,
}

} // verus!
