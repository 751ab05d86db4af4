//! Leaf-local recording session types.
//!
//! A recording is stored on the leaf node's local disk (e.g.
//! `E:\nexox-recordings\<session_uuid>\`). Only control commands and
//! session metadata flow over the bus; frame/input streams stay local.
//!
//! Topics:
//!   `nexox/down/record/<node>/cmd`    - RecordCommand (operator to leaf)
//!   `nexox/up/record/<node>/status`   - SessionManifest snapshots
use vstd::prelude::*;

use uuid::Uuid;

use crate::clock::UtcTimestamp;
use crate::text::{is_blank, is_non_empty, is_white_space, non_empty, trims_to_empty};
use crate::validate::PayloadValidation;

verus! {

// ---------------------------------------------------------------------
// Control plane: operator to leaf
// ---------------------------------------------------------------------

/// Command from an operator (CLI subcommand or dashboard button) to the
/// leaf's recording subsystem.
#[derive(Debug, Clone, PartialEq, Eq)]
pub enum RecordCommand {
    /// Begin a new recording session.
    ///
    /// `record_dir` overrides the leaf's default storage path when
    /// provided (e.g. `E:\nexox-recordings` vs `F:\nexox-recordings`).
    /// `target` selects what gets captured: the primary display if None.
    /// On the wire the `target` key may be missing, which reads as None.
    Start { record_dir: Option<String>, target: Option<RecordTarget> },
    /// Flush open files and close the current session.
    Stop,
    /// Return current session state without side effects.
    Status,
}

/// What the recorder should capture for one session.  A `Start` without a
/// target records the primary display.
#[derive(Debug, Clone, PartialEq, Eq)]
pub enum RecordTarget {
    /// One physical monitor, 0-based index matching the live screen
    /// publisher's numbering.
    Display { index: u32 },
    /// One specific window. `title_contains` is a case-insensitive
    /// substring of the window title; the leaf picks the first visible
    /// top-level window whose title matches.  A title that is empty after
    /// trimming white space is invalid (it would match everything).
    Window { title_contains: String },
}

impl RecordTarget {
    /// Every display index is acceptable; a window title must keep some
    /// text once white space is trimmed.
    pub open spec fn valid(&self) -> bool {
        match self {
            RecordTarget::Display { .. } => true,
            RecordTarget::Window { title_contains } => !is_blank(title_contains@),
        }
    }
}

impl PayloadValidation for RecordTarget {
    fn is_valid(&self) -> (b: bool)
        ensures
            b == self.valid(),
    {
        match self {
            RecordTarget::Display { .. } => true,
            RecordTarget::Window { title_contains } => !trims_to_empty(title_contains.as_str()),
        }
    }
}

impl RecordCommand {
    /// `Stop` and `Status` are always acceptable.  A `Start` is acceptable
    /// unless it overrides the storage path with an empty one or names an
    /// invalid target; with no target (the primary display) only the path
    /// matters.
    pub open spec fn valid(&self) -> bool {
        match self {
            RecordCommand::Start { record_dir, target } => {
                &&& (match record_dir {
                    Some(p) => non_empty(p@),
                    None => true,
                })
                &&& (match target {
                    Some(t) => t.valid(),
                    None => true,
                })
            },
            _ => true,
        }
    }
}

impl PayloadValidation for RecordCommand {
    fn is_valid(&self) -> (b: bool)
        ensures
            b == self.valid(),
    {
        match self {
            RecordCommand::Start { record_dir, target } => {
                if let Some(p) = record_dir {
                    if !is_non_empty(p) {
                        return false;
                    }
                }
                match target {
                    Some(t) => t.is_valid(),
                    None => true,
                }
            },
            _ => true,
        }
    }
}

/// A window target with an empty title, or one of white space only, is
/// invalid: it would match every window.
pub proof fn lemma_blank_window_title_invalid(title: String)
    requires
        is_blank(title@),
    ensures
        !(RecordTarget::Window { title_contains: title }).valid(),
{
}

/// A `Start` that names no target (as written before targets existed)
/// records the primary display, and is valid exactly when it does not
/// override the storage path with an empty one.
pub proof fn lemma_start_without_target(record_dir: Option<String>)
    ensures
        (RecordCommand::Start { record_dir, target: None }).valid() <==> !(record_dir matches Some(
            p,
        ) && p@.len() == 0),
{
}

/// A window target is valid exactly when its title holds some char that is
/// not white space; a display target is always valid.
pub proof fn lemma_target_rule(title: String, index: u32)
    ensures
        (RecordTarget::Window { title_contains: title }).valid() <==> exists|i: int|
            0 <= i < title@.len() && !is_white_space(#[trigger] title@[i]),
        (RecordTarget::Display { index }).valid(),
{
}

/// A `Start` that names a target is valid only if that target is valid,
/// whatever the storage path (default or overridden).
pub proof fn lemma_start_checks_target(record_dir: Option<String>, target: RecordTarget)
    ensures
        (RecordCommand::Start { record_dir, target: Some(target) }).valid() ==> target.valid(),
{
}

/// A `Start` aimed at a window whose title is empty or white space only is
/// invalid, with the default storage path as with an override.
pub proof fn lemma_start_blank_window_invalid(record_dir: Option<String>, title: String)
    requires
        is_blank(title@),
    ensures
        !(RecordCommand::Start {
            record_dir,
            target: Some(RecordTarget::Window { title_contains: title }),
        }).valid(),
{
}

/// A `Start` that overrides the storage path with an empty one is invalid,
/// whatever its target.
pub proof fn lemma_start_empty_dir_invalid(dir: String, target: Option<RecordTarget>)
    requires
        dir@.len() == 0,
    ensures
        !(RecordCommand::Start { record_dir: Some(dir), target }).valid(),
{
}

/// A `Start` with the default path or a non-empty override, and with no
/// target or a valid one, is valid; `Stop` and `Status` are always valid.
pub proof fn lemma_start_valid_when(record_dir: Option<String>, target: Option<RecordTarget>)
    requires
        record_dir matches Some(p) ==> p@.len() > 0,
        target matches Some(t) ==> t.valid(),
    ensures
        (RecordCommand::Start { record_dir, target }).valid(),
        RecordCommand::Stop.valid(),
        RecordCommand::Status.valid(),
{
}

// ---------------------------------------------------------------------
// Input event kinds, as persisted to <session>/input.jsonl
// ---------------------------------------------------------------------

#[derive(Debug, Clone, Copy, PartialEq, Eq, Structural)]
pub enum InputDevice {
    Keyboard,
    Mouse,
}

#[derive(Debug, Clone, Copy, PartialEq, Eq, Structural)]
pub enum InputAction {
    KeyDown,
    KeyUp,
    MouseMove,
    MouseDown,
    MouseUp,
    MouseScroll,
}

/// Lock-key snapshot at event time.
#[derive(Debug, Clone, Copy, Default, PartialEq, Eq, Structural)]
pub struct LockState {
    pub caps: bool,
    pub num: bool,
    pub scroll: bool,
}

#[derive(Debug, Clone, Copy, PartialEq, Eq, Structural)]
pub enum MouseButton {
    Left,
    Right,
    Middle,
    X1,
    X2,
}

// ---------------------------------------------------------------------
// Session manifest: written once at start, mutated at stop/crash-recover
// ---------------------------------------------------------------------

/// Kept as a JSON file in the session directory. Serves both as session metadata
/// and as a crash marker: on restart, any manifest still in `Recording`
/// state is either resumed or promoted to `Crashed`.
#[derive(Debug, Clone, PartialEq, Eq)]
pub struct SessionManifest {
    pub session_id: Uuid,
    pub node_id: String,
    pub start_utc: UtcTimestamp,
    pub stop_utc: Option<UtcTimestamp>,
    pub status: SessionStatus,
    pub record_dir: String,
    pub displays: Vec<SessionDisplay>,
}

#[derive(Debug, Clone, Copy, PartialEq, Eq, Structural)]
pub enum SessionStatus {
    Recording,
    Completed,
    Crashed,
}

#[derive(Debug, Clone, PartialEq, Eq)]
pub struct SessionDisplay {
    pub display_index: u32,
    pub width: u32,
    pub height: u32,
    pub fps: u32,
    pub codec: String,
}

impl SessionManifest {
    /// A manifest names its node and where the session is stored.
    pub open spec fn valid(&self) -> bool {
        non_empty(self.node_id@) && non_empty(self.record_dir@)
    }
}

impl PayloadValidation for SessionManifest {
    fn is_valid(&self) -> (b: bool)
        ensures
            b == self.valid(),
    {
        is_non_empty(&self.node_id) && is_non_empty(&self.record_dir)
    }
}

/// A manifest must name its node and the directory the session is stored
/// in: without either it is invalid, and with both it is valid, whatever
/// its status, times and displays.
pub proof fn lemma_manifest_rule(m: SessionManifest)
    ensures
        m.node_id@.len() == 0 ==> !m.valid(),
        m.record_dir@.len() == 0 ==> !m.valid(),
        m.node_id@.len() > 0 && m.record_dir@.len() > 0 ==> m.valid(),
{
}

} // verus!
