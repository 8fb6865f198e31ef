//! The single-slot pending file-dialog request.
//!
//! File-picker dialogs must run on one designated execution context, while
//! the request to open one originates from the UI-event handler.  The slot
//! holds at most one pending request; the mediator (see
//! [`crate::pipeline::file_dialog`]) drains it and clears it immediately,
//! even on cancellation, so a completed dialog is consumed exactly once.

use vstd::prelude::*;

use crate::shape::clone_bytes;

verus! {

/// What the pending-request slot asks of the designated context.
#[derive(Clone, Copy, PartialEq, Eq, Structural, Debug)]
pub enum FileDialogMode {
    /// No dialog is pending.
    Disabled,
    /// An open-file dialog is pending.
    Open,
    /// A save-file dialog is pending.
    Save,
}

impl Default for FileDialogMode {
    /// The slot starts out empty.
    fn default() -> (r: Self)
        ensures
            r == FileDialogMode::Disabled,
    {
        Self::Disabled
    }
}

/// The single-slot pending request: a mode, and for save requests the
/// suggested file name.
pub struct FileDialogState {
    /// The pending request, if any.
    pub mode: FileDialogMode,
    /// Suggested file name of a pending save request.
    pub name: Option<Vec<u8>>,
}

/// Mathematical model of a [`FileDialogState`].
#[verifier::ext_equal]
pub ghost struct DialogV {
    pub mode: FileDialogMode,
    pub name: Option<Seq<u8>>,
}

impl View for FileDialogState {
    type V = DialogV;

    open spec fn view(&self) -> DialogV {
        DialogV {
            mode: self.mode,
            name: match self.name {
                Some(ref n) => Some(n@),
                None => None,
            },
        }
    }
}

/// A pending save request always carries a suggested file name.
pub open spec fn dialog_wf(d: DialogV) -> bool {
    d.mode is Save ==> d.name is Some
}

/// The empty slot.
pub open spec fn spec_dialog_cleared() -> DialogV {
    DialogV { mode: FileDialogMode::Disabled, name: None }
}

impl FileDialogState {
    /// Requests an open-file dialog.
    pub fn open(&mut self)
        ensures
            final(self)@ == (DialogV { mode: FileDialogMode::Open, ..old(self)@ }),
            dialog_wf(final(self)@),
    {
        self.mode = FileDialogMode::Open;
    }

    /// Requests a save-file dialog under the given suggested name.
    pub fn save(&mut self, name: Vec<u8>)
        ensures
            final(self)@ == (DialogV { mode: FileDialogMode::Save, name: Some(name@) }),
            dialog_wf(final(self)@),
    {
        self.mode = FileDialogMode::Save;
        self.name = Some(name);
    }

    /// Empties the slot.
    pub fn clear(&mut self)
        ensures
            final(self)@ == spec_dialog_cleared(),
            dialog_wf(final(self)@),
    {
        self.mode = FileDialogMode::Disabled;
        self.name = None;
    }

    /// The suggested file name of a pending save request.
    pub fn suggested_name(&self) -> (r: Option<Vec<u8>>)
        ensures
            match r {
                Some(n) => self@.name == Some(n@),
                None => self@.name is None,
            },
    {
        match &self.name {
            Some(n) => Some(clone_bytes(n)),
            None => None,
        }
    }
}

impl Default for FileDialogState {
    /// The slot starts out empty.
    fn default() -> (r: Self)
        ensures
            r@ == spec_dialog_cleared(),
    {
        Self { mode: FileDialogMode::Disabled, name: None }
    }
}

} // verus!
