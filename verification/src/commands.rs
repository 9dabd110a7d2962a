//! Changes to dialog, selection and error state that stay inside the
//! dashboard.
use vstd::prelude::*;
use crate::errors::OperationError;

verus! {

/// A change to the dashboard's own state: dialogs, the selected kild and
/// operation errors.
#[derive(Debug, Clone)]
pub enum UICommand {
    /// Open the dialog that creates a kild.
    OpenCreateDialog,
    /// Open the dialog confirming that a branch's kild is destroyed.
    OpenConfirmDialog { branch: String },
    /// Open the dialog that adds a project.
    OpenAddProjectDialog,
    /// Close whichever dialog is open.
    CloseDialog,
    /// Show an error in the open dialog.
    SetDialogError { message: String },
    /// Select the kild with this session id.
    SelectKild { id: String },
    /// Select no kild.
    ClearSelection,
    /// Record an error for a branch's operation.
    SetError { branch: String, message: String },
    /// Dismiss the error of a branch's operation.
    DismissError { branch: String },
    /// Record the errors of an operation on many kilds.
    SetBulkErrors { errors: Vec<OperationError> },
    /// Dismiss the errors of an operation on many kilds.
    ClearBulkErrors,
}

} // verus!
