//! What the handling of a command in a panel may read and won't modify.

use vstd::prelude::*;
use crate::app::app_context::AppContext;
use crate::app::panel_id::PanelId;
use crate::app::panel_purpose::PanelPurpose;

verus! {

/// the part of the immutable command execution context which comes from the app
pub struct AppCmdContext<'c> {
    /// id of the app's preview panel
    pub preview_panel: Option<PanelId>,
    /// id of the app's stage panel
    pub stage_panel: Option<PanelId>,
    /// width of the screen
    pub screen_width: u16,
    pub con: &'c AppContext,
}

/// the part of the command execution context which comes from the panel
pub struct PanelCmdContext {
    pub purpose: PanelPurpose,
}

} // verus!
