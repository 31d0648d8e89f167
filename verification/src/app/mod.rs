pub mod cmd_result;
pub mod mode;
pub mod panel_id;
pub mod panel_purpose;
pub mod selection;
pub mod state_type;
pub mod status;
pub mod panel_reference;
pub mod sel_info;
pub mod standard_status;
pub mod app_context;
pub mod cmd_context;
pub mod state;
pub mod panel_state;
pub mod app;
pub mod app_panels;
pub mod browser;
