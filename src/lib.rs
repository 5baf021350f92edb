//! Navigation and rendering control for a terminal browser of installed kegs
//! (Windows-application wrappers).
//!
//! - `view`: the registry of views and menus, and the navigation stack.
//! - `app`: the controller's transient state and how keys and menu actions
//!   change it; the snapshot of discovered kegs, engines and wrappers.
//! - `views`: what each content view reports for movement and activation.
//! - `scan`, `paths`: turning directory listings into a snapshot.
//! - `app_config`, `keg`, `keg_plist`, `keg_config`: configuration, kegs and
//!   their editable settings.
//! - `text`, `forms`, `help`: listings, editor forms, prompts and the help
//!   modal.
pub mod app;
pub mod app_config;
pub mod forms;
pub mod help;
pub mod keg;
pub mod keg_config;
pub mod keg_plist;
pub mod paths;
pub mod scan;
pub mod text;
pub mod view;
pub mod views;
