//! The decisions behind the profile manager's window: what each page shows,
//! in which colours, which controls are live, and what closing the window does.
pub mod assets;
pub mod components;
pub mod cores;
pub mod details;
pub mod exit;
pub mod forms;
pub mod logs;
pub mod profiles;
pub mod proxies;
pub mod settings;
pub mod text;
pub mod theme;
pub mod window;
