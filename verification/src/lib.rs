pub mod text;
pub mod schedule;
pub mod lifecycle;
pub mod shutdown;
pub mod process;
pub mod clock;
pub mod settings;
pub mod tray;
pub mod update;
pub mod commands;
pub mod setting_input;
pub mod schedule_view;
pub mod shutdown_view;
pub mod cmd;
pub mod system_info;
pub mod fps;
pub mod monitor_view;
pub mod paths;
pub mod launcher;
pub mod task_xml;
pub mod autostart;
pub mod mode_request;
pub mod display;
pub mod monitor;
pub mod laws;
