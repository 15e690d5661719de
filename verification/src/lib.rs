//! Verified core of the `imoocs` INIAD MOOCs command-line client.

pub mod assignment;
pub mod auth_cmd;
pub mod auth_flow;
pub mod cli_opts;
pub mod batch;
pub mod confirm;
pub mod doctor;
pub mod drive_target;
pub mod embeds;
pub mod error;
pub mod install;
pub mod js;
pub mod json;
pub mod order;
pub mod reset;
pub mod pages;
pub mod process;
pub mod push_flow;
pub mod session;
pub mod setup;
pub mod skills;
pub mod slide_url;
pub mod snapshot;
pub mod submit;
pub mod text;
