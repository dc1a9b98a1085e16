//! Operations console core: the deployment pipeline that resolves a source
//! reference, submits a build, polls it to a terminal status and promotes it,
//! together with the small rules the chat commands around it rely on.

pub mod lifecycle;
pub mod scheduler;
pub mod text;
pub mod deploy;
pub mod config;
pub mod decimal;
pub mod utilities;
pub mod authorizations;
pub mod commands;
