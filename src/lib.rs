//! Supervision of the local backend process of a desktop application: choosing
//! its port, reclaiming what earlier runs left behind, starting it, relaying
//! its output, and tearing it down when the application exits.

pub mod commands;
pub mod decimal;
pub mod launch;
pub mod layout;
pub mod reaper;
pub mod relay;
pub mod scan;
pub mod shutdown;
pub mod sink;
pub mod state;
