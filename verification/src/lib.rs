//! Health reporting for an application made of independently running
//! components.
//!
//! Every component owns an observable health cell: a [`HealthUpdater`] writes
//! the component's latest [`Health`], and any number of
//! [`ReactiveHealthCheck`] readers observe it. An [`AppHealthCheck`] keeps the
//! registered checks and folds what they report into one [`AppHealth`], in
//! which the worst reported status dominates.
//!
//! A check may be slow or stuck. How long it is waited for is decided by a
//! [`TimeLimitedCheck`]: past the soft limit the wait goes on, past the hard
//! limit the component counts as [`HealthStatus::NotReady`]. The waiting
//! itself, on a check and on a timer at once, is left to the caller.
//!
//! The contracts speak of views: [`HealthView`] for a health,
//! [`UpdaterView`] for a cell as its updater sees it, [`AppHealthView`] for
//! the health of an application and [`AppHealthCheckView`] for a registry.

pub mod app_health;
pub mod check;
pub mod eth_sender;
pub mod health;
pub mod reactive;
pub mod registry;
pub mod status;
pub mod time_limit;

pub use app_health::{AppHealth, AppHealthView};
pub use check::CheckHealth;
pub use health::{Health, HealthView};
pub use reactive::{HealthUpdater, ReactiveHealthCheck, UpdaterView};
pub use registry::{AppHealthCheck, AppHealthCheckView, Component, Registered};
pub use status::HealthStatus;
pub use time_limit::{CheckEvent, CheckStage, CheckStep, TimeLimitedCheck};
