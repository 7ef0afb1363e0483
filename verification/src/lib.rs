//! The verified core of a terminal dashboard for cluster workloads.
//!
//! A background synchronizer copies cluster state into a local key/value
//! cache; a foreground navigation model reads that cache and filters what
//! it shows. Everything here is pure: the state machines say which outside
//! step comes next, and a driver performs it.
//!
//! - The cache: [`keys`] spells the keys, [`store`] keeps entries in memory,
//!   [`sql`] holds the statements for a store on disk, [`json`] the encoding
//!   of what is stored.
//! - The synchronizer: [`sync`] and [`stage2`] are its two stages,
//!   [`schedule`] says which namespace is next, [`pass`] and [`tick`] prove
//!   what a whole run leaves in the cache.
//! - What is known of the cluster: [`namespaces`], [`pods`], [`containers`],
//!   [`logs`].
//! - The front end: [`app`] reads keys and moves between the levels of
//!   [`modes`], [`data`] and [`view`] hold and project what is shown,
//!   [`fuzzy`] narrows it during a search, [`draw`] and [`clock`] give the
//!   texts of a frame.

pub mod app;
pub mod clock;
pub mod containers;
pub mod data;
pub mod draw;
pub mod error;
pub mod fuzzy;
pub mod json;
pub mod keys;
pub mod kube_data;
pub mod logs;
pub mod modes;
pub mod namespaces;
pub mod pass;
pub mod pods;
pub mod schedule;
pub mod sql;
pub mod stage2;
pub mod store;
pub mod sync;
pub mod text;
pub mod tick;
pub mod view;
