//! Planning and bookkeeping for pulling a GKE cluster up to the newest
//! Kubernetes version that its release channel offers.
//!
//! The library holds the decisions: which upgrade the command-line flags ask
//! for, which version a requested target resolves to against the server
//! configuration, which resource names the GKE API is addressed with, and the
//! order in which the master and the node pools are upgraded and their
//! operations followed. Talking to the GKE API is left to the caller.

pub mod action;
pub mod channel;
pub mod client;
pub mod cluster;
pub mod config;
pub mod laws;
pub mod project;
pub mod pull_up;
pub mod target;
pub mod text;

pub use action::{ActionError, UpgradeAction};
pub use channel::{Channel, ReleaseChannel};
pub use client::GkeClient;
pub use cluster::{Cluster, NodePool};
pub use config::{ReleaseChannelConfig, ServerConfig};
pub use project::project_from_gcloud_output;
pub use pull_up::{Command, Event, Operation, OperationStatus, PullUp, PullUpPlan, Step, plan_steps};
pub use target::{Target, TargetError};
