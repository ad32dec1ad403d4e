//! Management of a fleet of storage-node services on one host: the registry
//! of services, provisioning, lifecycle, scaling, upgrades and resets, the
//! dashboard state that drives them, and the archive of uploaded files.
pub mod action;
pub mod archive;
pub mod batch;
pub mod dispatcher;
pub mod install;
pub mod lifecycle;
pub mod maintain;
pub mod node_item;
pub mod paths;
pub mod provision;
pub mod registry;
pub mod reset;
pub mod screen;
pub mod status;
pub mod table;
pub mod text;
pub mod upgrade;
