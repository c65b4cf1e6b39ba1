//! Core logic of a terminal SSH command deck: host records and their
//! storage format, endpoint parsing, dashboard navigation, form editing,
//! host-key trust decisions and the release-update decisions.

pub mod backup;
pub mod checksum;
pub mod db_crypto;
pub mod endpoints;
pub mod form;
pub mod home;
pub mod home_layout;
pub mod home_page;
pub mod host_groups;
pub mod host_modal;
pub mod input;
pub mod install;
pub mod migrations;
pub mod host_keys;
pub mod model;
pub mod navigation;
pub mod order;
pub mod paths;
pub mod picker;
pub mod quick_switch;
pub mod reachability;
pub mod routing;
pub mod screen;
pub mod settings;
pub mod ssh_keys;
pub mod ssh_tabs;
pub mod startup;
pub mod store;
pub mod text;
pub mod update;
pub mod version;
pub mod views;
pub mod widgets;
