//! The logic of a terminal client for MySQL and PostgreSQL servers: the tree of saved
//! connections and what is open in it, the lists and editors of the main panel and how the keys
//! move between them, the saved configuration, and the SQL statements that the editors of
//! tables, views, accounts and roles write for what was changed.
use vstd::prelude::*;

pub mod app;
pub mod command_bar;
pub mod config;
pub mod connection;
pub mod connection_list;
pub mod data_list;
pub mod database;
pub mod diff;
pub mod form;
pub mod home;
pub mod index;
pub mod lists;
pub mod mysql_table;
pub mod mysql_user;
pub mod mysql_view;
pub mod panel;
pub mod pattern;
pub mod pg_role;
pub mod pg_table;
pub mod pg_view;
pub mod text;

verus! {
}
