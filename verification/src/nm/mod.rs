pub mod conn;
pub mod dns;
pub mod dns_laws;
pub mod dns_model;
pub mod dns_search;
pub mod dns_store;
pub mod nm_dbus;
pub mod search_model;
