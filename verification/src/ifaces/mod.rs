pub mod base;
pub mod inter_ifaces;
pub mod merged;
