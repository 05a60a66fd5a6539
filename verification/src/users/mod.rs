//! The membership register: users and the roles that say how many books a
//! user may hold at once.

pub mod model;
