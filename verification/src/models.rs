//! The records of the four tables, the inputs from which they are made, and
//! the resolvers that read and write them.

pub mod clients;
pub mod users;
pub mod worksites;
