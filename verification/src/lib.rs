//! A confidential tally: values arrive encrypted for one domain, are opened
//! only inside the execution boundary, are counted there, and leave it
//! encrypted again or, for chosen fields, revealed.

pub mod domain;
pub mod instructions;
pub mod laws;
pub mod revealed;
pub mod tally;
pub mod transcoder;
