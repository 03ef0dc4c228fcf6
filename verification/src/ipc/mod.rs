pub mod protocol;
pub mod socket;
