pub mod doctor;
pub mod interactive;
pub mod validate;
pub mod write;
