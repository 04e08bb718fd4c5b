pub mod baseline;
pub mod event;
pub mod indexed;
pub mod ixa;
pub mod partition;
pub mod population;
pub mod random;
