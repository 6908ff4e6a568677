pub mod controller;
pub mod stats;
pub mod windows;
