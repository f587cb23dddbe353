pub mod lifecycle;
pub mod secbox;

pub use secbox::SecBox;
