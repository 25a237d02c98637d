pub mod clocks;
pub mod gpio;
pub mod registers;
pub mod serial;
pub mod spi;
