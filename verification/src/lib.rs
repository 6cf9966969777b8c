//! Register-level logic of the STM32F3 digital-to-analog converter and of the
//! embedded flash controller.
//!
//! The peripherals are described by plain register words: every operation
//! computes the word that has to be written, and the flash sequences are state
//! machines that say which register access comes next.
pub mod bits;
pub mod dac;
pub mod flash;
