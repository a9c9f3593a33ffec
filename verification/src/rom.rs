//! The cartridge: header parsing, the ROM slices, the mapper and the
//! region timing.

pub mod mapper;
pub mod mappers;
pub mod rom;
pub mod slice;
pub mod timing;

pub use self::rom::Rom;
pub use self::timing::Timing;
