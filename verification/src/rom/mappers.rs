//! The concrete cartridge mappers this engine implements.

pub mod mapper003;

pub use self::mapper003::Mapper003;
