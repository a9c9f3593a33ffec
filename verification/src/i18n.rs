//! Error identifiers and the message table. Each failure of the engine is
//! one `Message`; the `I18n` table renders it as text for the host. Only
//! the default wording ships with the library; a host with another string
//! table keys it by the same identifiers.

use vstd::prelude::*;
use vstd::string::StringExecFns;

verus! {

/// Every failure the engine can report, at the API boundary or as a
/// fatal condition that ends the session.
#[derive(Debug)]
pub enum Message {
    /// A global browser object the host needs is missing; carries its name.
    GlobalObjectNotExists(&'static str),
    /// A document element could not be created; carries its tag.
    CreateElementError(&'static str),
    /// The drawing surface gave no 2d context.
    CanvasContextError,
    /// `insert` was called while a cartridge is live.
    CartridgeAlreadyInserted,
    /// The cartridge image has no valid signature, or its declared sizes
    /// exceed the image.
    MalformedFileFormat,
    /// An undefined opcode was dispatched; the session is unusable.
    InvalidInstruction,
    /// A write-only PPU register was read, or a read-only one written.
    InvalidPpuRegisterAccess,
    /// The header names a mapper this engine does not implement.
    MapperNotSupported,
    /// The header asks for four-screen mirroring, which is unavailable.
    MirroringUnavailable,
}

/// The default wording of each message.
pub open spec fn message_text(msg: Message) -> Seq<char> {
    match msg {
        Message::GlobalObjectNotExists(name) => "missing global object: "@ + name@,
        Message::CreateElementError(tag) => "cannot create element: "@ + tag@,
        Message::CanvasContextError => "the canvas has no 2d context"@,
        Message::CartridgeAlreadyInserted => "a cartridge is already inserted"@,
        Message::MalformedFileFormat => "the cartridge image is malformed"@,
        Message::InvalidInstruction => "invalid instruction"@,
        Message::InvalidPpuRegisterAccess => "invalid access to a picture register"@,
        Message::MapperNotSupported => "the cartridge mapper is not supported"@,
        Message::MirroringUnavailable => "the requested mirroring is unavailable"@,
    }
}

impl Message {
    /// Render the message. The locale picks the string table; only the
    /// default table is built in, so every locale renders the default
    /// wording.
    pub fn to_string(&self, locale: &str) -> (r: String)
        ensures
            r@ == message_text(*self),
    {
        let _ = locale;
        match self {
            Message::GlobalObjectNotExists(name) => "missing global object: ".to_owned().concat(
                name,
            ),
            Message::CreateElementError(tag) => "cannot create element: ".to_owned().concat(tag),
            Message::CanvasContextError => "the canvas has no 2d context".to_owned(),
            Message::CartridgeAlreadyInserted => "a cartridge is already inserted".to_owned(),
            Message::MalformedFileFormat => "the cartridge image is malformed".to_owned(),
            Message::InvalidInstruction => "invalid instruction".to_owned(),
            Message::InvalidPpuRegisterAccess => "invalid access to a picture register".to_owned(),
            Message::MapperNotSupported => "the cartridge mapper is not supported".to_owned(),
            Message::MirroringUnavailable => "the requested mirroring is unavailable".to_owned(),
        }
    }
}

/// The message table bound to one locale.
pub struct I18n {
    pub locale: String,
}

impl I18n {
    pub fn new(locale: String) -> (r: I18n)
        ensures
            r.locale@ == locale@,
    {
        I18n { locale }
    }

    /// Render a message in this table's locale.
    pub fn to_string(&self, msg: Message) -> (r: String)
        ensures
            r@ == message_text(msg),
    {
        msg.to_string(self.locale.as_str())
    }
}

} // verus!
