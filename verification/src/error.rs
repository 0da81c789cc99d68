use crate::text::{decimal, hex_byte, hex_word, push_decimal, push_hex_byte, push_hex_word};
use vstd::prelude::*;
use vstd::string::StringExecFns;

verus! {

/// `std::io::Error`, an I/O failure as the operating system reported it.
/// The library carries it through unopened: nothing is claimed of what it
/// holds.
#[verifier::external_type_specification]
#[verifier::external_body]
pub struct ExIoError(std::io::Error);

/// What can go wrong in the emulator core.
#[derive(Debug)]
pub enum Error {
    /// A cartridge image could not be read.
    IOErr(std::io::Error),
    /// A cartridge image is not a well-formed iNES file.
    FormatErr(String),
    /// The cartridge asks for a mapper that is not emulated.
    UnsupportedMapperErr(u16),
    /// The processor met a byte that encodes no instruction: where, and which.
    InvalidOpcodeErr(u16, u8),
    /// The console was clocked with no cartridge inserted.
    MissingCartErr,
    /// Anything else, such as a failing audio sink.
    OtherErr(String),
}

pub type Result<T> = std::result::Result<T, Error>;

impl Error {
    /// The words that come before the detail of each kind of error.
    pub open spec fn heading(&self) -> Seq<char> {
        match self {
            Error::IOErr(_) => "IO Error: "@,
            Error::FormatErr(_) => "Format Error: "@,
            Error::UnsupportedMapperErr(_) => "Unsupported mapper: "@,
            Error::InvalidOpcodeErr(_, _) => "Invalid Opcode at 0x"@,
            Error::MissingCartErr => "Missing cartridge!"@,
            Error::OtherErr(_) => "Error: "@,
        }
    }

    /// The error in words, for every kind but an I/O failure, whose words
    /// are the operating system's.
    pub open spec fn text(&self) -> Seq<char> {
        match self {
            Error::IOErr(_) => self.heading(),
            Error::FormatErr(detail) => self.heading() + detail@,
            Error::UnsupportedMapperErr(id) => self.heading() + decimal(*id),
            Error::InvalidOpcodeErr(at, opcode) => self.heading() + hex_word(*at) + ": 0x"@
                + hex_byte(*opcode),
            Error::MissingCartErr => self.heading(),
            Error::OtherErr(detail) => self.heading() + detail@,
        }
    }

    pub fn format_err(e: String) -> (r: Error)
        ensures
            r == Error::FormatErr(e),
    {
        Error::FormatErr(e)
    }

    pub fn unsupported_mapper(id: u16) -> (r: Error)
        ensures
            r == Error::UnsupportedMapperErr(id),
    {
        Error::UnsupportedMapperErr(id)
    }

    pub fn invalid_opcode(ip: u16, op: u8) -> (r: Error)
        ensures
            r == Error::InvalidOpcodeErr(ip, op),
    {
        Error::InvalidOpcodeErr(ip, op)
    }

    pub fn missing_cart() -> (r: Error)
        ensures
            r == Error::MissingCartErr,
    {
        Error::MissingCartErr
    }

    pub fn other_error(e: String) -> (r: Error)
        ensures
            r == Error::OtherErr(e),
    {
        Error::OtherErr(e)
    }

    /// The error in words. An I/O failure reads `IO Error: ` and then what
    /// the operating system says of it; every other kind reads exactly as
    /// `text` has it.
    pub fn message(&self) -> (msg: String)
        ensures
            self is IOErr ==> msg@.len() >= self.heading().len() && msg@.subrange(
                0,
                self.heading().len() as int,
            ) == self.heading(),
            !(self is IOErr) ==> msg@ == self.text(),
    {
        match self {
            Error::IOErr(e) => {
                let mut msg = String::from_str("IO Error: ");
                let detail = e.to_string();
                msg.append(detail.as_str());
                assert(msg@.subrange(0, self.heading().len() as int) =~= self.heading());
                msg
            },
            Error::FormatErr(detail) => {
                let mut msg = String::from_str("Format Error: ");
                msg.append(detail.as_str());
                msg
            },
            Error::UnsupportedMapperErr(id) => {
                let mut msg = String::from_str("Unsupported mapper: ");
                push_decimal(&mut msg, *id);
                msg
            },
            Error::InvalidOpcodeErr(at, opcode) => {
                let mut msg = String::from_str("Invalid Opcode at 0x");
                push_hex_word(&mut msg, *at);
                msg.append(": 0x");
                push_hex_byte(&mut msg, *opcode);
                msg
            },
            Error::MissingCartErr => String::from_str("Missing cartridge!"),
            Error::OtherErr(detail) => {
                let mut msg = String::from_str("Error: ");
                msg.append(detail.as_str());
                msg
            },
        }
    }
}

impl From<std::io::Error> for Error {
    fn from(e: std::io::Error) -> (r: Error) {
        Error::IOErr(e)
    }
}

impl vstd::std_specs::convert::FromSpecImpl<std::io::Error> for Error {
    open spec fn obeys_from_spec() -> bool {
        true
    }

    open spec fn from_spec(e: std::io::Error) -> Error {
        Error::IOErr(e)
    }
}

impl From<String> for Error {
    fn from(e: String) -> (r: Error) {
        Error::OtherErr(e)
    }
}

impl vstd::std_specs::convert::FromSpecImpl<String> for Error {
    open spec fn obeys_from_spec() -> bool {
        true
    }

    open spec fn from_spec(e: String) -> Error {
        Error::OtherErr(e)
    }
}

} // verus!
