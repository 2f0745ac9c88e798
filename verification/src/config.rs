//! The configuration of the listener.

use crate::decimal::{parse_u16, u16_value};
use crate::error::AppError;
use vstd::prelude::*;

verus! {

/// The port that the listener binds where none is set.
pub const DEFAULT_PORT: u16 = 80;

/// Where the listener binds.
#[derive(Debug, Clone, Copy)]
pub struct ListenConfig {
    pub port: u16,
}

/// The port that a setting selects: the default where nothing is set, the
/// number that the setting denotes where it denotes a port, and none
/// otherwise.
pub open spec fn selected_port(setting: Option<Seq<char>>) -> Option<u16> {
    match setting {
        None => Some(DEFAULT_PORT),
        Some(text) => u16_value(text),
    }
}

/// The characters of a setting, if there is one.
pub open spec fn setting_text(setting: Option<&str>) -> Option<Seq<char>> {
    match setting {
        Some(text) => Some(text@),
        None => None,
    }
}

impl ListenConfig {
    /// The address that the listener binds: every interface of the machine,
    /// which is the IPv4 address of four zero octets, and the configured
    /// port.
    pub fn bind_address(&self) -> (address: ([u8; 4], u16))
        ensures
            address.0@ == seq![0u8, 0u8, 0u8, 0u8],
            address.1 == self.port,
    {
        let octets: [u8; 4] = [0, 0, 0, 0];
        (octets, self.port)
    }

    /// The configuration that the port setting selects. `setting` is the
    /// value of the port variable, `None` where it is not set. A value that
    /// denotes no port is refused as invalid input.
    pub fn from_port_setting(setting: Option<&str>) -> (config: Result<ListenConfig, AppError>)
        ensures
            match config {
                Ok(listen) => selected_port(setting_text(setting)) == Some(listen.port),
                Err(error) => {
                    &&& selected_port(setting_text(setting)) is None
                    &&& error is InvalidInput
                    &&& error.detail() == "PORT must be a valid number"@
                },
            },
    {
        match setting {
            None => Ok(ListenConfig { port: DEFAULT_PORT }),
            Some(text) => match parse_u16(text) {
                Some(port) => Ok(ListenConfig { port }),
                None => Err(AppError::InvalidInput(String::from("PORT must be a valid number"))),
            },
        }
    }
}

} // verus!
