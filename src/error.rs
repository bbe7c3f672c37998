use vstd::prelude::*;

verus! {

/// Everything that can end an invocation of the controller.
///
/// Failures that come from the file system or the network are carried as the
/// message that the failing collaborator gave.
#[derive(Clone, Debug, PartialEq, Eq)]
pub enum Error {
    /// The per-user directory for the configuration could not be created.
    CreatingPhilipsHueDirectory(String),
    /// No per-user configuration directory is known and no override is set.
    ConfigDirCouldntBeFound,
    /// The configuration file is not a valid document of the expected shape.
    TomlParsing(String),
    /// The configuration could not be written as text.
    TomlSerializing(String),
    /// The configuration file could not be read or written.
    ConfigFileWriting(String),
    /// No bridge address and credential are stored yet.
    NotAuthorized,
    /// The bridge answered with an error or could not be reached.
    PhilipsHue(String),
    /// No bridge was found on the network.
    HueBridgeDiscover(String),
    /// No light has the given number or name.
    NoLightFound,
    /// The bridge asks for its link button to be pressed before pairing.
    LinkButtonNotPressed,
    /// The bridge refused to pair for another reason.
    PairingFailed { code: u64, description: String },
}

} // verus!
