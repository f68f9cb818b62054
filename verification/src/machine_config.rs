//! The machine's configuration: which power source is fitted and where logs arrive.
use vstd::prelude::*;
use crate::file_io::FileIoError;
use crate::miller::miller_register_types::WelderModel;

verus! {

/// File name of the configuration, in the config directory.
pub const MACHINE_CONFIG_PATH: &'static str = "machine_config.json";

pub open spec fn spec_version_mismatch_message() -> Seq<char> {
    "Configuration file version mismatch. Expected fields may not match. This may indicate the file was created with a different version of the software."@
}

#[derive(Debug, Clone, Copy, PartialEq, Eq, Structural)]
pub struct MachineConfig {
    pub welder_model: WelderModel,
    pub udp_logging_port: u16,
    pub ps_ui_disable: bool,
}

impl Default for MachineConfig {
    /// A Maxstar 210, logs on UDP port 42069, the power source's own panel enabled.
    fn default() -> (c: Self)
        ensures
            c == (MachineConfig {
                welder_model: WelderModel::Maxstar210,
                udp_logging_port: 42069,
                ps_ui_disable: false,
            }),
    {
        Self { welder_model: WelderModel::Maxstar210, udp_logging_port: 42069, ps_ui_disable: false }
    }
}

/// The error for a stored configuration that did not parse. When the text is well-formed
/// JSON whose fields do not fit (`is_data_error`), the file is taken to be from another
/// release and a version-mismatch message is given; otherwise it is a parse error at
/// `path` carrying the parser's message.
pub fn config_parse_error(is_data_error: bool, path: String, parser_message: String) -> (e: FileIoError)
    ensures
        is_data_error ==> (e matches FileIoError::Validation { message } && message@
            == spec_version_mismatch_message()),
        !is_data_error ==> (e matches FileIoError::Serde { path: p, source } && p@ == path@
            && source@ == parser_message@),
{
    if is_data_error {
        FileIoError::Validation {
            message: String::from_str(
                "Configuration file version mismatch. Expected fields may not match. This may indicate the file was created with a different version of the software.",
            ),
        }
    } else {
        FileIoError::Serde { path, source: parser_message }
    }
}

} // verus!
