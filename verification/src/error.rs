//! Structured errors for the configuration grammar, the per-variant
//! parsers, and the context-binding protocol.

use vstd::prelude::*;

verus! {

/// Mathematical image of [`ConfigError`], with strings as character
/// sequences; contracts are stated over this type.
pub ghost enum ConfigErrorV {
    /// A delimited argument had the wrong number of fields.
    FieldCountMismatch { label: Seq<char>, expected: nat, found: nat },
    /// A `label=value` field carried a label other than the expected one.
    LabelMismatch { expected: Seq<char>, found: Seq<char> },
    /// A field held more than one `=`.
    MalformedField { raw: Seq<char> },
    /// A device specification had no fields at all.
    EmptyDeviceSpec,
    /// The discriminator tag named no known device.
    UnknownDeviceType { tag: Seq<char> },
    /// The bootloader firmware option is not a known one.
    InvalidFirmware { value: Seq<char> },
    /// The bootloader action is not a known one.
    InvalidBootloaderAction { value: Seq<char> },
    /// The vsock port field is not an unsigned 32-bit decimal.
    InvalidPort { raw: Seq<char> },
    /// The vsock action is not a known one.
    InvalidVsockAction { value: Seq<char> },
    /// The shared-filesystem specification had fewer than two fields.
    InsufficientArguments { found: nat },
    /// A path held an embedded NUL and cannot reach the boundary.
    PathEncodingError { path: Seq<char> },
    /// The boundary refused to set the root disk.
    SetRootDiskFailed,
    /// The boundary refused to add the vsock port.
    AddVsockPortFailed { port: u32, path: Seq<char> },
    /// The boundary refused to add the shared filesystem.
    AddVirtiofsFailed { shared_dir: Seq<char>, mount_tag: Seq<char> },
    /// The variant has no binding defined; reaching it is a hard failure.
    NotImplemented,
}

/// Every way a configuration string can be rejected or a binding can
/// fail, with the offending values attached.
#[derive(Clone, Debug, PartialEq, Eq)]
pub enum ConfigError {
    FieldCountMismatch { label: String, expected: usize, found: usize },
    LabelMismatch { expected: String, found: String },
    MalformedField { raw: String },
    EmptyDeviceSpec,
    UnknownDeviceType { tag: String },
    InvalidFirmware { value: String },
    InvalidBootloaderAction { value: String },
    InvalidPort { raw: String },
    InvalidVsockAction { value: String },
    InsufficientArguments { found: usize },
    PathEncodingError { path: String },
    SetRootDiskFailed,
    AddVsockPortFailed { port: u32, path: String },
    AddVirtiofsFailed { shared_dir: String, mount_tag: String },
    NotImplemented,
}

impl View for ConfigError {
    type V = ConfigErrorV;

    open spec fn view(&self) -> ConfigErrorV {
        match self {
            ConfigError::FieldCountMismatch { label, expected, found } => {
                ConfigErrorV::FieldCountMismatch {
                    label: label@,
                    expected: *expected as nat,
                    found: *found as nat,
                }
            },
            ConfigError::LabelMismatch { expected, found } => ConfigErrorV::LabelMismatch {
                expected: expected@,
                found: found@,
            },
            ConfigError::MalformedField { raw } => ConfigErrorV::MalformedField { raw: raw@ },
            ConfigError::EmptyDeviceSpec => ConfigErrorV::EmptyDeviceSpec,
            ConfigError::UnknownDeviceType { tag } => ConfigErrorV::UnknownDeviceType { tag: tag@ },
            ConfigError::InvalidFirmware { value } => ConfigErrorV::InvalidFirmware {
                value: value@,
            },
            ConfigError::InvalidBootloaderAction { value } => ConfigErrorV::InvalidBootloaderAction {
                value: value@,
            },
            ConfigError::InvalidPort { raw } => ConfigErrorV::InvalidPort { raw: raw@ },
            ConfigError::InvalidVsockAction { value } => ConfigErrorV::InvalidVsockAction {
                value: value@,
            },
            ConfigError::InsufficientArguments { found } => ConfigErrorV::InsufficientArguments {
                found: *found as nat,
            },
            ConfigError::PathEncodingError { path } => ConfigErrorV::PathEncodingError {
                path: path@,
            },
            ConfigError::SetRootDiskFailed => ConfigErrorV::SetRootDiskFailed,
            ConfigError::AddVsockPortFailed { port, path } => ConfigErrorV::AddVsockPortFailed {
                port: *port,
                path: path@,
            },
            ConfigError::AddVirtiofsFailed { shared_dir, mount_tag } => {
                ConfigErrorV::AddVirtiofsFailed { shared_dir: shared_dir@, mount_tag: mount_tag@ }
            },
            ConfigError::NotImplemented => ConfigErrorV::NotImplemented,
        }
    }
}

impl DeepView for ConfigError {
    type V = ConfigErrorV;

    open spec fn deep_view(&self) -> ConfigErrorV {
        self.view()
    }
}

/// The ghost image of a parse result: the payload's deep view on success,
/// the error's view on failure.
pub open spec fn res_view<T: DeepView, E: DeepView>(r: Result<T, E>) -> Result<T::V, E::V> {
    match r {
        Ok(t) => Ok(t.deep_view()),
        Err(e) => Err(e.deep_view()),
    }
}

} // verus!
