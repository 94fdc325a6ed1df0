//! Bootloader configuration: firmware kind, variable store path, and
//! action, parsed from a three-field argument string.

use vstd::prelude::*;

use crate::cmdline::{args_parse, args_parse_spec, val_parse, val_parse_spec};
use crate::error::{res_view, ConfigError, ConfigErrorV};
use crate::grammar::{eq_ignore_case, matches_lowercase};

verus! {

/// The supported bootloader firmware kinds.
#[derive(Clone, Copy, Debug, PartialEq, Eq, Structural)]
pub enum BootloaderFw {
    Efi,
}

impl View for BootloaderFw {
    type V = BootloaderFw;

    open spec fn view(&self) -> BootloaderFw {
        *self
    }
}

impl DeepView for BootloaderFw {
    type V = BootloaderFw;

    open spec fn deep_view(&self) -> BootloaderFw {
        *self
    }
}

/// The supported bootloader actions.
#[derive(Clone, Copy, Debug, PartialEq, Eq, Structural)]
pub enum Action {
    Create,
}

impl View for Action {
    type V = Action;

    open spec fn view(&self) -> Action {
        *self
    }
}

impl DeepView for Action {
    type V = Action;

    open spec fn deep_view(&self) -> Action {
        *self
    }
}

/// What [`BootloaderFw::from_str`] returns: the firmware kind whose name
/// matches `s` up to ASCII case.
pub open spec fn fw_from_str_spec(s: Seq<char>) -> Result<BootloaderFw, ConfigErrorV> {
    if matches_lowercase(s, "efi"@) {
        Ok(BootloaderFw::Efi)
    } else {
        Err(ConfigErrorV::InvalidFirmware { value: s })
    }
}

impl BootloaderFw {
    /// Parses a firmware name, ignoring ASCII case.
    pub fn from_str(s: &str) -> (r: Result<Self, ConfigError>)
        ensures
            res_view(r) == fw_from_str_spec(s@),
    {
        if eq_ignore_case(s, "efi") {
            Ok(BootloaderFw::Efi)
        } else {
            Err(ConfigError::InvalidFirmware { value: s.to_owned() })
        }
    }
}

/// What [`Action::from_str`] returns: the action whose name matches `s`
/// up to ASCII case.
pub open spec fn action_from_str_spec(s: Seq<char>) -> Result<Action, ConfigErrorV> {
    if matches_lowercase(s, "create"@) {
        Ok(Action::Create)
    } else {
        Err(ConfigErrorV::InvalidBootloaderAction { value: s })
    }
}

impl Action {
    /// Parses a bootloader action, ignoring ASCII case.
    pub fn from_str(s: &str) -> (r: Result<Self, ConfigError>)
        ensures
            res_view(r) == action_from_str_spec(s@),
    {
        if eq_ignore_case(s, "create") {
            Ok(Action::Create)
        } else {
            Err(ConfigError::InvalidBootloaderAction { value: s.to_owned() })
        }
    }
}

/// The bootloader's variable store: a path, taken verbatim from an
/// optionally labelled `variable-store=` field.
#[derive(Clone, Debug, PartialEq, Eq)]
pub struct Vstore(pub String);

impl View for Vstore {
    type V = Seq<char>;

    open spec fn view(&self) -> Seq<char> {
        self.0@
    }
}

impl DeepView for Vstore {
    type V = Seq<char>;

    open spec fn deep_view(&self) -> Seq<char> {
        self.view()
    }
}

/// What [`Vstore::from_str`] returns: the value of the
/// `variable-store=` field.
pub open spec fn vstore_from_str_spec(s: Seq<char>) -> Result<Seq<char>, ConfigErrorV> {
    match val_parse_spec(s, "variable-store"@) {
        Ok(value) => Ok(value),
        Err(e) => Err(e),
    }
}

impl Vstore {
    /// Parses the variable store field.
    pub fn from_str(s: &str) -> (r: Result<Self, ConfigError>)
        ensures
            res_view(r) == vstore_from_str_spec(s@),
    {
        match val_parse(s.to_owned(), "variable-store") {
            Ok(value) => Ok(Vstore(value)),
            Err(e) => Err(e),
        }
    }
}

/// Mathematical image of [`Config`].
pub ghost struct ConfigV {
    pub fw: BootloaderFw,
    pub vstore: Seq<char>,
    pub action: Action,
}

/// A validated bootloader configuration.
#[derive(Clone, Debug, PartialEq, Eq)]
pub struct Config {
    pub fw: BootloaderFw,
    pub vstore: String,
    pub action: Action,
}

impl View for Config {
    type V = ConfigV;

    open spec fn view(&self) -> ConfigV {
        ConfigV { fw: self.fw, vstore: self.vstore@, action: self.action }
    }
}

impl DeepView for Config {
    type V = ConfigV;

    open spec fn deep_view(&self) -> ConfigV {
        self.view()
    }
}

/// What [`Config::from_str`] returns: exactly three comma-separated
/// fields — firmware, variable store, action — each validated in turn.
pub open spec fn config_from_str_spec(s: Seq<char>) -> Result<ConfigV, ConfigErrorV> {
    match args_parse_spec(s, "bootloader"@, Some(3usize)) {
        Err(e) => Err(e),
        Ok(fields) => match fw_from_str_spec(fields[0]) {
            Err(e) => Err(e),
            Ok(fw) => match vstore_from_str_spec(fields[1]) {
                Err(e) => Err(e),
                Ok(vstore) => match action_from_str_spec(fields[2]) {
                    Err(e) => Err(e),
                    Ok(action) => Ok(ConfigV { fw, vstore, action }),
                },
            },
        },
    }
}

impl Config {
    /// Parses a full `--bootloader` argument string.
    pub fn from_str(s: &str) -> (r: Result<Self, ConfigError>)
        ensures
            res_view(r) == config_from_str_spec(s@),
    {
        let fields = match args_parse(s.to_owned(), "bootloader", Some(3)) {
            Ok(fields) => fields,
            Err(e) => return Err(e),
        };
        let fw = match BootloaderFw::from_str(fields[0].as_str()) {
            Ok(fw) => fw,
            Err(e) => return Err(e),
        };
        let vstore = match Vstore::from_str(fields[1].as_str()) {
            Ok(v) => v,
            Err(e) => return Err(e),
        };
        let action = match Action::from_str(fields[2].as_str()) {
            Ok(action) => action,
            Err(e) => return Err(e),
        };
        Ok(Config { fw, vstore: vstore.0, action })
    }
}

} // verus!
