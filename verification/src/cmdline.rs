//! The layered argument grammar shared by every configuration flag:
//! comma-separated field lists and optionally labelled `label=value`
//! fields.

use vstd::prelude::*;

use crate::bootloader::Config;
use crate::device::VirtioDeviceConfig;
use crate::error::{res_view, ConfigError, ConfigErrorV};
use crate::grammar::{split_chars, split_on, str_eq};

verus! {

/// What [`args_parse`] returns: the comma-split fields of `s`, unless an
/// expected count is given and missed.
pub open spec fn args_parse_spec(s: Seq<char>, label: Seq<char>, sz: Option<usize>) -> Result<
    Seq<Seq<char>>,
    ConfigErrorV,
> {
    let fields = split_chars(s, ',');
    match sz {
        Some(size) => if fields.len() == size {
            Ok(fields)
        } else {
            Err(
                ConfigErrorV::FieldCountMismatch {
                    label,
                    expected: size as nat,
                    found: fields.len(),
                },
            )
        },
        None => Ok(fields),
    }
}

/// Splits a raw argument string on `,`. With `sz` given, the field count
/// must match exactly; `label` only names the argument in the error.
pub fn args_parse(s: String, label: &str, sz: Option<usize>) -> (r: Result<
    Vec<String>,
    ConfigError,
>)
    ensures
        res_view(r) == args_parse_spec(s@, label@, sz),
{
    let list = split_on(s.as_str(), ',');
    match sz {
        Some(size) => {
            if list.len() != size {
                let found = list.len();
                Err(ConfigError::FieldCountMismatch { label: label.to_owned(), expected: size, found })
            } else {
                Ok(list)
            }
        },
        None => Ok(list),
    }
}

/// What [`val_parse`] returns: the value of an optionally labelled field.
/// No `=`: the whole field. One `=`: the right side, provided the left
/// side equals the expected label. More: malformed.
pub open spec fn val_parse_spec(s: Seq<char>, label: Seq<char>) -> Result<Seq<char>, ConfigErrorV> {
    let vals = split_chars(s, '=');
    if vals.len() == 1 {
        Ok(vals[0])
    } else if vals.len() == 2 {
        if vals[0] == label {
            Ok(vals[1])
        } else {
            Err(ConfigErrorV::LabelMismatch { expected: label, found: vals[0] })
        }
    } else {
        Err(ConfigErrorV::MalformedField { raw: s })
    }
}

/// Extracts the value of a field that may carry a `label=` prefix; a
/// present label must equal `label` exactly.
pub fn val_parse(s: String, label: &str) -> (r: Result<String, ConfigError>)
    ensures
        res_view(r) == val_parse_spec(s@, label@),
{
    let vals = split_on(s.as_str(), '=');
    if vals.len() == 1 {
        Ok(vals[0].clone())
    } else if vals.len() == 2 {
        if str_eq(vals[0].as_str(), label) {
            Ok(vals[1].clone())
        } else {
            Err(
                ConfigError::LabelMismatch {
                    expected: label.to_owned(),
                    found: vals[0].clone(),
                },
            )
        }
    } else {
        Err(ConfigError::MalformedField { raw: s })
    }
}

/// The whole command-line surface this crate validates: machine shape,
/// bootloader, and the configured virtio devices in order of occurrence.
pub struct Args {
    pub cpus: u8,
    pub memory: u32,
    pub bootloader: Config,
    pub devices: Vec<VirtioDeviceConfig>,
    pub restful_uri: String,
}

} // verus!
