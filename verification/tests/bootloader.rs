use krun_config::bootloader::{Action, BootloaderFw, Config, Vstore};
use krun_config::error::ConfigError;

#[test]
fn bootloader_full_spec() {
    let r = Config::from_str("efi,variable-store=/tmp/vstore,create");
    assert_eq!(
        r,
        Ok(Config {
            fw: BootloaderFw::Efi,
            vstore: "/tmp/vstore".to_string(),
            action: Action::Create,
        })
    );
}

#[test]
fn bootloader_case_insensitive() {
    let r = Config::from_str("EFI,variable-store=/v,Create").unwrap();
    assert_eq!(r.fw, BootloaderFw::Efi);
    assert_eq!(r.action, Action::Create);
}

#[test]
fn bootloader_wrong_field_count() {
    let r = Config::from_str("efi,variable-store=/v");
    assert_eq!(
        r,
        Err(ConfigError::FieldCountMismatch {
            label: "bootloader".to_string(),
            expected: 3,
            found: 2,
        })
    );
}

#[test]
fn bootloader_unknown_firmware() {
    let r = Config::from_str("bios,variable-store=/v,create");
    assert_eq!(r, Err(ConfigError::InvalidFirmware { value: "bios".to_string() }));
}

#[test]
fn bootloader_unknown_action() {
    let r = Config::from_str("efi,variable-store=/v,destroy");
    assert_eq!(
        r,
        Err(ConfigError::InvalidBootloaderAction { value: "destroy".to_string() })
    );
}

#[test]
fn vstore_label_checked() {
    assert_eq!(Vstore::from_str("variable-store=/v"), Ok(Vstore("/v".to_string())));
    assert_eq!(
        Vstore::from_str("store=/v"),
        Err(ConfigError::LabelMismatch {
            expected: "variable-store".to_string(),
            found: "store".to_string(),
        })
    );
}

#[test]
fn firmware_and_action_standalone() {
    assert_eq!(BootloaderFw::from_str("eFi"), Ok(BootloaderFw::Efi));
    assert_eq!(Action::from_str("CREATE"), Ok(Action::Create));
    assert!(BootloaderFw::from_str("ef").is_err());
}
