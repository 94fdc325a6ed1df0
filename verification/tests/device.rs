use krun_config::device::{
    BlkConfig, FsConfig, NetConfig, SerialConfig, VirtioDeviceConfig, VsockAction, VsockConfig,
};
use krun_config::error::ConfigError;

#[test]
fn resolve_blk() {
    let r = VirtioDeviceConfig::from_str("virtio-blk,path=/tmp/disk.img");
    assert_eq!(
        r,
        Ok(VirtioDeviceConfig::Blk(BlkConfig { path: "/tmp/disk.img".to_string() }))
    );
}

#[test]
fn resolve_blk_bare_path() {
    let r = VirtioDeviceConfig::from_str("virtio-blk,/tmp/disk.img");
    assert_eq!(
        r,
        Ok(VirtioDeviceConfig::Blk(BlkConfig { path: "/tmp/disk.img".to_string() }))
    );
}

#[test]
fn resolve_blk_field_count() {
    let r = VirtioDeviceConfig::from_str("virtio-blk,path=/a,path=/b");
    assert_eq!(
        r,
        Err(ConfigError::FieldCountMismatch {
            label: "virtio-blk".to_string(),
            expected: 1,
            found: 2,
        })
    );
}

#[test]
fn resolve_blk_without_fields_keeps_empty_path() {
    // A bare tag leaves an empty residual string, which still counts as
    // the one expected field and yields an empty path.
    let r = VirtioDeviceConfig::from_str("virtio-blk");
    assert_eq!(r, Ok(VirtioDeviceConfig::Blk(BlkConfig { path: "".to_string() })));
}

#[test]
fn resolve_vsock_extra_field_is_count_mismatch() {
    let r = VirtioDeviceConfig::from_str("virtio-vsock,port=1,socketURL=/s,listen,extra");
    assert_eq!(
        r,
        Err(ConfigError::FieldCountMismatch {
            label: "virtio-vsock".to_string(),
            expected: 3,
            found: 4,
        })
    );
}

#[test]
fn resolve_rng() {
    let r = VirtioDeviceConfig::from_str("virtio-rng");
    assert_eq!(r, Ok(VirtioDeviceConfig::Rng));
}

#[test]
fn resolve_serial() {
    let r = VirtioDeviceConfig::from_str("virtio-serial,logFilePath=/tmp/serial.log");
    assert_eq!(
        r,
        Ok(VirtioDeviceConfig::Serial(SerialConfig { log_file_path: "/tmp/serial.log".to_string() }))
    );
}

#[test]
fn resolve_vsock() {
    let r = VirtioDeviceConfig::from_str("virtio-vsock,port=1024,socketURL=/tmp/v.sock,listen");
    assert_eq!(
        r,
        Ok(VirtioDeviceConfig::Vsock(VsockConfig {
            port: 1024,
            socket_url: "/tmp/v.sock".to_string(),
            action: VsockAction::Listen,
        }))
    );
}

#[test]
fn resolve_vsock_bad_port() {
    let r = VirtioDeviceConfig::from_str("virtio-vsock,port=abc,socketURL=/tmp/v.sock,listen");
    assert_eq!(r, Err(ConfigError::InvalidPort { raw: "abc".to_string() }));
}

#[test]
fn resolve_vsock_case_insensitive_action() {
    let r = VirtioDeviceConfig::from_str("virtio-vsock,port=1,socketURL=/s,LISTEN");
    assert!(matches!(r, Ok(VirtioDeviceConfig::Vsock(_))));
    let r = VirtioDeviceConfig::from_str("virtio-vsock,port=1,socketURL=/s,connect");
    assert_eq!(
        r,
        Err(ConfigError::InvalidVsockAction { value: "connect".to_string() })
    );
}

#[test]
fn resolve_net() {
    let r = VirtioDeviceConfig::from_str("virtio-net,unixSocketPath=/tmp/net.sock,mac=00:11:22:33:44:55");
    assert_eq!(
        r,
        Ok(VirtioDeviceConfig::Net(NetConfig {
            unix_socket_path: "/tmp/net.sock".to_string(),
            mac_address: "00:11:22:33:44:55".to_string(),
        }))
    );
}

#[test]
fn resolve_fs() {
    let r = VirtioDeviceConfig::from_str("virtio-fs,sharedDir=/a,mountTag=/b");
    assert_eq!(
        r,
        Ok(VirtioDeviceConfig::Fs(FsConfig {
            shared_dir: "/a".to_string(),
            mount_tag: "/b".to_string(),
        }))
    );
}

#[test]
fn resolve_fs_extra_fields_ignored() {
    let r = VirtioDeviceConfig::from_str("virtio-fs,sharedDir=/a,mountTag=/b,extra,fields");
    assert_eq!(
        r,
        Ok(VirtioDeviceConfig::Fs(FsConfig {
            shared_dir: "/a".to_string(),
            mount_tag: "/b".to_string(),
        }))
    );
}

#[test]
fn resolve_fs_insufficient_arguments() {
    let r = VirtioDeviceConfig::from_str("virtio-fs,sharedDir=/a");
    assert_eq!(r, Err(ConfigError::InsufficientArguments { found: 1 }));
}

#[test]
fn resolve_unknown_tag() {
    let r = VirtioDeviceConfig::from_str("virtio-xyz,foo");
    assert_eq!(r, Err(ConfigError::UnknownDeviceType { tag: "virtio-xyz".to_string() }));
}

#[test]
fn resolved_variants_recover_their_tag() {
    let specs = [
        "virtio-blk,path=/tmp/disk.img",
        "virtio-rng",
        "virtio-serial,logFilePath=/l",
        "virtio-vsock,port=1024,socketURL=/tmp/v.sock,listen",
        "virtio-net,unixSocketPath=/n,mac=aa",
        "virtio-fs,sharedDir=/a,mountTag=/b",
    ];
    for spec in specs {
        let dev = VirtioDeviceConfig::from_str(spec).unwrap();
        let tag = spec.split(',').next().unwrap();
        assert_eq!(dev.tag(), tag);
    }
}
