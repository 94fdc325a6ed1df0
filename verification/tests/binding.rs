use krun_config::device::{
    BlkConfig, BoundaryCall, FsConfig, KrunContextSet, VirtioDeviceConfig, VsockAction,
    VsockConfig, SerialConfig, NetConfig, path_to_c_bytes,
};
use krun_config::error::ConfigError;

#[test]
fn blk_prepares_set_root_disk() {
    let blk = BlkConfig { path: "/tmp/disk.img".to_string() };
    let call = blk.krun_ctx_set(7).unwrap();
    assert_eq!(
        call,
        BoundaryCall::SetRootDisk { ctx_id: 7, disk_path: b"/tmp/disk.img\0".to_vec() }
    );
}

#[test]
fn blk_negative_status_is_set_root_disk_failure() {
    let blk = BlkConfig { path: "/tmp/disk.img".to_string() };
    assert_eq!(blk.krun_ctx_status(-1), Err(ConfigError::SetRootDiskFailed));
    assert_eq!(blk.krun_ctx_status(0), Ok(()));
    assert_eq!(blk.krun_ctx_status(1), Ok(()));
}

#[test]
fn blk_nul_path_is_rejected_before_the_boundary() {
    let blk = BlkConfig { path: "/tmp/\0disk".to_string() };
    assert_eq!(
        blk.krun_ctx_set(1),
        Err(ConfigError::PathEncodingError { path: "/tmp/\0disk".to_string() })
    );
}

#[test]
fn vsock_prepares_add_vsock_port() {
    let vsock = VsockConfig {
        port: 1024,
        socket_url: "/tmp/v.sock".to_string(),
        action: VsockAction::Listen,
    };
    let call = vsock.krun_ctx_set(3).unwrap();
    assert_eq!(
        call,
        BoundaryCall::AddVsockPort {
            ctx_id: 3,
            port: 1024,
            socket_path: b"/tmp/v.sock\0".to_vec(),
        }
    );
}

#[test]
fn vsock_negative_status_names_port_and_path() {
    let vsock = VsockConfig {
        port: 1024,
        socket_url: "/tmp/v.sock".to_string(),
        action: VsockAction::Listen,
    };
    assert_eq!(
        vsock.krun_ctx_status(-5),
        Err(ConfigError::AddVsockPortFailed { port: 1024, path: "/tmp/v.sock".to_string() })
    );
    assert_eq!(vsock.krun_ctx_status(0), Ok(()));
}

#[test]
fn fs_prepares_add_virtiofs_with_tag_first() {
    let fs = FsConfig { shared_dir: "/a".to_string(), mount_tag: "/b".to_string() };
    let call = fs.krun_ctx_set(9).unwrap();
    assert_eq!(
        call,
        BoundaryCall::AddVirtiofs {
            ctx_id: 9,
            mount_tag: b"/b\0".to_vec(),
            shared_dir: b"/a\0".to_vec(),
        }
    );
}

#[test]
fn fs_negative_status_names_dir_and_tag() {
    let fs = FsConfig { shared_dir: "/a".to_string(), mount_tag: "/b".to_string() };
    assert_eq!(
        fs.krun_ctx_status(-1),
        Err(ConfigError::AddVirtiofsFailed {
            shared_dir: "/a".to_string(),
            mount_tag: "/b".to_string(),
        })
    );
}

#[test]
fn unimplemented_variants_fail_hard() {
    let rng = VirtioDeviceConfig::Rng;
    assert_eq!(rng.krun_ctx_set(1), Err(ConfigError::NotImplemented));
    assert_eq!(rng.krun_ctx_status(0), Err(ConfigError::NotImplemented));
    let serial = VirtioDeviceConfig::Serial(SerialConfig { log_file_path: "/l".to_string() });
    assert_eq!(serial.krun_ctx_set(1), Err(ConfigError::NotImplemented));
    let net = VirtioDeviceConfig::Net(NetConfig {
        unix_socket_path: "/n".to_string(),
        mac_address: "aa".to_string(),
    });
    assert_eq!(net.krun_ctx_set(1), Err(ConfigError::NotImplemented));
}

#[test]
fn device_dispatch_binds_like_the_variant() {
    let dev = VirtioDeviceConfig::from_str("virtio-blk,path=/tmp/disk.img").unwrap();
    let call = dev.krun_ctx_set(2).unwrap();
    assert_eq!(
        call,
        BoundaryCall::SetRootDisk { ctx_id: 2, disk_path: b"/tmp/disk.img\0".to_vec() }
    );
    assert_eq!(dev.krun_ctx_status(-3), Err(ConfigError::SetRootDiskFailed));
}

#[test]
fn path_encoding_appends_terminator() {
    assert_eq!(path_to_c_bytes(&"/x".to_string()), Ok(b"/x\0".to_vec()));
    assert_eq!(
        path_to_c_bytes(&"a\0b".to_string()),
        Err(ConfigError::PathEncodingError { path: "a\0b".to_string() })
    );
}
