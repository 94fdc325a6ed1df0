//! Virtio device configuration: the closed set of device variants, their
//! per-variant parsers, and the protocol that binds a validated variant to
//! a hypervisor context through one boundary call.

use vstd::prelude::*;
use vstd::string::StrSliceExecFns;
use vstd::utf8::encode_utf8;

use crate::cmdline::{args_parse, args_parse_spec, val_parse, val_parse_spec};
use crate::error::{res_view, ConfigError, ConfigErrorV};
use crate::grammar::{
    join_chars, join_fields, matches_lowercase, eq_ignore_case, parse_u32, parses_as_u32,
    split_chars, str_eq, u32_value,
};

verus! {

/// Mathematical image of [`BlkConfig`].
pub ghost struct BlkConfigV {
    pub path: Seq<char>,
}

/// Block storage: a backing disk image path.
#[derive(Clone, Debug, PartialEq, Eq)]
pub struct BlkConfig {
    pub path: String,
}

impl View for BlkConfig {
    type V = BlkConfigV;

    open spec fn view(&self) -> BlkConfigV {
        BlkConfigV { path: self.path@ }
    }
}

impl DeepView for BlkConfig {
    type V = BlkConfigV;

    open spec fn deep_view(&self) -> BlkConfigV {
        self.view()
    }
}

/// Mathematical image of [`SerialConfig`].
pub ghost struct SerialConfigV {
    pub log_file_path: Seq<char>,
}

/// Serial console: a log file path.
#[derive(Clone, Debug, PartialEq, Eq)]
pub struct SerialConfig {
    pub log_file_path: String,
}

impl View for SerialConfig {
    type V = SerialConfigV;

    open spec fn view(&self) -> SerialConfigV {
        SerialConfigV { log_file_path: self.log_file_path@ }
    }
}

impl DeepView for SerialConfig {
    type V = SerialConfigV;

    open spec fn deep_view(&self) -> SerialConfigV {
        self.view()
    }
}

/// The supported vsock actions.
#[derive(Clone, Copy, Debug, PartialEq, Eq, Structural)]
pub enum VsockAction {
    Listen,
}

impl View for VsockAction {
    type V = VsockAction;

    open spec fn view(&self) -> VsockAction {
        *self
    }
}

impl DeepView for VsockAction {
    type V = VsockAction;

    open spec fn deep_view(&self) -> VsockAction {
        *self
    }
}

/// Mathematical image of [`VsockConfig`].
pub ghost struct VsockConfigV {
    pub port: u32,
    pub socket_url: Seq<char>,
    pub action: VsockAction,
}

/// Vsock: a guest port, a host socket path, and an action.
#[derive(Clone, Debug, PartialEq, Eq)]
pub struct VsockConfig {
    pub port: u32,
    pub socket_url: String,
    pub action: VsockAction,
}

impl View for VsockConfig {
    type V = VsockConfigV;

    open spec fn view(&self) -> VsockConfigV {
        VsockConfigV { port: self.port, socket_url: self.socket_url@, action: self.action }
    }
}

impl DeepView for VsockConfig {
    type V = VsockConfigV;

    open spec fn deep_view(&self) -> VsockConfigV {
        self.view()
    }
}

/// Mathematical image of [`NetConfig`].
pub ghost struct NetConfigV {
    pub unix_socket_path: Seq<char>,
    pub mac_address: Seq<char>,
}

/// Network: a unix socket path and an opaque MAC address string.
#[derive(Clone, Debug, PartialEq, Eq)]
pub struct NetConfig {
    pub unix_socket_path: String,
    pub mac_address: String,
}

impl View for NetConfig {
    type V = NetConfigV;

    open spec fn view(&self) -> NetConfigV {
        NetConfigV { unix_socket_path: self.unix_socket_path@, mac_address: self.mac_address@ }
    }
}

impl DeepView for NetConfig {
    type V = NetConfigV;

    open spec fn deep_view(&self) -> NetConfigV {
        self.view()
    }
}

/// Mathematical image of [`FsConfig`].
pub ghost struct FsConfigV {
    pub shared_dir: Seq<char>,
    pub mount_tag: Seq<char>,
}

/// Shared filesystem: a host directory and the tag it is mounted under.
#[derive(Clone, Debug, PartialEq, Eq)]
pub struct FsConfig {
    pub shared_dir: String,
    pub mount_tag: String,
}

impl View for FsConfig {
    type V = FsConfigV;

    open spec fn view(&self) -> FsConfigV {
        FsConfigV { shared_dir: self.shared_dir@, mount_tag: self.mount_tag@ }
    }
}

impl DeepView for FsConfig {
    type V = FsConfigV;

    open spec fn deep_view(&self) -> FsConfigV {
        self.view()
    }
}

/// Mathematical image of [`VirtioDeviceConfig`].
pub ghost enum VirtioDeviceConfigV {
    Blk(BlkConfigV),
    Rng,
    Serial(SerialConfigV),
    Vsock(VsockConfigV),
    Net(NetConfigV),
    Fs(FsConfigV),
}

/// The closed set of configurable virtio devices.
#[derive(Clone, Debug, PartialEq, Eq)]
pub enum VirtioDeviceConfig {
    Blk(BlkConfig),
    Rng,
    Serial(SerialConfig),
    Vsock(VsockConfig),
    Net(NetConfig),
    Fs(FsConfig),
}

impl View for VirtioDeviceConfig {
    type V = VirtioDeviceConfigV;

    open spec fn view(&self) -> VirtioDeviceConfigV {
        match self {
            VirtioDeviceConfig::Blk(c) => VirtioDeviceConfigV::Blk(c@),
            VirtioDeviceConfig::Rng => VirtioDeviceConfigV::Rng,
            VirtioDeviceConfig::Serial(c) => VirtioDeviceConfigV::Serial(c@),
            VirtioDeviceConfig::Vsock(c) => VirtioDeviceConfigV::Vsock(c@),
            VirtioDeviceConfig::Net(c) => VirtioDeviceConfigV::Net(c@),
            VirtioDeviceConfig::Fs(c) => VirtioDeviceConfigV::Fs(c@),
        }
    }
}

impl DeepView for VirtioDeviceConfig {
    type V = VirtioDeviceConfigV;

    open spec fn deep_view(&self) -> VirtioDeviceConfigV {
        self.view()
    }
}

/// What [`BlkConfig::from_str`] returns: exactly one field, the disk
/// path, optionally labelled `path=`.
pub open spec fn blk_from_str_spec(s: Seq<char>) -> Result<BlkConfigV, ConfigErrorV> {
    match args_parse_spec(s, "virtio-blk"@, Some(1usize)) {
        Err(e) => Err(e),
        Ok(fields) => match val_parse_spec(fields[0], "path"@) {
            Err(e) => Err(e),
            Ok(path) => Ok(BlkConfigV { path }),
        },
    }
}

impl BlkConfig {
    /// Parses the residual argument string of a `virtio-blk` device.
    pub fn from_str(s: &str) -> (r: Result<Self, ConfigError>)
        ensures
            res_view(r) == blk_from_str_spec(s@),
    {
        let fields = match args_parse(s.to_owned(), "virtio-blk", Some(1)) {
            Ok(fields) => fields,
            Err(e) => return Err(e),
        };
        let path = match val_parse(fields[0].clone(), "path") {
            Ok(path) => path,
            Err(e) => return Err(e),
        };
        Ok(BlkConfig { path })
    }
}

/// What [`SerialConfig::from_str`] returns: exactly one field, the log
/// file path, optionally labelled `logFilePath=`.
pub open spec fn serial_from_str_spec(s: Seq<char>) -> Result<SerialConfigV, ConfigErrorV> {
    match args_parse_spec(s, "virtio-serial"@, Some(1usize)) {
        Err(e) => Err(e),
        Ok(fields) => match val_parse_spec(fields[0], "logFilePath"@) {
            Err(e) => Err(e),
            Ok(log_file_path) => Ok(SerialConfigV { log_file_path }),
        },
    }
}

impl SerialConfig {
    /// Parses the residual argument string of a `virtio-serial` device.
    pub fn from_str(s: &str) -> (r: Result<Self, ConfigError>)
        ensures
            res_view(r) == serial_from_str_spec(s@),
    {
        let fields = match args_parse(s.to_owned(), "virtio-serial", Some(1)) {
            Ok(fields) => fields,
            Err(e) => return Err(e),
        };
        let log_file_path = match val_parse(fields[0].clone(), "logFilePath") {
            Ok(path) => path,
            Err(e) => return Err(e),
        };
        Ok(SerialConfig { log_file_path })
    }
}

/// What [`VsockAction::from_str`] returns: the action whose name matches
/// `s` up to ASCII case.
pub open spec fn vsock_action_from_str_spec(s: Seq<char>) -> Result<VsockAction, ConfigErrorV> {
    if matches_lowercase(s, "listen"@) {
        Ok(VsockAction::Listen)
    } else {
        Err(ConfigErrorV::InvalidVsockAction { value: s })
    }
}

impl VsockAction {
    /// Parses a vsock action, ignoring ASCII case.
    pub fn from_str(s: &str) -> (r: Result<Self, ConfigError>)
        ensures
            res_view(r) == vsock_action_from_str_spec(s@),
    {
        if eq_ignore_case(s, "listen") {
            Ok(VsockAction::Listen)
        } else {
            Err(ConfigError::InvalidVsockAction { value: s.to_owned() })
        }
    }
}

/// What [`VsockConfig::from_str`] returns: exactly three fields — a
/// `port=` unsigned 32-bit decimal, a `socketURL=` path, and an action.
pub open spec fn vsock_from_str_spec(s: Seq<char>) -> Result<VsockConfigV, ConfigErrorV> {
    match args_parse_spec(s, "virtio-vsock"@, Some(3usize)) {
        Err(e) => Err(e),
        Ok(fields) => match val_parse_spec(fields[0], "port"@) {
            Err(e) => Err(e),
            Ok(port_str) => if !parses_as_u32(port_str) {
                Err(ConfigErrorV::InvalidPort { raw: port_str })
            } else {
                match val_parse_spec(fields[1], "socketURL"@) {
                    Err(e) => Err(e),
                    Ok(socket_url) => match vsock_action_from_str_spec(fields[2]) {
                        Err(e) => Err(e),
                        Ok(action) => Ok(
                            VsockConfigV {
                                port: u32_value(port_str) as u32,
                                socket_url,
                                action,
                            },
                        ),
                    },
                }
            },
        },
    }
}

impl VsockConfig {
    /// Parses the residual argument string of a `virtio-vsock` device.
    pub fn from_str(s: &str) -> (r: Result<Self, ConfigError>)
        ensures
            res_view(r) == vsock_from_str_spec(s@),
    {
        let fields = match args_parse(s.to_owned(), "virtio-vsock", Some(3)) {
            Ok(fields) => fields,
            Err(e) => return Err(e),
        };
        let port_str = match val_parse(fields[0].clone(), "port") {
            Ok(p) => p,
            Err(e) => return Err(e),
        };
        let port = match parse_u32(port_str.as_str()) {
            Some(port) => port,
            None => return Err(ConfigError::InvalidPort { raw: port_str }),
        };
        let socket_url = match val_parse(fields[1].clone(), "socketURL") {
            Ok(url) => url,
            Err(e) => return Err(e),
        };
        let action = match VsockAction::from_str(fields[2].as_str()) {
            Ok(action) => action,
            Err(e) => return Err(e),
        };
        Ok(VsockConfig { port, socket_url, action })
    }
}

/// What [`NetConfig::from_str`] returns: exactly two fields — a
/// `unixSocketPath=` path and a `mac=` string, stored opaquely.
pub open spec fn net_from_str_spec(s: Seq<char>) -> Result<NetConfigV, ConfigErrorV> {
    match args_parse_spec(s, "virtio-net"@, Some(2usize)) {
        Err(e) => Err(e),
        Ok(fields) => match val_parse_spec(fields[0], "unixSocketPath"@) {
            Err(e) => Err(e),
            Ok(unix_socket_path) => match val_parse_spec(fields[1], "mac"@) {
                Err(e) => Err(e),
                Ok(mac_address) => Ok(NetConfigV { unix_socket_path, mac_address }),
            },
        },
    }
}

impl NetConfig {
    /// Parses the residual argument string of a `virtio-net` device.
    pub fn from_str(s: &str) -> (r: Result<Self, ConfigError>)
        ensures
            res_view(r) == net_from_str_spec(s@),
    {
        let fields = match args_parse(s.to_owned(), "virtio-net", Some(2)) {
            Ok(fields) => fields,
            Err(e) => return Err(e),
        };
        let unix_socket_path = match val_parse(fields[0].clone(), "unixSocketPath") {
            Ok(p) => p,
            Err(e) => return Err(e),
        };
        let mac_address = match val_parse(fields[1].clone(), "mac") {
            Ok(m) => m,
            Err(e) => return Err(e),
        };
        Ok(NetConfig { unix_socket_path, mac_address })
    }
}

/// What [`FsConfig::from_str`] returns: at least two fields — a
/// `sharedDir=` path and a `mountTag=` path; extra trailing fields are
/// tolerated and ignored.
pub open spec fn fs_from_str_spec(s: Seq<char>) -> Result<FsConfigV, ConfigErrorV> {
    let fields = split_chars(s, ',');
    if fields.len() < 2 {
        Err(ConfigErrorV::InsufficientArguments { found: fields.len() })
    } else {
        match val_parse_spec(fields[0], "sharedDir"@) {
            Err(e) => Err(e),
            Ok(shared_dir) => match val_parse_spec(fields[1], "mountTag"@) {
                Err(e) => Err(e),
                Ok(mount_tag) => Ok(FsConfigV { shared_dir, mount_tag }),
            },
        }
    }
}

impl FsConfig {
    /// Parses the residual argument string of a `virtio-fs` device.
    pub fn from_str(s: &str) -> (r: Result<Self, ConfigError>)
        ensures
            res_view(r) == fs_from_str_spec(s@),
    {
        let fields = match args_parse(s.to_owned(), "virtio-fs", None) {
            Ok(fields) => fields,
            Err(e) => return Err(e),
        };
        if fields.len() < 2 {
            let found = fields.len();
            return Err(ConfigError::InsufficientArguments { found });
        }
        let shared_dir = match val_parse(fields[0].clone(), "sharedDir") {
            Ok(d) => d,
            Err(e) => return Err(e),
        };
        let mount_tag = match val_parse(fields[1].clone(), "mountTag") {
            Ok(t) => t,
            Err(e) => return Err(e),
        };
        Ok(FsConfig { shared_dir, mount_tag })
    }
}

/// What [`VirtioDeviceConfig::from_str`] returns: the first field is the
/// device tag; the remaining fields, rejoined with commas, go to the
/// matching per-variant parser.
pub open spec fn device_from_str_spec(s: Seq<char>) -> Result<VirtioDeviceConfigV, ConfigErrorV> {
    let fields = split_chars(s, ',');
    if fields.len() == 0 {
        Err(ConfigErrorV::EmptyDeviceSpec)
    } else {
        let tag = fields[0];
        let rest = join_chars(fields.drop_first(), ',');
        if tag == "virtio-blk"@ {
            match blk_from_str_spec(rest) {
                Ok(c) => Ok(VirtioDeviceConfigV::Blk(c)),
                Err(e) => Err(e),
            }
        } else if tag == "virtio-rng"@ {
            Ok(VirtioDeviceConfigV::Rng)
        } else if tag == "virtio-serial"@ {
            match serial_from_str_spec(rest) {
                Ok(c) => Ok(VirtioDeviceConfigV::Serial(c)),
                Err(e) => Err(e),
            }
        } else if tag == "virtio-vsock"@ {
            match vsock_from_str_spec(rest) {
                Ok(c) => Ok(VirtioDeviceConfigV::Vsock(c)),
                Err(e) => Err(e),
            }
        } else if tag == "virtio-net"@ {
            match net_from_str_spec(rest) {
                Ok(c) => Ok(VirtioDeviceConfigV::Net(c)),
                Err(e) => Err(e),
            }
        } else if tag == "virtio-fs"@ {
            match fs_from_str_spec(rest) {
                Ok(c) => Ok(VirtioDeviceConfigV::Fs(c)),
                Err(e) => Err(e),
            }
        } else {
            Err(ConfigErrorV::UnknownDeviceType { tag })
        }
    }
}

impl VirtioDeviceConfig {
    /// Resolves a full `--device` argument string into a device variant.
    pub fn from_str(s: &str) -> (r: Result<Self, ConfigError>)
        ensures
            res_view(r) == device_from_str_spec(s@),
    {
        let fields = match args_parse(s.to_owned(), "virtio", None) {
            Ok(fields) => fields,
            Err(e) => return Err(e),
        };
        if fields.len() == 0 {
            return Err(ConfigError::EmptyDeviceSpec);
        }
        let rest = join_fields(&fields, 1);
        proof {
            assert(fields.deep_view().skip(1) =~= fields.deep_view().drop_first());
        }
        let tag = &fields[0];
        if str_eq(tag.as_str(), "virtio-blk") {
            match BlkConfig::from_str(rest.as_str()) {
                Ok(c) => Ok(VirtioDeviceConfig::Blk(c)),
                Err(e) => Err(e),
            }
        } else if str_eq(tag.as_str(), "virtio-rng") {
            Ok(VirtioDeviceConfig::Rng)
        } else if str_eq(tag.as_str(), "virtio-serial") {
            match SerialConfig::from_str(rest.as_str()) {
                Ok(c) => Ok(VirtioDeviceConfig::Serial(c)),
                Err(e) => Err(e),
            }
        } else if str_eq(tag.as_str(), "virtio-vsock") {
            match VsockConfig::from_str(rest.as_str()) {
                Ok(c) => Ok(VirtioDeviceConfig::Vsock(c)),
                Err(e) => Err(e),
            }
        } else if str_eq(tag.as_str(), "virtio-net") {
            match NetConfig::from_str(rest.as_str()) {
                Ok(c) => Ok(VirtioDeviceConfig::Net(c)),
                Err(e) => Err(e),
            }
        } else if str_eq(tag.as_str(), "virtio-fs") {
            match FsConfig::from_str(rest.as_str()) {
                Ok(c) => Ok(VirtioDeviceConfig::Fs(c)),
                Err(e) => Err(e),
            }
        } else {
            Err(ConfigError::UnknownDeviceType { tag: tag.clone() })
        }
    }

    /// The tag under which this variant is spelled on the command line.
    pub fn tag(&self) -> (r: &'static str)
        ensures
            r@ == tag_chars(self@),
    {
        match self {
            VirtioDeviceConfig::Blk(_) => "virtio-blk",
            VirtioDeviceConfig::Rng => "virtio-rng",
            VirtioDeviceConfig::Serial(_) => "virtio-serial",
            VirtioDeviceConfig::Vsock(_) => "virtio-vsock",
            VirtioDeviceConfig::Net(_) => "virtio-net",
            VirtioDeviceConfig::Fs(_) => "virtio-fs",
        }
    }
}

/// The tag that spells each device variant.
pub open spec fn tag_chars(d: VirtioDeviceConfigV) -> Seq<char> {
    match d {
        VirtioDeviceConfigV::Blk(_) => "virtio-blk"@,
        VirtioDeviceConfigV::Rng => "virtio-rng"@,
        VirtioDeviceConfigV::Serial(_) => "virtio-serial"@,
        VirtioDeviceConfigV::Vsock(_) => "virtio-vsock"@,
        VirtioDeviceConfigV::Net(_) => "virtio-net"@,
        VirtioDeviceConfigV::Fs(_) => "virtio-fs"@,
    }
}

/// Resolving a device specification and projecting the result back to
/// its tag recovers the specification's first field.
pub proof fn lemma_from_str_recovers_tag(s: Seq<char>)
    ensures
        device_from_str_spec(s) matches Ok(d) ==> tag_chars(d) == split_chars(s, ',')[0],
{
}

/// Whether the string holds an embedded NUL character, which no
/// NUL-terminated boundary representation can carry.
pub open spec fn has_nul(s: Seq<char>) -> bool {
    exists|i: int| 0 <= i < s.len() && s[i] == '\0'
}

/// The boundary representation of a path: its UTF-8 bytes, NUL-terminated.
pub open spec fn c_bytes_of(s: Seq<char>) -> Seq<u8> {
    encode_utf8(s).push(0u8)
}

/// Decides whether `s` is free of embedded NUL characters.
fn nul_free(s: &str) -> (r: bool)
    ensures
        r == !has_nul(s@),
{
    let n = s.unicode_len();
    let mut i: usize = 0;
    while i < n
        invariant
            i <= n,
            n == s@.len(),
            forall|j: int| 0 <= j < i ==> s@[j] != '\0',
        decreases n - i,
    {
        if s.get_char(i) == '\0' {
            return false;
        }
        i += 1;
    }
    true
}

/// Encodes a path for the boundary: rejects embedded NUL, then appends
/// the terminator to the path's UTF-8 bytes.
pub fn path_to_c_bytes(path: &String) -> (r: Result<Vec<u8>, ConfigError>)
    ensures
        match r {
            Ok(b) => !has_nul(path@) && b@ == c_bytes_of(path@),
            Err(e) => has_nul(path@) && e@ == (ConfigErrorV::PathEncodingError { path: path@ }),
        },
{
    if !nul_free(path.as_str()) {
        return Err(ConfigError::PathEncodingError { path: path.clone() });
    }
    let mut b = path.as_str().as_bytes_vec();
    b.push(0u8);
    Ok(b)
}

/// Mathematical image of [`BoundaryCall`].
pub ghost enum BoundaryCallV {
    SetRootDisk { ctx_id: u32, disk_path: Seq<u8> },
    AddVsockPort { ctx_id: u32, port: u32, socket_path: Seq<u8> },
    AddVirtiofs { ctx_id: u32, mount_tag: Seq<u8>, shared_dir: Seq<u8> },
}

/// The single boundary call a variant binds with: every path argument is
/// already encoded as NUL-terminated bytes, ready for the hypervisor
/// boundary, which the caller invokes at most once per variant.
#[derive(Clone, Debug, PartialEq, Eq)]
pub enum BoundaryCall {
    SetRootDisk { ctx_id: u32, disk_path: Vec<u8> },
    AddVsockPort { ctx_id: u32, port: u32, socket_path: Vec<u8> },
    AddVirtiofs { ctx_id: u32, mount_tag: Vec<u8>, shared_dir: Vec<u8> },
}

impl View for BoundaryCall {
    type V = BoundaryCallV;

    open spec fn view(&self) -> BoundaryCallV {
        match self {
            BoundaryCall::SetRootDisk { ctx_id, disk_path } => BoundaryCallV::SetRootDisk {
                ctx_id: *ctx_id,
                disk_path: disk_path@,
            },
            BoundaryCall::AddVsockPort { ctx_id, port, socket_path } => {
                BoundaryCallV::AddVsockPort {
                    ctx_id: *ctx_id,
                    port: *port,
                    socket_path: socket_path@,
                }
            },
            BoundaryCall::AddVirtiofs { ctx_id, mount_tag, shared_dir } => {
                BoundaryCallV::AddVirtiofs {
                    ctx_id: *ctx_id,
                    mount_tag: mount_tag@,
                    shared_dir: shared_dir@,
                }
            },
        }
    }
}

impl DeepView for BoundaryCall {
    type V = BoundaryCallV;

    open spec fn deep_view(&self) -> BoundaryCallV {
        self.view()
    }
}

/// The context-binding protocol. A variant first prepares its one
/// boundary call for a context identifier; the caller performs the call
/// and hands the returned status back, which the variant maps to a
/// structured result. Variants without a defined binding prepare nothing
/// and fail hard.
pub trait KrunContextSet {
    /// The call this variant prepares, or why it cannot.
    spec fn krun_call_spec(&self, id: u32) -> Result<BoundaryCallV, ConfigErrorV>;

    /// How this variant reads a boundary status: negative is failure.
    spec fn krun_status_spec(&self, status: i32) -> Result<(), ConfigErrorV>;

    /// Prepares the single boundary call that binds this variant to the
    /// context `id`, encoding every path for the boundary.
    fn krun_ctx_set(&self, id: u32) -> (r: Result<BoundaryCall, ConfigError>)
        ensures
            res_view(r) == self.krun_call_spec(id),
    ;

    /// Maps the status the boundary returned for this variant's call.
    fn krun_ctx_status(&self, status: i32) -> (r: Result<(), ConfigError>)
        ensures
            match r {
                Ok(_) => self.krun_status_spec(status) is Ok,
                Err(e) => self.krun_status_spec(status) == Err::<(), ConfigErrorV>(e@),
            },
    ;
}

impl KrunContextSet for BlkConfig {
    open spec fn krun_call_spec(&self, id: u32) -> Result<BoundaryCallV, ConfigErrorV> {
        if has_nul(self.path@) {
            Err(ConfigErrorV::PathEncodingError { path: self.path@ })
        } else {
            Ok(BoundaryCallV::SetRootDisk { ctx_id: id, disk_path: c_bytes_of(self.path@) })
        }
    }

    open spec fn krun_status_spec(&self, status: i32) -> Result<(), ConfigErrorV> {
        if status < 0 {
            Err(ConfigErrorV::SetRootDiskFailed)
        } else {
            Ok(())
        }
    }

    fn krun_ctx_set(&self, id: u32) -> (r: Result<BoundaryCall, ConfigError>) {
        let disk_path = match path_to_c_bytes(&self.path) {
            Ok(b) => b,
            Err(e) => return Err(e),
        };
        Ok(BoundaryCall::SetRootDisk { ctx_id: id, disk_path })
    }

    fn krun_ctx_status(&self, status: i32) -> (r: Result<(), ConfigError>) {
        if status < 0 {
            Err(ConfigError::SetRootDiskFailed)
        } else {
            Ok(())
        }
    }
}

impl KrunContextSet for VsockConfig {
    open spec fn krun_call_spec(&self, id: u32) -> Result<BoundaryCallV, ConfigErrorV> {
        if has_nul(self.socket_url@) {
            Err(ConfigErrorV::PathEncodingError { path: self.socket_url@ })
        } else {
            Ok(
                BoundaryCallV::AddVsockPort {
                    ctx_id: id,
                    port: self.port,
                    socket_path: c_bytes_of(self.socket_url@),
                },
            )
        }
    }

    open spec fn krun_status_spec(&self, status: i32) -> Result<(), ConfigErrorV> {
        if status < 0 {
            Err(ConfigErrorV::AddVsockPortFailed { port: self.port, path: self.socket_url@ })
        } else {
            Ok(())
        }
    }

    fn krun_ctx_set(&self, id: u32) -> (r: Result<BoundaryCall, ConfigError>) {
        let socket_path = match path_to_c_bytes(&self.socket_url) {
            Ok(b) => b,
            Err(e) => return Err(e),
        };
        Ok(BoundaryCall::AddVsockPort { ctx_id: id, port: self.port, socket_path })
    }

    fn krun_ctx_status(&self, status: i32) -> (r: Result<(), ConfigError>) {
        if status < 0 {
            Err(
                ConfigError::AddVsockPortFailed {
                    port: self.port,
                    path: self.socket_url.clone(),
                },
            )
        } else {
            Ok(())
        }
    }
}

impl KrunContextSet for FsConfig {
    open spec fn krun_call_spec(&self, id: u32) -> Result<BoundaryCallV, ConfigErrorV> {
        if has_nul(self.shared_dir@) {
            Err(ConfigErrorV::PathEncodingError { path: self.shared_dir@ })
        } else if has_nul(self.mount_tag@) {
            Err(ConfigErrorV::PathEncodingError { path: self.mount_tag@ })
        } else {
            // The boundary takes the mount tag before the shared
            // directory; the argument order is part of its contract.
            Ok(
                BoundaryCallV::AddVirtiofs {
                    ctx_id: id,
                    mount_tag: c_bytes_of(self.mount_tag@),
                    shared_dir: c_bytes_of(self.shared_dir@),
                },
            )
        }
    }

    open spec fn krun_status_spec(&self, status: i32) -> Result<(), ConfigErrorV> {
        if status < 0 {
            Err(
                ConfigErrorV::AddVirtiofsFailed {
                    shared_dir: self.shared_dir@,
                    mount_tag: self.mount_tag@,
                },
            )
        } else {
            Ok(())
        }
    }

    fn krun_ctx_set(&self, id: u32) -> (r: Result<BoundaryCall, ConfigError>) {
        let shared_dir = match path_to_c_bytes(&self.shared_dir) {
            Ok(b) => b,
            Err(e) => return Err(e),
        };
        let mount_tag = match path_to_c_bytes(&self.mount_tag) {
            Ok(b) => b,
            Err(e) => return Err(e),
        };
        Ok(BoundaryCall::AddVirtiofs { ctx_id: id, mount_tag, shared_dir })
    }

    fn krun_ctx_status(&self, status: i32) -> (r: Result<(), ConfigError>) {
        if status < 0 {
            Err(
                ConfigError::AddVirtiofsFailed {
                    shared_dir: self.shared_dir.clone(),
                    mount_tag: self.mount_tag.clone(),
                },
            )
        } else {
            Ok(())
        }
    }
}

impl KrunContextSet for VirtioDeviceConfig {
    open spec fn krun_call_spec(&self, id: u32) -> Result<BoundaryCallV, ConfigErrorV> {
        match self {
            VirtioDeviceConfig::Blk(c) => c.krun_call_spec(id),
            VirtioDeviceConfig::Rng => Err(ConfigErrorV::NotImplemented),
            VirtioDeviceConfig::Serial(_) => Err(ConfigErrorV::NotImplemented),
            VirtioDeviceConfig::Vsock(c) => c.krun_call_spec(id),
            VirtioDeviceConfig::Net(_) => Err(ConfigErrorV::NotImplemented),
            VirtioDeviceConfig::Fs(c) => c.krun_call_spec(id),
        }
    }

    open spec fn krun_status_spec(&self, status: i32) -> Result<(), ConfigErrorV> {
        match self {
            VirtioDeviceConfig::Blk(c) => c.krun_status_spec(status),
            VirtioDeviceConfig::Rng => Err(ConfigErrorV::NotImplemented),
            VirtioDeviceConfig::Serial(_) => Err(ConfigErrorV::NotImplemented),
            VirtioDeviceConfig::Vsock(c) => c.krun_status_spec(status),
            VirtioDeviceConfig::Net(_) => Err(ConfigErrorV::NotImplemented),
            VirtioDeviceConfig::Fs(c) => c.krun_status_spec(status),
        }
    }

    fn krun_ctx_set(&self, id: u32) -> (r: Result<BoundaryCall, ConfigError>) {
        match self {
            VirtioDeviceConfig::Blk(c) => c.krun_ctx_set(id),
            VirtioDeviceConfig::Rng => Err(ConfigError::NotImplemented),
            VirtioDeviceConfig::Serial(_) => Err(ConfigError::NotImplemented),
            VirtioDeviceConfig::Vsock(c) => c.krun_ctx_set(id),
            VirtioDeviceConfig::Net(_) => Err(ConfigError::NotImplemented),
            VirtioDeviceConfig::Fs(c) => c.krun_ctx_set(id),
        }
    }

    fn krun_ctx_status(&self, status: i32) -> (r: Result<(), ConfigError>) {
        match self {
            VirtioDeviceConfig::Blk(c) => c.krun_ctx_status(status),
            VirtioDeviceConfig::Rng => Err(ConfigError::NotImplemented),
            VirtioDeviceConfig::Serial(_) => Err(ConfigError::NotImplemented),
            VirtioDeviceConfig::Vsock(c) => c.krun_ctx_status(status),
            VirtioDeviceConfig::Net(_) => Err(ConfigError::NotImplemented),
            VirtioDeviceConfig::Fs(c) => c.krun_ctx_status(status),
        }
    }
}

} // verus!
