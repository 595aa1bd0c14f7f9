//! The configuration domains of a virtual machine: each a plain value with
//! its own validity rule.
use vstd::prelude::*;
use crate::config::{fw_cfg_args, fw_cfg_parts, QemuConfig};
use crate::text::{concat, is_text, join_comma, push_pair, push_token, texts, tokens_when};

verus! {

/// Migration by passing an open file descriptor.
pub const MIGRATION_FD: &'static str = "fd";

/// Migration by running a command.
pub const MIGRATION_EXEC: &'static str = "exec";

/// Migration whose source is given later over the monitor.
pub const MIGRATION_DEFER: &'static str = "defer";

/// The machine type that has no DIMM-style NUMA memory.
pub const MACHINE_TYPE_MICROVM: &'static str = "microvm";

/// The machine that QEMU emulates.
pub struct Machine {
    /// machine type, e.g. `q35`
    pub machine_type: String,
    /// acceleration, e.g. `kvm`
    pub acceleration: String,
    /// further machine options, e.g. `usb=off`
    pub options: String,
}

impl Clone for Machine {
    fn clone(&self) -> (r: Self)
        ensures
            r == *self,
    {
        Machine {
            machine_type: self.machine_type.clone(),
            acceleration: self.acceleration.clone(),
            options: self.options.clone(),
        }
    }
}

impl Default for Machine {
    fn default() -> (r: Self)
        ensures
            r.machine_type@.len() == 0,
            r.acceleration@.len() == 0,
            r.options@.len() == 0,
    {
        Machine { machine_type: String::new(), acceleration: String::new(), options: String::new() }
    }
}

/// The real time clock.
pub struct Rtc {
    /// start time
    pub base: String,
    /// clock source: `host`, `rt` or `vm`
    pub clock: String,
    /// drift fixing: `slew` or `none`
    pub drift_fix: String,
}

impl Clone for Rtc {
    fn clone(&self) -> (r: Self)
        ensures
            r == *self,
    {
        Rtc { base: self.base.clone(), clock: self.clock.clone(), drift_fix: self.drift_fix.clone() }
    }
}

impl Default for Rtc {
    fn default() -> (r: Self)
        ensures
            r.base@.len() == 0,
            r.clock@.len() == 0,
            r.drift_fix@.len() == 0,
    {
        Rtc { base: String::new(), clock: String::new(), drift_fix: String::new() }
    }
}

impl Rtc {
    /// The clock is one of `host`, `rt`, `vm` and the drift fix one of
    /// `slew`, `none`.
    pub open spec fn is_valid(&self) -> bool {
        &&& (self.clock@ == "host"@ || self.clock@ == "rt"@ || self.clock@ == "vm"@)
        &&& (self.drift_fix@ == "slew"@ || self.drift_fix@ == "none"@)
    }

    /// Whether this clock can be handed to QEMU.
    pub fn valid(&self) -> (r: bool)
        ensures
            r == self.is_valid(),
    {
        let clock_valid = is_text(&self.clock, "host") || is_text(&self.clock, "rt") || is_text(
            &self.clock,
            "vm",
        );
        let drift_fix_valid = is_text(&self.drift_fix, "slew") || is_text(&self.drift_fix, "none");
        clock_valid && drift_fix_valid
    }
}

/// A QMP monitor socket.
pub struct QmpSocket {
    /// socket type; only `unix` is accepted
    pub socket_type: String,
    /// socket path
    pub name: String,
    /// whether QEMU listens on the socket
    pub is_server: bool,
    /// whether QEMU starts without waiting for a client
    pub no_wait: bool,
}

impl Clone for QmpSocket {
    fn clone(&self) -> (r: Self)
        ensures
            r == *self,
    {
        QmpSocket {
            socket_type: self.socket_type.clone(),
            name: self.name.clone(),
            is_server: self.is_server,
            no_wait: self.no_wait,
        }
    }
}

impl Default for QmpSocket {
    fn default() -> (r: Self)
        ensures
            r.socket_type@.len() == 0,
            r.name@.len() == 0,
            !r.is_server,
            !r.no_wait,
    {
        QmpSocket { socket_type: String::new(), name: String::new(), is_server: false, no_wait: false }
    }
}

impl QmpSocket {
    /// A unix socket with a name.
    pub open spec fn is_valid(&self) -> bool {
        &&& self.socket_type@.len() > 0
        &&& self.name@.len() > 0
        &&& self.socket_type@ == "unix"@
    }

    /// Whether this socket can be handed to QEMU.
    pub fn valid(&self) -> (r: bool)
        ensures
            r == self.is_valid(),
    {
        if self.socket_type.as_str().is_empty() || self.name.as_str().is_empty() {
            return false;
        }
        if !is_text(&self.socket_type, "unix") {
            return false;
        }
        true
    }
}

/// The guest kernel.
pub struct Kernel {
    /// kernel image path on the host
    pub path: String,
    /// initial ramdisk path on the host
    pub initrd_path: String,
    /// kernel command line
    pub params: String,
}

impl Clone for Kernel {
    fn clone(&self) -> (r: Self)
        ensures
            r == *self,
    {
        Kernel {
            path: self.path.clone(),
            initrd_path: self.initrd_path.clone(),
            params: self.params.clone(),
        }
    }
}

impl Default for Kernel {
    fn default() -> (r: Self)
        ensures
            r.path@.len() == 0,
            r.initrd_path@.len() == 0,
            r.params@.len() == 0,
    {
        Kernel { path: String::new(), initrd_path: String::new(), params: String::new() }
    }
}

/// The virtual CPU topology.
#[derive(Clone, Copy)]
pub struct Smp {
    /// number of CPUs at boot
    pub cpus: u32,
    /// cores per socket
    pub cores: u32,
    /// threads per core
    pub threads: u32,
    /// number of sockets
    pub sockets: u32,
    /// largest number of CPUs, hot-plugged ones included
    pub max_cpus: u32,
}

impl Default for Smp {
    fn default() -> (r: Self)
        ensures
            r.cpus == 0 && r.cores == 0 && r.threads == 0 && r.sockets == 0 && r.max_cpus == 0,
    {
        Smp { cpus: 0, cores: 0, threads: 0, sockets: 0, max_cpus: 0 }
    }
}

/// Guest memory.
pub struct Memory {
    /// amount of memory, suffixed with M or G
    pub size: String,
    /// memory slots for hot-plug
    pub slots: u8,
    /// largest amount of memory, hot-plugged memory included
    pub max_memory: String,
    /// host file that backs the memory
    pub path: String,
}

impl Clone for Memory {
    fn clone(&self) -> (r: Self)
        ensures
            r == *self,
    {
        Memory {
            size: self.size.clone(),
            slots: self.slots,
            max_memory: self.max_memory.clone(),
            path: self.path.clone(),
        }
    }
}

impl Default for Memory {
    fn default() -> (r: Self)
        ensures
            r.size@.len() == 0,
            r.slots == 0,
            r.max_memory@.len() == 0,
            r.path@.len() == 0,
    {
        Memory { size: String::new(), slots: 0, max_memory: String::new(), path: String::new() }
    }
}

/// Independent boolean switches of QEMU.
#[derive(Clone, Copy)]
pub struct Knobs {
    /// do not load user configuration files
    pub no_user_config: bool,
    /// do not create default devices
    pub no_defaults: bool,
    /// no graphical output
    pub no_graphic: bool,
    /// run QEMU as a daemon
    pub demonized: bool,
    /// back guest memory with huge pages; takes precedence over the other
    /// memory backends
    pub hugepages: bool,
    /// allocate all guest memory up front
    pub mem_prealloc: bool,
    /// back guest memory with the memory path
    pub file_backed_mem: bool,
    /// share the memory backend
    pub mem_shared: bool,
    /// lock guest and QEMU memory in host RAM
    pub mlock: bool,
    /// do not start the CPUs at startup
    pub stopped: bool,
    /// exit instead of rebooting
    pub no_reboot: bool,
    /// stop emulation instead of exiting on guest shutdown
    pub no_shutdown: bool,
    /// enable the IOMMU for the devices that support it
    pub iommu_platform: bool,
}

impl Default for Knobs {
    fn default() -> (r: Self)
        ensures
            !r.no_user_config && !r.no_defaults && !r.no_graphic && !r.demonized,
            !r.hugepages && !r.mem_prealloc && !r.file_backed_mem && !r.mem_shared,
            !r.mlock && !r.stopped && !r.no_reboot && !r.no_shutdown && !r.iommu_platform,
    {
        Knobs {
            no_user_config: false,
            no_defaults: false,
            no_graphic: false,
            demonized: false,
            hugepages: false,
            mem_prealloc: false,
            file_backed_mem: false,
            mem_shared: false,
            mlock: false,
            stopped: false,
            no_reboot: false,
            no_shutdown: false,
            iommu_platform: false,
        }
    }
}

/// A thread that performs IO apart from the vCPUs.
pub struct IoThread {
    /// thread id
    pub id: String,
}

impl Clone for IoThread {
    fn clone(&self) -> (r: Self)
        ensures
            r == *self,
    {
        IoThread { id: self.id.clone() }
    }
}

impl Default for IoThread {
    fn default() -> (r: Self)
        ensures
            r.id@.len() == 0,
    {
        IoThread { id: String::new() }
    }
}

/// Where an incoming migration comes from.
pub struct Incoming {
    /// `fd`, `exec` or `defer`
    pub migration_type: String,
    /// descriptor, for the `fd` type
    pub fd: i32,
    /// command, for the `exec` type
    pub command: String,
}

impl Clone for Incoming {
    fn clone(&self) -> (r: Self)
        ensures
            r == *self,
    {
        Incoming { migration_type: self.migration_type.clone(), fd: self.fd, command: self.command.clone() }
    }
}

impl Default for Incoming {
    fn default() -> (r: Self)
        ensures
            r.migration_type@.len() == 0,
            r.fd == 0,
            r.command@.len() == 0,
    {
        Incoming { migration_type: String::new(), fd: 0, command: String::new() }
    }
}

/// A firmware configuration entry that the guest sees; `file` and `str`
/// exclude each other.
pub struct FwCfg {
    /// entry name
    pub name: String,
    /// host file whose content is the entry
    pub file: String,
    /// literal content of the entry
    pub str: String,
}

impl Clone for FwCfg {
    fn clone(&self) -> (r: Self)
        ensures
            r == *self,
    {
        FwCfg { name: self.name.clone(), file: self.file.clone(), str: self.str.clone() }
    }
}

impl Default for FwCfg {
    fn default() -> (r: Self)
        ensures
            r.name@.len() == 0,
            r.file@.len() == 0,
            r.str@.len() == 0,
    {
        FwCfg { name: String::new(), file: String::new(), str: String::new() }
    }
}

impl FwCfg {
    /// A name, and exactly one of file and literal content.
    pub open spec fn is_valid(&self) -> bool {
        &&& self.name@.len() > 0
        &&& (self.file@.len() > 0) != (self.str@.len() > 0)
    }

    /// Whether this entry can be handed to QEMU.
    pub fn valid(&self) -> (r: bool)
        ensures
            r == self.is_valid(),
    {
        if self.name.as_str().is_empty() {
            return false;
        }
        if !self.file.as_str().is_empty() && !self.str.as_str().is_empty() {
            return false;
        }
        if self.file.as_str().is_empty() && self.str.as_str().is_empty() {
            return false;
        }
        true
    }

    /// Appends this entry's arguments to the configuration.
    pub fn qemu_params(&self, config: &mut QemuConfig)
        ensures
            final(config).params() == old(config).params() + fw_cfg_args(*self),
            final(config).keeps(old(config)),
    {
        reveal(tokens_when);
        let mut parts: Vec<String> = Vec::new();
        if !self.name.as_str().is_empty() {
            push_token(&mut parts, concat("name=", self.name.as_str()));
        }
        if !self.file.as_str().is_empty() {
            push_token(&mut parts, concat("file=", self.file.as_str()));
        }
        if !self.str.as_str().is_empty() {
            push_token(&mut parts, concat("string=", self.str.as_str()));
        }
        assert(texts(parts@) =~= fw_cfg_parts(*self));
        push_pair(&mut config.qemu_params, "-fw_cfg", join_comma(&parts));
    }
}

} // verus!
