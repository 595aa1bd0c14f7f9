//! The configuration record of a virtual machine and the compiler that
//! turns it into QEMU's argument vector.
use vstd::prelude::*;
use crate::device::Device;
use crate::vm_id::{lemma_random_uuid_not_nil, random_uuid, uuid_text, uuid_text_of};
use vstd::seq_lib::lemma_concat_associative;
use crate::text::{
    concat, debug_text, debug_text_of, decimal, decimal_text, flag_value, is_text, join, join_comma, push_pair, push_token,
    push_token_if,
    same_text, texts, text_when, tokens_when,
};
use crate::types::{
    FwCfg, Incoming, IoThread, Kernel, Knobs, Machine, Memory, QmpSocket, Rtc, Smp,
    MACHINE_TYPE_MICROVM, MIGRATION_DEFER, MIGRATION_EXEC, MIGRATION_FD,
};

verus! {

/// Why a configuration cannot be compiled.
#[derive(Debug, PartialEq, Eq, Structural, Clone, Copy)]
pub enum ConfigError {
    /// `max_cpus` is set and below `cpus`.
    MaxCpusBelowCpus,
    /// sockets, cores and threads are all set and their product is not
    /// `max_cpus`.
    TopologyMismatch,
}

/// The configuration of a QEMU virtual machine, and the arguments compiled
/// from it so far.
pub struct QemuConfig {
    /// path of the QEMU binary
    pub bin_path: String,
    /// user id
    pub uid: u32,
    /// group id
    pub gid: u32,
    /// supplementary group ids
    pub groups: Vec<u32>,
    /// guest name
    pub name: String,
    /// uuid of the QEMU process
    pub uuid: String,
    /// CPU model
    pub cpu_model: String,
    /// seccomp sandbox setting
    pub seccomp_sandbox: String,
    /// machine type and related settings
    pub machine: Machine,
    /// QMP monitor sockets
    pub qmp_sockets: Vec<QmpSocket>,
    /// attached devices; a duplicate of the record does not carry them
    pub devices: Vec<Device>,
    /// real time clock
    pub rtc: Rtc,
    /// VGA mode
    pub vga: String,
    /// guest kernel
    pub kernel: Kernel,
    /// guest memory
    pub memory: Memory,
    /// CPU topology
    pub smp: Smp,
    /// `-global` setting
    pub global_params: String,
    /// boolean switches
    pub knobs: Knobs,
    /// BIOS path
    pub bios: String,
    /// whether graphical output is off
    pub no_graphic: bool,
    /// pflash images, in order
    pub pflashs: Vec<String>,
    /// incoming migration
    pub incoming: Incoming,
    /// file descriptors handed to QEMU, in order
    pub fds: Vec<i32>,
    /// firmware configuration entries
    pub fw_cfgs: Vec<FwCfg>,
    /// IO threads
    pub io_threads: Vec<IoThread>,
    /// pid file path
    pub pid_file: String,
    /// log file path
    pub log_file: String,
    /// the arguments compiled so far
    pub qemu_params: Vec<String>,
}

/// A flag and its value, when the value is not empty.
pub open spec fn flag_if_set(flag: Seq<char>, value: Seq<char>) -> Seq<Seq<char>> {
    tokens_when(value.len() > 0, flag_value(flag, value))
}

impl QemuConfig {
    /// The arguments compiled so far.
    pub open spec fn params(&self) -> Seq<Seq<char>> {
        texts(self.qemu_params@)
    }

    /// Every setting but the arguments, the descriptors and the devices is
    /// the same in both records.
    pub open spec fn same_settings(&self, o: &QemuConfig) -> bool {
        &&& self.bin_path == o.bin_path
        &&& self.uid == o.uid
        &&& self.gid == o.gid
        &&& self.groups@ == o.groups@
        &&& self.name == o.name
        &&& self.uuid == o.uuid
        &&& self.cpu_model == o.cpu_model
        &&& self.seccomp_sandbox == o.seccomp_sandbox
        &&& self.machine == o.machine
        &&& self.qmp_sockets@ == o.qmp_sockets@
        &&& self.rtc == o.rtc
        &&& self.vga == o.vga
        &&& self.kernel == o.kernel
        &&& self.memory == o.memory
        &&& self.smp == o.smp
        &&& self.global_params == o.global_params
        &&& self.knobs == o.knobs
        &&& self.bios == o.bios
        &&& self.no_graphic == o.no_graphic
        &&& self.pflashs@ == o.pflashs@
        &&& self.incoming == o.incoming
        &&& self.fw_cfgs@ == o.fw_cfgs@
        &&& self.io_threads@ == o.io_threads@
        &&& self.pid_file == o.pid_file
        &&& self.log_file == o.log_file
    }

    /// Every field but the arguments is the same in both records.
    pub open spec fn keeps(&self, o: &QemuConfig) -> bool {
        &&& self.same_settings(o)
        &&& self.fds@ == o.fds@
        &&& self.devices@ == o.devices@
    }

    /// An empty record: no settings, no devices, no arguments.
    pub open spec fn is_empty_record(&self) -> bool {
        &&& self.bin_path@.len() == 0
        &&& self.uid == 0
        &&& self.gid == 0
        &&& self.groups@.len() == 0
        &&& self.name@.len() == 0
        &&& self.uuid@.len() == 0
        &&& self.cpu_model@.len() == 0
        &&& self.seccomp_sandbox@.len() == 0
        &&& self.machine.machine_type@.len() == 0
        &&& self.machine.acceleration@.len() == 0
        &&& self.machine.options@.len() == 0
        &&& self.qmp_sockets@.len() == 0
        &&& self.devices@.len() == 0
        &&& self.rtc.base@.len() == 0
        &&& self.rtc.clock@.len() == 0
        &&& self.rtc.drift_fix@.len() == 0
        &&& self.vga@.len() == 0
        &&& self.kernel.path@.len() == 0
        &&& self.kernel.initrd_path@.len() == 0
        &&& self.kernel.params@.len() == 0
        &&& self.memory.size@.len() == 0
        &&& self.memory.slots == 0
        &&& self.memory.max_memory@.len() == 0
        &&& self.memory.path@.len() == 0
        &&& self.smp == Smp { cpus: 0, cores: 0, threads: 0, sockets: 0, max_cpus: 0 }
        &&& self.global_params@.len() == 0
        &&& self.knobs == Knobs {
            no_user_config: false,
            no_defaults: false,
            no_graphic: false,
            demonized: false,
            hugepages: false,
            mem_prealloc: false,
            file_backed_mem: false,
            mem_shared: false,
            mlock: false,
            stopped: false,
            no_reboot: false,
            no_shutdown: false,
            iommu_platform: false,
        }
        &&& self.bios@.len() == 0
        &&& !self.no_graphic
        &&& self.pflashs@.len() == 0
        &&& self.incoming.migration_type@.len() == 0
        &&& self.incoming.fd == 0
        &&& self.incoming.command@.len() == 0
        &&& self.fds@.len() == 0
        &&& self.fw_cfgs@.len() == 0
        &&& self.io_threads@.len() == 0
        &&& self.pid_file@.len() == 0
        &&& self.log_file@.len() == 0
        &&& self.qemu_params@.len() == 0
    }

    /// An empty record, to be filled in by the `add_*` operations.
    pub fn builder() -> (r: Self)
        ensures
            r.is_empty_record(),
    {
        QemuConfig {
            bin_path: String::new(),
            uid: 0,
            gid: 0,
            groups: Vec::new(),
            name: String::new(),
            uuid: String::new(),
            cpu_model: String::new(),
            seccomp_sandbox: String::new(),
            machine: Machine::default(),
            qmp_sockets: Vec::new(),
            devices: Vec::new(),
            rtc: Rtc::default(),
            vga: String::new(),
            kernel: Kernel::default(),
            memory: Memory::default(),
            smp: Smp::default(),
            global_params: String::new(),
            knobs: Knobs::default(),
            bios: String::new(),
            no_graphic: false,
            pflashs: Vec::new(),
            incoming: Incoming::default(),
            fds: Vec::new(),
            fw_cfgs: Vec::new(),
            io_threads: Vec::new(),
            pid_file: String::new(),
            log_file: String::new(),
            qemu_params: Vec::new(),
        }
    }
}

/// The tokens of the kernel: the image, then the ramdisk and the command
/// line, both only with an image.
pub open spec fn kernel_args(k: Kernel) -> Seq<Seq<char>> {
    tokens_when(
        k.path@.len() > 0,
        flag_value("-kernel"@, k.path@) + flag_if_set("-initrd"@, k.initrd_path@) + flag_if_set(
            "-append"@,
            k.params@,
        ),
    )
}

/// The comma-separated parts of the machine setting.
pub open spec fn machine_parts(m: Machine) -> Seq<Seq<char>> {
    seq![m.machine_type@] + tokens_when(
        m.acceleration@.len() > 0,
        seq!["accel="@ + m.acceleration@],
    ) + tokens_when(m.options@.len() > 0, seq![m.options@])
}

/// The tokens of the machine: nothing without a machine type.
pub open spec fn machine_args(m: Machine) -> Seq<Seq<char>> {
    tokens_when(m.machine_type@.len() > 0, flag_value("-machine"@, join(machine_parts(m))))
}

/// The comma-separated parts of the memory setting.
pub open spec fn memory_parts(m: Memory) -> Seq<Seq<char>> {
    seq![m.size@] + tokens_when(m.slots > 0, seq!["slots="@ + decimal(m.slots as nat)])
        + tokens_when(m.max_memory@.len() > 0, seq!["maxmem="@ + m.max_memory@])
}

/// The tokens of the memory: nothing without a size.
pub open spec fn memory_args(m: Memory) -> Seq<Seq<char>> {
    tokens_when(m.size@.len() > 0, flag_value("-m"@, join(memory_parts(m))))
}

/// The token of the graphics switch.
pub open spec fn no_graphic_args(no_graphic: bool) -> Seq<Seq<char>> {
    tokens_when(no_graphic, seq!["-nographic"@])
}

impl QemuConfig {
    /// Appends a flag and its value, when the value is not empty.
    fn add_flag(self, flag: &str, value: &str) -> (r: Self)
        ensures
            r.params() == self.params() + flag_if_set(flag@, value@),
            r.keeps(&self),
    {
        reveal(tokens_when);
        let ghost before = self;
        let mut c = self;
        if !value.is_empty() {
            push_pair(&mut c.qemu_params, flag, value.to_owned());
        } else {
            assert(c.params() =~= before.params() + flag_if_set(flag@, value@));
        }
        c
    }

    /// Sets the seccomp sandbox.
    pub fn add_seccomp(self, seccomp_sandbox: &str) -> (r: Self)
        ensures
            r.params() == self.params() + flag_if_set("-sandbox"@, seccomp_sandbox@),
            r.keeps(&self),
    {
        self.add_flag("-sandbox", seccomp_sandbox)
    }

    /// Sets the guest name.
    pub fn add_name(self, name: &str) -> (r: Self)
        ensures
            r.params() == self.params() + flag_if_set("-name"@, name@),
            r.keeps(&self),
    {
        self.add_flag("-name", name)
    }

    /// Sets the CPU model that QEMU emulates.
    pub fn add_cpu_model(self, cpu_model: &str) -> (r: Self)
        ensures
            r.params() == self.params() + flag_if_set("-cpu"@, cpu_model@),
            r.keeps(&self),
    {
        self.add_flag("-cpu", cpu_model)
    }

    /// Sets the `-global` setting.
    pub fn add_global_params(self, global_params: &str) -> (r: Self)
        ensures
            r.params() == self.params() + flag_if_set("-global"@, global_params@),
            r.keeps(&self),
    {
        self.add_flag("-global", global_params)
    }

    /// Sets the BIOS.
    pub fn add_bios(self, bios: &str) -> (r: Self)
        ensures
            r.params() == self.params() + flag_if_set("-bios"@, bios@),
            r.keeps(&self),
    {
        self.add_flag("-bios", bios)
    }

    /// Sets the VGA mode.
    pub fn add_vga(self, vga: &str) -> (r: Self)
        ensures
            r.params() == self.params() + flag_if_set("-vga"@, vga@),
            r.keeps(&self),
    {
        self.add_flag("-vga", vga)
    }

    /// Sets the pid file.
    pub fn add_pid_file(self, pid_file: &str) -> (r: Self)
        ensures
            r.params() == self.params() + flag_if_set("-pidfile"@, pid_file@),
            r.keeps(&self),
    {
        self.add_flag("-pidfile", pid_file)
    }

    /// Sets the log file.
    pub fn add_log_file(self, log_file: &str) -> (r: Self)
        ensures
            r.params() == self.params() + flag_if_set("-D"@, log_file@),
            r.keeps(&self),
    {
        self.add_flag("-D", log_file)
    }

    /// Turns graphical output off.
    pub fn add_no_graphic(self, no_graphic: bool) -> (r: Self)
        ensures
            r.params() == self.params() + no_graphic_args(no_graphic),
            r.keeps(&self),
    {
        reveal(tokens_when);
        let ghost before = self;
        let mut c = self;
        if no_graphic {
            push_token(&mut c.qemu_params, "-nographic".to_owned());
        }
        assert(c.params() =~= before.params() + no_graphic_args(no_graphic));
        c
    }

    /// Sets the kernel, its ramdisk and its command line.
    pub fn add_kernel(self, kernel: &Kernel) -> (r: Self)
        ensures
            r.params() == self.params() + kernel_args(*kernel),
            r.keeps(&self),
    {
        reveal(tokens_when);
        let ghost before = self;
        let mut c = self;
        if !kernel.path.as_str().is_empty() {
            c = c.add_flag("-kernel", kernel.path.as_str());
            c = c.add_flag("-initrd", kernel.initrd_path.as_str());
            c = c.add_flag("-append", kernel.params.as_str());
        }
        assert(c.params() =~= before.params() + kernel_args(*kernel));
        c
    }

    /// Sets the machine type, its acceleration and its options, joined into
    /// one value.
    pub fn add_machine(self, machine: &Machine) -> (r: Self)
        ensures
            r.params() == self.params() + machine_args(*machine),
            r.keeps(&self),
    {
        reveal(tokens_when);
        let ghost before = self;
        let mut c = self;
        if !machine.machine_type.as_str().is_empty() {
            let mut parts: Vec<String> = Vec::new();
            push_token(&mut parts, machine.machine_type.clone());
            if !machine.acceleration.as_str().is_empty() {
                push_token(&mut parts, concat("accel=", machine.acceleration.as_str()));
            }
            if !machine.options.as_str().is_empty() {
                push_token(&mut parts, machine.options.clone());
            }
            assert(texts(parts@) =~= machine_parts(*machine));
            push_pair(&mut c.qemu_params, "-machine", join_comma(&parts));
        }
        assert(c.params() =~= before.params() + machine_args(*machine));
        c
    }

    /// Sets the memory size, its slots and its largest size, joined into
    /// one value.
    pub fn add_memory(self, memory: &Memory) -> (r: Self)
        ensures
            r.params() == self.params() + memory_args(*memory),
            r.keeps(&self),
    {
        reveal(tokens_when);
        let ghost before = self;
        let mut c = self;
        if !memory.size.as_str().is_empty() {
            let mut parts: Vec<String> = Vec::new();
            push_token(&mut parts, memory.size.clone());
            if memory.slots > 0 {
                push_token(&mut parts, concat("slots=", decimal_text(memory.slots as u64).as_str()));
            }
            if !memory.max_memory.as_str().is_empty() {
                push_token(&mut parts, concat("maxmem=", memory.max_memory.as_str()));
            }
            assert(texts(parts@) =~= memory_parts(*memory));
            push_pair(&mut c.qemu_params, "-m", join_comma(&parts));
        }
        assert(c.params() =~= before.params() + memory_args(*memory));
        c
    }
}

/// The comma-separated parts of the CPU setting.
pub open spec fn smp_parts(s: Smp) -> Seq<Seq<char>> {
    seq![decimal(s.cpus as nat)] + tokens_when(s.cores > 0, seq!["cores="@ + decimal(s.cores as nat)])
        + tokens_when(s.threads > 0, seq!["threads="@ + decimal(s.threads as nat)]) + tokens_when(
        s.sockets > 0,
        seq!["sockets="@ + decimal(s.sockets as nat)],
    ) + tokens_when(s.max_cpus > 0, seq!["maxcpus="@ + decimal(s.max_cpus as nat)])
}

/// The tokens of the CPU topology: nothing without CPUs.
pub open spec fn smp_args(s: Smp) -> Seq<Seq<char>> {
    tokens_when(s.cpus > 0, flag_value("-smp"@, join(smp_parts(s))))
}

/// What is wrong with a CPU topology, if anything: with CPUs, a set
/// `max_cpus` may not be below `cpus`, and when sockets, cores and threads
/// are all set their product must be `max_cpus`.
pub open spec fn smp_error(s: Smp) -> Option<ConfigError> {
    if s.cpus == 0 {
        None
    } else if s.max_cpus > 0 && s.max_cpus < s.cpus {
        Some(ConfigError::MaxCpusBelowCpus)
    } else if s.sockets > 0 && s.cores > 0 && s.threads > 0 && (s.sockets as int) * (s.cores as int)
        * (s.threads as int) != s.max_cpus as int {
        Some(ConfigError::TopologyMismatch)
    } else {
        None
    }
}

/// Whether the architecture and the machine type take a DIMM-style NUMA
/// memory backend.
pub open spec fn dimm_supported(machine_type: Seq<char>, arch: Seq<char>) -> bool {
    &&& (arch == "x86_64"@ || arch == "powerpc64"@ || arch == "aarch64"@ || arch == "x86"@)
    &&& machine_type != MACHINE_TYPE_MICROVM@
}

/// The memory backend: huge pages first, then the memory path when file
/// backed memory is asked for, else a plain file backend.
pub open spec fn memory_backend(k: Knobs, m: Memory) -> Seq<char> {
    if k.hugepages {
        "memory-backend-file,id=dimm1,size="@ + m.size@ + ",mem-path=/dev/hugepages"@
    } else if k.file_backed_mem && m.path@.len() > 0 {
        "memory-backend-file,id=dimm1,size="@ + m.size@ + ",mem_path="@ + m.path@
    } else {
        "memory-backend-file,id=dimm1,size="@ + m.size@
    }
}

/// The memory backend object, shared and preallocated as asked.
pub open spec fn memory_object(k: Knobs, m: Memory) -> Seq<char> {
    memory_backend(k, m) + text_when(k.mem_shared, ",share=on"@) + text_when(
        k.mem_prealloc,
        ",prealloc=on"@,
    )
}

/// The tokens of the memory knobs: nothing without a memory size; else the
/// backend object, then its NUMA node or, where DIMMs are not supported,
/// the machine's memory backend.
pub open spec fn knobs_memory_args(
    k: Knobs,
    m: Memory,
    machine_type: Seq<char>,
    arch: Seq<char>,
) -> Seq<Seq<char>> {
    tokens_when(
        m.size@.len() > 0,
        flag_value("-object"@, memory_object(k, m)) + if dimm_supported(machine_type, arch) {
            flag_value("-numa"@, "node,memdev=dimm1"@)
        } else {
            flag_value("-machine"@, "memory-backend=dimm1"@)
        },
    )
}

/// The tokens of the switches that come before the memory knobs.
pub open spec fn knobs_switch_args(k: Knobs) -> Seq<Seq<char>> {
    tokens_when(k.no_user_config, seq!["-no-user-config"@]) + tokens_when(
        k.no_reboot,
        seq!["--no-reboot"@],
    ) + tokens_when(k.no_graphic, seq!["-nographic"@]) + tokens_when(
        k.no_defaults,
        seq!["-nodefaults"@],
    ) + tokens_when(k.no_shutdown, seq!["--no-shutdown"@]) + tokens_when(
        k.demonized,
        seq!["-daemonize"@],
    )
}

/// Appends the tokens of the switches that come before the memory knobs.
fn push_knob_switches(v: &mut Vec<String>, k: &Knobs)
    ensures
        texts(final(v)@) == texts(old(v)@) + knobs_switch_args(*k),
{
    push_token_if(v, k.no_user_config, "-no-user-config");
    push_token_if(v, k.no_reboot, "--no-reboot");
    push_token_if(v, k.no_graphic, "-nographic");
    push_token_if(v, k.no_defaults, "-nodefaults");
    push_token_if(v, k.no_shutdown, "--no-shutdown");
    push_token_if(v, k.demonized, "-daemonize");
    assert(texts(final(v)@) =~= texts(old(v)@) + knobs_switch_args(*k));
}

/// The tokens of all knobs, in their fixed order.
pub open spec fn knobs_args(
    k: Knobs,
    m: Memory,
    machine_type: Seq<char>,
    arch: Seq<char>,
) -> Seq<Seq<char>> {
    knobs_switch_args(k) + knobs_memory_args(k, m, machine_type, arch) + tokens_when(
        k.mlock,
        flag_value("-overcommit"@, "mem-lock=on"@),
    ) + tokens_when(k.stopped, seq!["-S"@])
}

/// The tokens of an incoming migration, whose descriptor, for the `fd`
/// type, is seen by QEMU at `offset`.
pub open spec fn incoming_args(inc: Incoming, offset: nat) -> Seq<Seq<char>> {
    if inc.migration_type@ == MIGRATION_EXEC@ {
        seq!["-S"@, "-incoming"@, "exec:"@ + inc.command@]
    } else if inc.migration_type@ == MIGRATION_FD@ {
        seq!["-S"@, "-incoming"@, "fd:"@ + decimal(offset)]
    } else if inc.migration_type@ == MIGRATION_DEFER@ {
        seq!["-S"@, "-incoming"@, "defer"@]
    } else {
        Seq::empty()
    }
}

/// The three migration types are distinct texts.
proof fn lemma_migration_types_differ()
    ensures
        MIGRATION_EXEC@ != MIGRATION_FD@,
        MIGRATION_EXEC@ != MIGRATION_DEFER@,
        MIGRATION_FD@ != MIGRATION_DEFER@,
{
    reveal_strlit("exec");
    reveal_strlit("fd");
    reveal_strlit("defer");
    assert(MIGRATION_EXEC@.len() == 4);
    assert(MIGRATION_FD@.len() == 2);
    assert(MIGRATION_DEFER@.len() == 5);
}

/// The offset at which QEMU sees the descriptor at `index`: after standard
/// input, output and error.
pub open spec fn fd_offset(index: int) -> int {
    index + 3
}

impl QemuConfig {
    /// Sets the CPU topology; fails when it is inconsistent.
    pub fn add_smp(self, smp: &Smp) -> (r: Result<Self, ConfigError>)
        ensures
            match r {
                Ok(c) => smp_error(*smp).is_none() && c.params() == self.params() + smp_args(*smp)
                    && c.keeps(&self),
                Err(e) => smp_error(*smp) == Some(e),
            },
    {
        reveal(tokens_when);
        let ghost before = self;
        let mut c = self;
        if smp.cpus > 0 {
            let mut parts: Vec<String> = Vec::new();
            push_token(&mut parts, decimal_text(smp.cpus as u64));
            if smp.cores > 0 {
                push_token(&mut parts, concat("cores=", decimal_text(smp.cores as u64).as_str()));
            }
            if smp.threads > 0 {
                push_token(&mut parts, concat("threads=", decimal_text(smp.threads as u64).as_str()));
            }
            if smp.sockets > 0 {
                push_token(&mut parts, concat("sockets=", decimal_text(smp.sockets as u64).as_str()));
            }
            if smp.max_cpus > 0 {
                if smp.max_cpus < smp.cpus {
                    return Err(ConfigError::MaxCpusBelowCpus);
                }
                push_token(
                    &mut parts,
                    concat("maxcpus=", decimal_text(smp.max_cpus as u64).as_str()),
                );
            }
            if smp.sockets > 0 && smp.cores > 0 && smp.threads > 0 {
                let sockets = smp.sockets as u128;
                let cores = smp.cores as u128;
                let threads = smp.threads as u128;
                proof {
                    assert(sockets * cores <= 0xffff_ffffu128 * 0xffff_ffffu128) by (nonlinear_arith)
                        requires
                            sockets <= 0xffff_ffff,
                            cores <= 0xffff_ffff,
                    ;
                    assert(sockets * cores * threads <= 0xffff_ffffu128 * 0xffff_ffffu128
                        * 0xffff_ffffu128) by (nonlinear_arith)
                        requires
                            sockets * cores <= 0xffff_ffffu128 * 0xffff_ffffu128,
                            threads <= 0xffff_ffff,
                    ;
                }
                if sockets * cores * threads != smp.max_cpus as u128 {
                    return Err(ConfigError::TopologyMismatch);
                }
            }
            assert(texts(parts@) =~= smp_parts(*smp));
            push_pair(&mut c.qemu_params, "-smp", join_comma(&parts));
        }
        assert(c.params() =~= before.params() + smp_args(*smp));
        Ok(c)
    }

    /// Sets the boolean switches. The memory knobs read the memory and the
    /// machine type already in the record, and `arch` names the host
    /// architecture.
    pub fn add_knobs(self, knobs: &Knobs, arch: &str) -> (r: Self)
        ensures
            r.params() == self.params() + knobs_args(
                *knobs,
                self.memory,
                self.machine.machine_type@,
                arch@,
            ),
            r.keeps(&self),
    {
        let ghost before = self;
        let mut c = self;
        push_knob_switches(&mut c.qemu_params, knobs);
        c.add_knobs_memory(knobs, arch);
        let ghost memory = c.params();
        push_token_if(&mut c.qemu_params, knobs.mlock, "-overcommit");
        push_token_if(&mut c.qemu_params, knobs.mlock, "mem-lock=on");
        let ghost mlock = c.params();
        assert(mlock =~= memory + tokens_when(
            knobs.mlock,
            flag_value("-overcommit"@, "mem-lock=on"@),
        )) by {
            reveal(tokens_when);
        }
        push_token_if(&mut c.qemu_params, knobs.stopped, "-S");
        assert(c.params() =~= before.params() + knobs_args(
            *knobs,
            before.memory,
            before.machine.machine_type@,
            arch@,
        ));
        c
    }

    /// Sets up the memory backend that the memory knobs ask for.
    fn add_knobs_memory(&mut self, knobs: &Knobs, arch: &str)
        ensures
            final(self).params() == old(self).params() + knobs_memory_args(
                *knobs,
                old(self).memory,
                old(self).machine.machine_type@,
                arch@,
            ),
            final(self).keeps(old(self)),
    {
        reveal(tokens_when);
        if self.memory.size.as_str().is_empty() {
            assert(self.params() =~= old(self).params() + knobs_memory_args(
                *knobs,
                old(self).memory,
                old(self).machine.machine_type@,
                arch@,
            ));
            return ;
        }
        let mut obj = if knobs.hugepages {
            let s = concat("memory-backend-file,id=dimm1,size=", self.memory.size.as_str());
            concat(s.as_str(), ",mem-path=/dev/hugepages")
        } else if knobs.file_backed_mem && !self.memory.path.as_str().is_empty() {
            let s = concat("memory-backend-file,id=dimm1,size=", self.memory.size.as_str());
            let s = concat(s.as_str(), ",mem_path=");
            concat(s.as_str(), self.memory.path.as_str())
        } else {
            concat("memory-backend-file,id=dimm1,size=", self.memory.size.as_str())
        };
        assert(obj@ == memory_backend(*knobs, self.memory));
        if knobs.mem_shared {
            obj.append(",share=on");
        }
        if knobs.mem_prealloc {
            obj.append(",prealloc=on");
        }
        assert(obj@ =~= memory_object(*knobs, self.memory));
        push_pair(&mut self.qemu_params, "-object", obj);
        if self.is_dimm_supported(arch) {
            push_pair(&mut self.qemu_params, "-numa", "node,memdev=dimm1".to_owned());
        } else {
            push_pair(&mut self.qemu_params, "-machine", "memory-backend=dimm1".to_owned());
        }
        assert(self.params() =~= old(self).params() + knobs_memory_args(
            *knobs,
            old(self).memory,
            old(self).machine.machine_type@,
            arch@,
        ));
    }

    /// Whether the host architecture and the machine type take a DIMM-style
    /// NUMA memory backend.
    fn is_dimm_supported(&self, arch: &str) -> (r: bool)
        ensures
            r == dimm_supported(self.machine.machine_type@, arch@),
    {
        let listed = same_text(arch, "x86_64") || same_text(arch, "powerpc64") || same_text(
            arch,
            "aarch64",
        ) || same_text(arch, "x86");
        listed && !is_text(&self.machine.machine_type, MACHINE_TYPE_MICROVM)
    }

    /// Hands descriptors to QEMU, and returns the offsets at which QEMU sees
    /// them: after the three standard ones, in order of appending.
    pub fn append_fds(&mut self, fds: &[i32]) -> (r: Vec<i32>)
        requires
            old(self).fds@.len() + fds@.len() + 3 <= i32::MAX,
        ensures
            final(self).fds@ == old(self).fds@ + fds@,
            r@.len() == fds@.len(),
            forall|i: int|
                0 <= i < r@.len() ==> r@[i] as int == fd_offset(old(self).fds@.len() + i),
            final(self).params() == old(self).params(),
            final(self).same_settings(old(self)),
            final(self).devices@ == old(self).devices@,
    {
        let old_length = self.fds.len();
        let mut offsets: Vec<i32> = Vec::new();
        let mut i: usize = 0;
        while i < fds.len()
            invariant
                i <= fds@.len(),
                old_length == old(self).fds@.len(),
                old_length + fds@.len() + 3 <= i32::MAX,
                self.fds@ == old(self).fds@ + fds@.take(i as int),
                offsets@.len() == i,
                forall|j: int|
                    0 <= j < i ==> offsets@[j] as int == fd_offset(old_length + j),
                self.params() == old(self).params(),
                self.same_settings(old(self)),
                self.devices@ == old(self).devices@,
            decreases fds@.len() - i,
        {
            self.fds.push(fds[i]);
            offsets.push(old_length as i32 + i as i32 + 3);
            assert(fds@.take(i + 1) =~= fds@.take(i as int).push(fds@[i as int]));
            i = i + 1;
        }
        assert(fds@.take(fds@.len() as int) =~= fds@);
        offsets
    }

    /// Sets up an incoming migration: `exec`, `fd` or `defer`; any other type
    /// adds nothing. An `fd` migration hands its descriptor to QEMU and names
    /// it by its offset.
    pub fn add_incoming(self, incoming: &Incoming) -> (r: Self)
        requires
            self.fds@.len() + 4 <= i32::MAX,
        ensures
            r.params() == self.params() + incoming_args(
                *incoming,
                fd_offset(self.fds@.len() as int) as nat,
            ),
            r.fds@ == if incoming.migration_type@ == MIGRATION_FD@ {
                self.fds@.push(incoming.fd)
            } else {
                self.fds@
            },
            r.same_settings(&self),
            r.devices@ == self.devices@,
    {
        proof {
            lemma_migration_types_differ();
        }
        let ghost before = self;
        let mut c = self;
        let uri = if is_text(&incoming.migration_type, MIGRATION_EXEC) {
            concat("exec:", incoming.command.as_str())
        } else if is_text(&incoming.migration_type, MIGRATION_FD) {
            let fds = c.append_fds(&[incoming.fd]);
            assert(c.fds@ =~= before.fds@.push(incoming.fd));
            concat("fd:", decimal_text(fds[0] as u64).as_str())
        } else if is_text(&incoming.migration_type, MIGRATION_DEFER) {
            "defer".to_owned()
        } else {
            assert(c.params() =~= before.params() + incoming_args(
                *incoming,
                fd_offset(before.fds@.len() as int) as nat,
            ));
            return c;
        };
        push_token(&mut c.qemu_params, "-S".to_owned());
        push_token(&mut c.qemu_params, "-incoming".to_owned());
        push_token(&mut c.qemu_params, uri);
        assert(c.params() =~= before.params() + incoming_args(
            *incoming,
            fd_offset(before.fds@.len() as int) as nat,
        ));
        c
    }
}

/// The comma-separated parts of the clock setting.
pub open spec fn rtc_parts(r: Rtc) -> Seq<Seq<char>> {
    seq!["base="@ + r.base@] + tokens_when(
        r.drift_fix@.len() > 0,
        seq!["driftfix="@ + r.drift_fix@],
    ) + tokens_when(r.clock@.len() > 0, seq!["clock="@ + r.clock@])
}

/// The token of the real time clock: one joined value, only when the clock
/// is valid.
pub open spec fn rtc_args(r: Rtc) -> Seq<Seq<char>> {
    tokens_when(r.is_valid(), seq![join(rtc_parts(r))])
}

/// The comma-separated parts of a QMP socket.
pub open spec fn qmp_parts(s: QmpSocket) -> Seq<Seq<char>> {
    seq![s.socket_type@ + ":"@ + s.name@] + tokens_when(
        s.is_server,
        seq!["server=on"@] + tokens_when(s.no_wait, seq!["wait=off"@]),
    )
}

/// The tokens of a QMP socket: nothing when it is invalid.
pub open spec fn qmp_args(s: QmpSocket) -> Seq<Seq<char>> {
    tokens_when(s.is_valid(), flag_value("-qmp"@, join(qmp_parts(s))))
}

/// The tokens of the QMP sockets, in order.
pub open spec fn qmp_sockets_args(s: Seq<QmpSocket>) -> Seq<Seq<char>>
    decreases s.len(),
{
    if s.len() == 0 {
        Seq::empty()
    } else {
        qmp_sockets_args(s.drop_last()) + qmp_args(s.last())
    }
}

/// The tokens of an IO thread: nothing without an id.
pub open spec fn io_thread_args(t: IoThread) -> Seq<Seq<char>> {
    tokens_when(t.id@.len() > 0, flag_value("-object"@, "iothread,id="@ + t.id@))
}

/// The tokens of the IO threads, in order.
pub open spec fn io_threads_args(s: Seq<IoThread>) -> Seq<Seq<char>>
    decreases s.len(),
{
    if s.len() == 0 {
        Seq::empty()
    } else {
        io_threads_args(s.drop_last()) + io_thread_args(s.last())
    }
}

/// The tokens of the pflash images, one pair each, in order.
pub open spec fn pflash_args(s: Seq<String>) -> Seq<Seq<char>>
    decreases s.len(),
{
    if s.len() == 0 {
        Seq::empty()
    } else {
        pflash_args(s.drop_last()) + flag_value("-pflash"@, s.last()@)
    }
}

/// The comma-separated parts of a firmware configuration entry.
pub open spec fn fw_cfg_parts(f: FwCfg) -> Seq<Seq<char>> {
    tokens_when(f.name@.len() > 0, seq!["name="@ + f.name@]) + tokens_when(
        f.file@.len() > 0,
        seq!["file="@ + f.file@],
    ) + tokens_when(f.str@.len() > 0, seq!["string="@ + f.str@])
}

/// The tokens of a firmware configuration entry.
pub open spec fn fw_cfg_args(f: FwCfg) -> Seq<Seq<char>> {
    flag_value("-fw_cfg"@, join(fw_cfg_parts(f)))
}

/// The tokens of the valid firmware configuration entries, in order.
pub open spec fn fw_cfgs_args(s: Seq<FwCfg>) -> Seq<Seq<char>>
    decreases s.len(),
{
    if s.len() == 0 {
        Seq::empty()
    } else {
        fw_cfgs_args(s.drop_last()) + tokens_when(s.last().is_valid(), fw_cfg_args(s.last()))
    }
}

/// The tokens of the valid devices, in order.
pub open spec fn devices_args(s: Seq<Device>) -> Seq<Seq<char>>
    decreases s.len(),
{
    if s.len() == 0 {
        Seq::empty()
    } else {
        devices_args(s.drop_last()) + tokens_when(s.last().is_valid(), s.last().args())
    }
}

/// The tokens of a uuid: nothing for the nil uuid.
pub open spec fn uuid_args(uuid: u128) -> Seq<Seq<char>> {
    tokens_when(uuid != 0, flag_value("-uuid"@, uuid_text_of(uuid)))
}

impl QemuConfig {
    /// Sets the real time clock; an invalid clock adds nothing.
    pub fn add_rtc(self, rtc: &Rtc) -> (r: Self)
        ensures
            r.params() == self.params() + rtc_args(*rtc),
            r.keeps(&self),
    {
        reveal(tokens_when);
        let ghost before = self;
        let mut c = self;
        if !rtc.valid() {
            assert(c.params() =~= before.params() + rtc_args(*rtc));
            return c;
        }
        let mut parts: Vec<String> = Vec::new();
        push_token(&mut parts, concat("base=", rtc.base.as_str()));
        if !rtc.drift_fix.as_str().is_empty() {
            push_token(&mut parts, concat("driftfix=", rtc.drift_fix.as_str()));
        }
        if !rtc.clock.as_str().is_empty() {
            push_token(&mut parts, concat("clock=", rtc.clock.as_str()));
        }
        assert(texts(parts@) =~= rtc_parts(*rtc));
        push_token(&mut c.qemu_params, join_comma(&parts));
        assert(c.params() =~= before.params() + rtc_args(*rtc));
        c
    }

    /// Adds the QMP sockets in order; invalid ones are skipped.
    pub fn add_qmp_sockets(self, qmp_sockets: &Vec<QmpSocket>) -> (r: Self)
        ensures
            r.params() == self.params() + qmp_sockets_args(qmp_sockets@),
            r.keeps(&self),
    {
        reveal(tokens_when);
        let ghost before = self;
        let mut c = self;
        let mut i: usize = 0;
        while i < qmp_sockets.len()
            invariant
                i <= qmp_sockets@.len(),
                c.params() == before.params() + qmp_sockets_args(qmp_sockets@.take(i as int)),
                c.keeps(&before),
            decreases qmp_sockets@.len() - i,
        {
            let socket = &qmp_sockets[i];
            reveal(tokens_when);
            let ghost prev = c.params();
            if socket.valid() {
                let mut parts: Vec<String> = Vec::new();
                let head = concat(socket.socket_type.as_str(), ":");
                push_token(&mut parts, concat(head.as_str(), socket.name.as_str()));
                if socket.is_server {
                    push_token(&mut parts, "server=on".to_owned());
                    if socket.no_wait {
                        push_token(&mut parts, "wait=off".to_owned());
                    }
                }
                assert(texts(parts@) =~= qmp_parts(*socket));
                push_pair(&mut c.qemu_params, "-qmp", join_comma(&parts));
            }
            assert(c.params() =~= prev + qmp_args(*socket));
            assert(qmp_sockets@.take(i + 1).drop_last() =~= qmp_sockets@.take(i as int));
            i = i + 1;
        }
        assert(qmp_sockets@.take(qmp_sockets@.len() as int) =~= qmp_sockets@);
        c
    }

    /// Adds the IO threads in order; those without an id are skipped.
    pub fn add_io_threads(self, io_threads: &[IoThread]) -> (r: Self)
        ensures
            r.params() == self.params() + io_threads_args(io_threads@),
            r.keeps(&self),
    {
        reveal(tokens_when);
        let ghost before = self;
        let mut c = self;
        let mut i: usize = 0;
        while i < io_threads.len()
            invariant
                i <= io_threads@.len(),
                c.params() == before.params() + io_threads_args(io_threads@.take(i as int)),
                c.keeps(&before),
            decreases io_threads@.len() - i,
        {
            let thread = &io_threads[i];
            reveal(tokens_when);
            let ghost prev = c.params();
            if !thread.id.as_str().is_empty() {
                push_pair(&mut c.qemu_params, "-object", concat("iothread,id=", thread.id.as_str()));
            }
            assert(c.params() =~= prev + io_thread_args(*thread));
            assert(io_threads@.take(i + 1).drop_last() =~= io_threads@.take(i as int));
            i = i + 1;
        }
        assert(io_threads@.take(io_threads@.len() as int) =~= io_threads@);
        c
    }

    /// Adds the pflash images in order.
    pub fn add_pflash_param(self, pflashs: &[String]) -> (r: Self)
        ensures
            r.params() == self.params() + pflash_args(pflashs@),
            r.keeps(&self),
    {
        let ghost before = self;
        let mut c = self;
        let mut i: usize = 0;
        while i < pflashs.len()
            invariant
                i <= pflashs@.len(),
                c.params() == before.params() + pflash_args(pflashs@.take(i as int)),
                c.keeps(&before),
            decreases pflashs@.len() - i,
        {
            push_pair(&mut c.qemu_params, "-pflash", pflashs[i].clone());
            assert(pflashs@.take(i + 1).drop_last() =~= pflashs@.take(i as int));
            assert(c.params() =~= before.params() + pflash_args(pflashs@.take(i + 1)));
            i = i + 1;
        }
        assert(pflashs@.take(pflashs@.len() as int) =~= pflashs@);
        c
    }

    /// Adds the firmware configuration entries in order; invalid ones are
    /// skipped.
    pub fn add_fwcfg(self, fw_cfgs: &[FwCfg]) -> (r: Self)
        ensures
            r.params() == self.params() + fw_cfgs_args(fw_cfgs@),
            r.keeps(&self),
    {
        reveal(tokens_when);
        let ghost before = self;
        let mut c = self;
        let mut i: usize = 0;
        while i < fw_cfgs.len()
            invariant
                i <= fw_cfgs@.len(),
                c.params() == before.params() + fw_cfgs_args(fw_cfgs@.take(i as int)),
                c.keeps(&before),
            decreases fw_cfgs@.len() - i,
        {
            let fw_cfg = &fw_cfgs[i];
            reveal(tokens_when);
            let ghost prev = c.params();
            if fw_cfg.valid() {
                fw_cfg.qemu_params(&mut c);
            }
            assert(c.params() =~= prev + tokens_when(fw_cfg.is_valid(), fw_cfg_args(*fw_cfg)));
            assert(fw_cfgs@.take(i + 1).drop_last() =~= fw_cfgs@.take(i as int));
            i = i + 1;
        }
        assert(fw_cfgs@.take(fw_cfgs@.len() as int) =~= fw_cfgs@);
        c
    }

    /// Adds the devices in order; invalid ones are skipped.
    pub fn add_devices(self, devices: &Vec<Device>) -> (r: Self)
        ensures
            r.params() == self.params() + devices_args(devices@),
            r.keeps(&self),
    {
        reveal(tokens_when);
        let ghost before = self;
        let mut c = self;
        let mut i: usize = 0;
        while i < devices.len()
            invariant
                i <= devices@.len(),
                c.params() == before.params() + devices_args(devices@.take(i as int)),
                c.keeps(&before),
            decreases devices@.len() - i,
        {
            let device = &devices[i];
            reveal(tokens_when);
            let ghost prev = c.params();
            if device.valid() {
                device.set_qemu_params(&mut c);
            }
            assert(c.params() =~= prev + tokens_when(device.is_valid(), device.args()));
            assert(devices@.take(i + 1).drop_last() =~= devices@.take(i as int));
            i = i + 1;
        }
        assert(devices@.take(devices@.len() as int) =~= devices@);
        c
    }

    /// Sets the uuid of the QEMU process; the nil uuid adds nothing.
    pub fn add_uuid(self, uuid: u128) -> (r: Self)
        ensures
            r.params() == self.params() + uuid_args(uuid),
            r.keeps(&self),
    {
        reveal(tokens_when);
        let ghost before = self;
        let mut c = self;
        if uuid != 0 {
            push_pair(&mut c.qemu_params, "-uuid", uuid_text(uuid));
        }
        assert(c.params() =~= before.params() + uuid_args(uuid));
        c
    }
}

/// The tokens that compiling a record adds, in their fixed order, for a
/// given uuid and host architecture. The devices come last.
pub open spec fn compiled_args(c: QemuConfig, uuid: u128, arch: Seq<char>) -> Seq<Seq<char>> {
    flag_if_set("-cpu"@, c.cpu_model@) + flag_if_set("-bios"@, c.bios@) + kernel_args(c.kernel)
        + machine_args(c.machine) + memory_args(c.memory) + flag_if_set("-name"@, c.name@)
        + flag_if_set("-sandbox"@, c.seccomp_sandbox@) + uuid_args(uuid) + no_graphic_args(
        c.no_graphic,
    ) + rtc_args(c.rtc) + qmp_sockets_args(c.qmp_sockets@) + flag_if_set("-vga"@, c.vga@)
        + io_threads_args(c.io_threads@) + incoming_args(
        c.incoming,
        fd_offset(c.fds@.len() as int) as nat,
    ) + pflash_args(c.pflashs@) + flag_if_set("-pidfile"@, c.pid_file@) + flag_if_set(
        "-D"@,
        c.log_file@,
    ) + flag_if_set("-global"@, c.global_params@) + knobs_args(
        c.knobs,
        c.memory,
        c.machine.machine_type@,
        arch,
    ) + smp_args(c.smp) + devices_args(c.devices@)
}

/// The descriptors of a record after compiling it: an `fd` migration hands
/// its descriptor over.
pub open spec fn compiled_fds(c: QemuConfig) -> Seq<i32> {
    if c.incoming.migration_type@ == MIGRATION_FD@ {
        c.fds@.push(c.incoming.fd)
    } else {
        c.fds@
    }
}

/// What compiling a record with a given uuid on a given host architecture
/// gives: the SMP error, if the topology is inconsistent; else a duplicate
/// of the record, without its devices, whose arguments are followed by the
/// compiled ones.
pub open spec fn compiles_to(
    c: QemuConfig,
    uuid: u128,
    arch: Seq<char>,
    r: Result<QemuConfig, ConfigError>,
) -> bool {
    match r {
        Ok(d) => {
            &&& smp_error(c.smp).is_none()
            &&& d.params() == c.params() + compiled_args(c, uuid, arch)
            &&& d.same_settings(&c)
            &&& d.fds@ == compiled_fds(c)
            &&& d.devices@.len() == 0
        },
        Err(e) => smp_error(c.smp) == Some(e),
    }
}

/// A record whose descriptors leave room for one more offset in an `i32`.
pub open spec fn fds_fit(c: QemuConfig) -> bool {
    c.fds@.len() + 4 <= i32::MAX
}

impl QemuConfig {
    /// Compiles the record with the given uuid (zero leaves it out) on the
    /// host architecture `arch`: every domain in its fixed order, then the
    /// devices. Not idempotent: the arguments already in the record stay,
    /// and the new ones follow them.
    pub fn build_all_with_uuid(&self, uuid: u128, arch: &str) -> (r: Result<QemuConfig, ConfigError>)
        requires
            fds_fit(*self),
        ensures
            compiles_to(*self, uuid, arch@, r),
    {
        let ghost p = self.params();
        let cfg = self.clone();
        let cfg = cfg.add_cpu_model(self.cpu_model.as_str());
        let ghost mut acc: Seq<Seq<char>> = flag_if_set("-cpu"@, self.cpu_model@);
        let cfg = cfg.add_bios(self.bios.as_str());
        proof {
            lemma_concat_associative(p, acc, flag_if_set("-bios"@, self.bios@));
            acc = acc + flag_if_set("-bios"@, self.bios@);
        }
        let cfg = cfg.add_kernel(&self.kernel);
        proof {
            lemma_concat_associative(p, acc, kernel_args(self.kernel));
            acc = acc + kernel_args(self.kernel);
        }
        let cfg = cfg.add_machine(&self.machine);
        proof {
            lemma_concat_associative(p, acc, machine_args(self.machine));
            acc = acc + machine_args(self.machine);
        }
        let cfg = cfg.add_memory(&self.memory);
        proof {
            lemma_concat_associative(p, acc, memory_args(self.memory));
            acc = acc + memory_args(self.memory);
        }
        let cfg = cfg.add_name(self.name.as_str());
        proof {
            lemma_concat_associative(p, acc, flag_if_set("-name"@, self.name@));
            acc = acc + flag_if_set("-name"@, self.name@);
        }
        let cfg = cfg.add_seccomp(self.seccomp_sandbox.as_str());
        proof {
            lemma_concat_associative(p, acc, flag_if_set("-sandbox"@, self.seccomp_sandbox@));
            acc = acc + flag_if_set("-sandbox"@, self.seccomp_sandbox@);
        }
        let cfg = cfg.add_uuid(uuid);
        proof {
            lemma_concat_associative(p, acc, uuid_args(uuid));
            acc = acc + uuid_args(uuid);
        }
        let cfg = cfg.add_no_graphic(self.no_graphic);
        proof {
            lemma_concat_associative(p, acc, no_graphic_args(self.no_graphic));
            acc = acc + no_graphic_args(self.no_graphic);
        }
        let cfg = cfg.add_rtc(&self.rtc);
        proof {
            lemma_concat_associative(p, acc, rtc_args(self.rtc));
            acc = acc + rtc_args(self.rtc);
        }
        let cfg = cfg.add_qmp_sockets(&self.qmp_sockets);
        proof {
            lemma_concat_associative(p, acc, qmp_sockets_args(self.qmp_sockets@));
            acc = acc + qmp_sockets_args(self.qmp_sockets@);
        }
        let cfg = cfg.add_vga(self.vga.as_str());
        proof {
            lemma_concat_associative(p, acc, flag_if_set("-vga"@, self.vga@));
            acc = acc + flag_if_set("-vga"@, self.vga@);
        }
        let cfg = cfg.add_io_threads(self.io_threads.as_slice());
        proof {
            lemma_concat_associative(p, acc, io_threads_args(self.io_threads@));
            acc = acc + io_threads_args(self.io_threads@);
        }
        let cfg = cfg.add_incoming(&self.incoming);
        proof {
            lemma_concat_associative(p, acc, incoming_args(self.incoming, fd_offset(self.fds@.len() as int) as nat));
            acc = acc + incoming_args(self.incoming, fd_offset(self.fds@.len() as int) as nat);
        }
        let cfg = cfg.add_pflash_param(self.pflashs.as_slice());
        proof {
            lemma_concat_associative(p, acc, pflash_args(self.pflashs@));
            acc = acc + pflash_args(self.pflashs@);
        }
        let cfg = cfg.add_pid_file(self.pid_file.as_str());
        proof {
            lemma_concat_associative(p, acc, flag_if_set("-pidfile"@, self.pid_file@));
            acc = acc + flag_if_set("-pidfile"@, self.pid_file@);
        }
        let cfg = cfg.add_log_file(self.log_file.as_str());
        proof {
            lemma_concat_associative(p, acc, flag_if_set("-D"@, self.log_file@));
            acc = acc + flag_if_set("-D"@, self.log_file@);
        }
        let cfg = cfg.add_global_params(self.global_params.as_str());
        proof {
            lemma_concat_associative(p, acc, flag_if_set("-global"@, self.global_params@));
            acc = acc + flag_if_set("-global"@, self.global_params@);
        }
        let cfg = cfg.add_knobs(&self.knobs, arch);
        proof {
            lemma_concat_associative(p, acc, knobs_args(self.knobs, self.memory, self.machine.machine_type@, arch@));
            acc = acc + knobs_args(self.knobs, self.memory, self.machine.machine_type@, arch@);
        }
        let cfg = match cfg.add_smp(&self.smp) {
            Ok(c) => c,
            Err(e) => {
                return Err(e);
            },
        };
        proof {
            lemma_concat_associative(p, acc, smp_args(self.smp));
            acc = acc + smp_args(self.smp);
        }
        let cfg = cfg.add_devices(&self.devices);
        proof {
            lemma_concat_associative(p, acc, devices_args(self.devices@));
            acc = acc + devices_args(self.devices@);
        }
        assert(acc == compiled_args(*self, uuid, arch@));
        Ok(cfg)
    }

    /// Compiles the record with a fresh random uuid on the host architecture
    /// `arch`.
    pub fn build_all(&self, arch: &str) -> (r: Result<QemuConfig, ConfigError>)
        requires
            fds_fit(*self),
        ensures
            exists|uuid: u128| uuid != 0 && compiles_to(*self, uuid, arch@, r),
    {
        let uuid = random_uuid();
        proof {
            lemma_random_uuid_not_nil(uuid);
        }
        let r = self.build_all_with_uuid(uuid, arch);
        assert(uuid != 0 && compiles_to(*self, uuid, arch@, r));
        r
    }
}

impl QemuConfig {
    /// The CPU model in its quoted, escaped form, for diagnostics.
    pub fn dump(&self) -> (r: String)
        ensures
            r@ == debug_text_of(self.cpu_model@),
    {
        debug_text(self.cpu_model.as_str())
    }
}

/// A duplicate keeps every setting, the descriptors and the arguments, and
/// drops the devices: they must be attached again.
impl Clone for QemuConfig {
    fn clone(&self) -> (r: Self)
        ensures
            r.same_settings(self),
            r.fds@ == self.fds@,
            r.qemu_params@ == self.qemu_params@,
            r.devices@.len() == 0,
    {
        let groups = self.groups.clone();
        let qmp_sockets = self.qmp_sockets.clone();
        let pflashs = self.pflashs.clone();
        let fds = self.fds.clone();
        let fw_cfgs = self.fw_cfgs.clone();
        let io_threads = self.io_threads.clone();
        let qemu_params = self.qemu_params.clone();
        assert(groups@ =~= self.groups@);
        assert(qmp_sockets@ =~= self.qmp_sockets@);
        assert(pflashs@ =~= self.pflashs@);
        assert(fds@ =~= self.fds@);
        assert(fw_cfgs@ =~= self.fw_cfgs@);
        assert(io_threads@ =~= self.io_threads@);
        assert(qemu_params@ =~= self.qemu_params@);
        QemuConfig {
            bin_path: self.bin_path.clone(),
            uid: self.uid,
            gid: self.gid,
            groups,
            name: self.name.clone(),
            uuid: self.uuid.clone(),
            cpu_model: self.cpu_model.clone(),
            seccomp_sandbox: self.seccomp_sandbox.clone(),
            machine: self.machine.clone(),
            qmp_sockets,
            devices: Vec::new(),
            rtc: self.rtc.clone(),
            vga: self.vga.clone(),
            kernel: self.kernel.clone(),
            memory: self.memory.clone(),
            smp: self.smp,
            global_params: self.global_params.clone(),
            knobs: self.knobs,
            bios: self.bios.clone(),
            no_graphic: self.no_graphic,
            pflashs,
            incoming: self.incoming.clone(),
            fds,
            fw_cfgs,
            io_threads,
            pid_file: self.pid_file.clone(),
            log_file: self.log_file.clone(),
            qemu_params,
        }
    }
}

} // verus!
