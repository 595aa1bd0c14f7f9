use qemu_launch::config::{ConfigError, QemuConfig};
use qemu_launch::qemu::Qemu;
use qemu_launch::types::{
    FwCfg, Incoming, IoThread, Kernel, Knobs, Machine, Memory, QmpSocket, Rtc, Smp,
};

fn s(v: &str) -> String {
    v.to_string()
}

fn strings(v: &[&str]) -> Vec<String> {
    v.iter().map(|x| x.to_string()).collect()
}

#[test]
fn it_works() {}

#[test]
fn empty_record_compiles_to_nothing() {
    let c = QemuConfig::builder().build_all_with_uuid(0, "x86_64").unwrap();
    assert!(c.qemu_params.is_empty());
}

#[test]
fn empty_domains_emit_nothing() {
    let c = QemuConfig::builder()
        .add_machine(&Machine { machine_type: s(""), acceleration: s("kvm"), options: s("usb=off") })
        .add_memory(&Memory { size: s(""), slots: 2, max_memory: s("4G"), path: s("") })
        .add_kernel(&Kernel { path: s(""), initrd_path: s("/initrd"), params: s("console=ttyS0") })
        .add_name("")
        .add_cpu_model("")
        .add_uuid(0);
    let c = c.add_smp(&Smp { cpus: 0, cores: 2, threads: 2, sockets: 2, max_cpus: 1 }).unwrap();
    assert!(c.qemu_params.is_empty());
}

#[test]
fn smp_max_cpus_below_cpus_fails() {
    let smp = Smp { cpus: 4, cores: 0, threads: 0, sockets: 0, max_cpus: 2 };
    let r = QemuConfig::builder().add_smp(&smp);
    assert_eq!(r.err(), Some(ConfigError::MaxCpusBelowCpus));
    let mut c = QemuConfig::builder();
    c.smp = smp;
    assert_eq!(c.build_all_with_uuid(0, "x86_64").err(), Some(ConfigError::MaxCpusBelowCpus));
}

#[test]
fn smp_topology_mismatch_is_rejected() {
    let smp = Smp { cpus: 2, cores: 1, threads: 1, sockets: 2, max_cpus: 4 };
    let r = QemuConfig::builder().add_smp(&smp);
    assert_eq!(r.err(), Some(ConfigError::TopologyMismatch));
}

#[test]
fn smp_consistent_topology() {
    let smp = Smp { cpus: 2, cores: 1, threads: 1, sockets: 2, max_cpus: 2 };
    let c = QemuConfig::builder().add_smp(&smp).unwrap();
    assert_eq!(c.qemu_params, strings(&["-smp", "2,cores=1,threads=1,sockets=2,maxcpus=2"]));
    let smp = Smp { cpus: 4, cores: 2, threads: 2, sockets: 2, max_cpus: 8 };
    let c = QemuConfig::builder().add_smp(&smp).unwrap();
    assert_eq!(c.qemu_params, strings(&["-smp", "4,cores=2,threads=2,sockets=2,maxcpus=8"]));
    let smp = Smp { cpus: 4294967295, cores: 0, threads: 0, sockets: 0, max_cpus: 0 };
    let c = QemuConfig::builder().add_smp(&smp).unwrap();
    assert_eq!(c.qemu_params, strings(&["-smp", "4294967295"]));
}

fn hugepage_config(machine_type: &str) -> QemuConfig {
    let mut c = QemuConfig::builder();
    c.memory = Memory { size: s("2G"), slots: 0, max_memory: s(""), path: s("") };
    c.machine = Machine { machine_type: s(machine_type), acceleration: s(""), options: s("") };
    c
}

#[test]
fn knobs_hugepages_shared_with_numa() {
    let knobs = Knobs { hugepages: true, mem_shared: true, ..Knobs::default() };
    let c = hugepage_config("q35").add_knobs(&knobs, "x86_64");
    assert_eq!(
        c.qemu_params,
        strings(&[
            "-object",
            "memory-backend-file,id=dimm1,size=2G,mem-path=/dev/hugepages,share=on",
            "-numa",
            "node,memdev=dimm1",
        ])
    );
}

#[test]
fn knobs_hugepages_shared_on_microvm() {
    let knobs = Knobs { hugepages: true, mem_shared: true, ..Knobs::default() };
    let c = hugepage_config("microvm").add_knobs(&knobs, "x86_64");
    assert_eq!(
        c.qemu_params,
        strings(&[
            "-object",
            "memory-backend-file,id=dimm1,size=2G,mem-path=/dev/hugepages,share=on",
            "-machine",
            "memory-backend=dimm1",
        ])
    );
}

#[test]
fn knobs_unsupported_architecture_binds_at_machine() {
    let knobs = Knobs { mem_prealloc: true, ..Knobs::default() };
    let c = hugepage_config("q35").add_knobs(&knobs, "riscv64");
    assert_eq!(
        c.qemu_params,
        strings(&[
            "-object",
            "memory-backend-file,id=dimm1,size=2G,prealloc=on",
            "-machine",
            "memory-backend=dimm1",
        ])
    );
}

#[test]
fn knobs_file_backed_memory() {
    let mut c = hugepage_config("q35");
    c.memory.path = s("/dev/shm/vm");
    let knobs = Knobs { file_backed_mem: true, ..Knobs::default() };
    let c = c.add_knobs(&knobs, "aarch64");
    assert_eq!(
        c.qemu_params,
        strings(&[
            "-object",
            "memory-backend-file,id=dimm1,size=2G,mem_path=/dev/shm/vm",
            "-numa",
            "node,memdev=dimm1",
        ])
    );
}

#[test]
fn knobs_without_memory_size() {
    let knobs = Knobs {
        no_user_config: true,
        no_defaults: true,
        no_graphic: true,
        demonized: true,
        hugepages: true,
        mem_prealloc: true,
        file_backed_mem: true,
        mem_shared: true,
        mlock: true,
        stopped: true,
        no_reboot: true,
        no_shutdown: true,
        iommu_platform: true,
    };
    let c = QemuConfig::builder().add_knobs(&knobs, "x86_64");
    assert_eq!(
        c.qemu_params,
        strings(&[
            "-no-user-config",
            "--no-reboot",
            "-nographic",
            "-nodefaults",
            "--no-shutdown",
            "-daemonize",
            "-overcommit",
            "mem-lock=on",
            "-S",
        ])
    );
}

#[test]
fn incoming_fd_uses_offset() {
    let inc = Incoming { migration_type: s("fd"), fd: 7, command: s("") };
    let c = QemuConfig::builder().add_incoming(&inc);
    assert_eq!(c.qemu_params, strings(&["-S", "-incoming", "fd:3"]));
    assert_eq!(c.fds, vec![7]);
    let c = c.add_incoming(&inc);
    assert_eq!(c.qemu_params, strings(&["-S", "-incoming", "fd:3", "-S", "-incoming", "fd:4"]));
    assert_eq!(c.fds, vec![7, 7]);
}

#[test]
fn incoming_exec_defer_and_unknown() {
    let exec = Incoming { migration_type: s("exec"), fd: 0, command: s("cat /tmp/state") };
    let c = QemuConfig::builder().add_incoming(&exec);
    assert_eq!(c.qemu_params, strings(&["-S", "-incoming", "exec:cat /tmp/state"]));
    let defer = Incoming { migration_type: s("defer"), fd: 0, command: s("") };
    let c = QemuConfig::builder().add_incoming(&defer);
    assert_eq!(c.qemu_params, strings(&["-S", "-incoming", "defer"]));
    let other = Incoming { migration_type: s("tcp"), fd: 5, command: s("") };
    let c = QemuConfig::builder().add_incoming(&other);
    assert!(c.qemu_params.is_empty());
    assert!(c.fds.is_empty());
}

#[test]
fn append_fds_offsets() {
    let mut c = QemuConfig::builder();
    assert_eq!(c.append_fds(&[10, 11]), vec![3, 4]);
    assert_eq!(c.append_fds(&[12]), vec![5]);
    assert_eq!(c.fds, vec![10, 11, 12]);
}

#[test]
fn rtc_valid_and_invalid() {
    let rtc = Rtc { base: s("utc"), clock: s("host"), drift_fix: s("slew") };
    assert!(rtc.valid());
    let c = QemuConfig::builder().add_rtc(&rtc);
    assert_eq!(c.qemu_params, strings(&["base=utc,driftfix=slew,clock=host"]));
    let bogus = Rtc { base: s("utc"), clock: s("bogus"), drift_fix: s("slew") };
    assert!(!bogus.valid());
    let c = QemuConfig::builder().add_rtc(&bogus);
    assert!(c.qemu_params.is_empty());
    let bad_drift = Rtc { base: s(""), clock: s("vm"), drift_fix: s("fast") };
    assert!(!bad_drift.valid());
    assert!(Rtc { base: s(""), clock: s("rt"), drift_fix: s("none") }.valid());
}

#[test]
fn qmp_sockets_skip_invalid() {
    let sockets = vec![
        QmpSocket { socket_type: s("unix"), name: s("/tmp/a"), is_server: true, no_wait: true },
        QmpSocket { socket_type: s("tcp"), name: s("/tmp/b"), is_server: true, no_wait: false },
        QmpSocket { socket_type: s("unix"), name: s(""), is_server: false, no_wait: false },
        QmpSocket { socket_type: s("unix"), name: s("/tmp/c"), is_server: false, no_wait: true },
        QmpSocket { socket_type: s("unix"), name: s("/tmp/d"), is_server: true, no_wait: false },
    ];
    assert!(sockets[0].valid());
    assert!(!sockets[1].valid());
    assert!(!sockets[2].valid());
    let c = QemuConfig::builder().add_qmp_sockets(&sockets);
    assert_eq!(
        c.qemu_params,
        strings(&[
            "-qmp",
            "unix:/tmp/a,server=on,wait=off",
            "-qmp",
            "unix:/tmp/c",
            "-qmp",
            "unix:/tmp/d,server=on",
        ])
    );
}

#[test]
fn fw_cfg_entries() {
    let entries = vec![
        FwCfg { name: s("opt/a"), file: s("/tmp/a"), str: s("") },
        FwCfg { name: s("opt/b"), file: s(""), str: s("hello") },
        FwCfg { name: s("opt/c"), file: s("/tmp/c"), str: s("both") },
        FwCfg { name: s(""), file: s("/tmp/d"), str: s("") },
        FwCfg { name: s("opt/e"), file: s(""), str: s("") },
    ];
    assert!(entries[0].valid() && entries[1].valid());
    assert!(!entries[2].valid() && !entries[3].valid() && !entries[4].valid());
    let c = QemuConfig::builder().add_fwcfg(&entries);
    assert_eq!(
        c.qemu_params,
        strings(&["-fw_cfg", "name=opt/a,file=/tmp/a", "-fw_cfg", "name=opt/b,string=hello"])
    );
}

#[test]
fn machine_memory_kernel_values() {
    let c = QemuConfig::builder()
        .add_machine(&Machine { machine_type: s("q35"), acceleration: s("kvm"), options: s("usb=off") })
        .add_machine(&Machine { machine_type: s("pc"), acceleration: s(""), options: s("") })
        .add_memory(&Memory { size: s("2G"), slots: 2, max_memory: s("4G"), path: s("") })
        .add_memory(&Memory { size: s("1G"), slots: 0, max_memory: s(""), path: s("") })
        .add_kernel(&Kernel { path: s("/vmlinuz"), initrd_path: s("/initrd"), params: s("console=ttyS0") })
        .add_kernel(&Kernel { path: s("/bzImage"), initrd_path: s(""), params: s("") });
    assert_eq!(
        c.qemu_params,
        strings(&[
            "-machine",
            "q35,accel=kvm,usb=off",
            "-machine",
            "pc",
            "-m",
            "2G,slots=2,maxmem=4G",
            "-m",
            "1G",
            "-kernel",
            "/vmlinuz",
            "-initrd",
            "/initrd",
            "-append",
            "console=ttyS0",
            "-kernel",
            "/bzImage",
        ])
    );
}

#[test]
fn simple_flags() {
    let c = QemuConfig::builder()
        .add_cpu_model("host")
        .add_bios("/bios.bin")
        .add_name("vm0")
        .add_seccomp("on")
        .add_no_graphic(true)
        .add_no_graphic(false)
        .add_vga("std")
        .add_io_threads(&[IoThread { id: s("io0") }, IoThread { id: s("") }])
        .add_pflash_param(&[s("/a.fd"), s("/b.fd")])
        .add_pid_file("/run/vm.pid")
        .add_log_file("/var/log/vm.log")
        .add_global_params("kvm-pit.lost_tick_policy=discard");
    assert_eq!(
        c.qemu_params,
        strings(&[
            "-cpu",
            "host",
            "-bios",
            "/bios.bin",
            "-name",
            "vm0",
            "-sandbox",
            "on",
            "-nographic",
            "-vga",
            "std",
            "-object",
            "iothread,id=io0",
            "-pflash",
            "/a.fd",
            "-pflash",
            "/b.fd",
            "-pidfile",
            "/run/vm.pid",
            "-D",
            "/var/log/vm.log",
            "-global",
            "kvm-pit.lost_tick_policy=discard",
        ])
    );
}

#[test]
fn uuid_text_is_hyphenated() {
    let c = QemuConfig::builder().add_uuid(0xa1a2a3a4b1b2c1c2d1d2d3d4d5d6d7d8);
    assert_eq!(c.qemu_params, strings(&["-uuid", "a1a2a3a4-b1b2-c1c2-d1d2-d3d4d5d6d7d8"]));
}

fn full_config() -> QemuConfig {
    let mut c = QemuConfig::builder();
    c.bin_path = s("/usr/bin/qemu-system-x86_64");
    c.cpu_model = s("host");
    c.bios = s("/bios.bin");
    c.kernel = Kernel { path: s("/vmlinuz"), initrd_path: s(""), params: s("console=ttyS0") };
    c.machine = Machine { machine_type: s("q35"), acceleration: s("kvm"), options: s("") };
    c.memory = Memory { size: s("2G"), slots: 1, max_memory: s(""), path: s("") };
    c.name = s("vm0");
    c.no_graphic = true;
    c.rtc = Rtc { base: s("utc"), clock: s("host"), drift_fix: s("slew") };
    c.qmp_sockets = vec![QmpSocket { socket_type: s("unix"), name: s("/tmp/qmp"), is_server: true, no_wait: true }];
    c.incoming = Incoming { migration_type: s("defer"), fd: 0, command: s("") };
    c.knobs = Knobs { hugepages: true, no_defaults: true, ..Knobs::default() };
    c.smp = Smp { cpus: 2, cores: 0, threads: 0, sockets: 0, max_cpus: 4 };
    c
}

fn full_args() -> Vec<String> {
    strings(&[
        "-cpu",
        "host",
        "-bios",
        "/bios.bin",
        "-kernel",
        "/vmlinuz",
        "-append",
        "console=ttyS0",
        "-machine",
        "q35,accel=kvm",
        "-m",
        "2G,slots=1",
        "-name",
        "vm0",
        "-uuid",
        "00000000-0000-0000-0000-00000000002a",
        "-nographic",
        "base=utc,driftfix=slew,clock=host",
        "-qmp",
        "unix:/tmp/qmp,server=on,wait=off",
        "-S",
        "-incoming",
        "defer",
        "-nodefaults",
        "-object",
        "memory-backend-file,id=dimm1,size=2G,mem-path=/dev/hugepages",
        "-numa",
        "node,memdev=dimm1",
        "-smp",
        "2,maxcpus=4",
    ])
}

#[test]
fn compile_in_fixed_order() {
    let c = full_config().build_all_with_uuid(42, "x86_64").unwrap();
    assert_eq!(c.qemu_params, full_args());
    assert_eq!(c.bin_path, "/usr/bin/qemu-system-x86_64");
}

#[test]
fn compile_twice_duplicates() {
    let first = full_config().build_all_with_uuid(42, "x86_64").unwrap();
    let second = first.build_all_with_uuid(42, "x86_64").unwrap();
    assert_eq!(second.qemu_params.len(), 2 * first.qemu_params.len());
    let mut twice = full_args();
    twice.extend(full_args());
    assert_eq!(second.qemu_params, twice);
}

#[test]
fn compile_is_deterministic() {
    let a = full_config().build_all_with_uuid(42, "x86_64").unwrap();
    let b = full_config().build_all_with_uuid(42, "x86_64").unwrap();
    assert_eq!(a.qemu_params, b.qemu_params);
}

#[test]
fn random_uuid_differs_between_compiles() {
    let a = full_config().build_all("x86_64").unwrap();
    let b = full_config().build_all("x86_64").unwrap();
    assert_eq!(a.qemu_params.len(), full_args().len());
    assert_eq!(a.qemu_params[14], "-uuid");
    assert_eq!(a.qemu_params[15].len(), 36);
    assert_eq!(a.qemu_params[15].as_bytes()[14], b'4');
    assert_ne!(a.qemu_params[15], b.qemu_params[15]);
    let mut pinned = a.qemu_params.clone();
    pinned[15] = s("00000000-0000-0000-0000-00000000002a");
    assert_eq!(pinned, full_args());
}

#[test]
fn duplicate_drops_devices() {
    let c = full_config();
    let d = c.clone();
    assert!(d.devices.is_empty());
    assert_eq!(d.name, c.name);
    assert_eq!(d.qemu_params, c.qemu_params);
}

#[test]
fn qemu_from_config_and_dump() {
    let q = Qemu::from_config(full_config(), "x86_64").unwrap();
    assert_eq!(q.bin_path, "/usr/bin/qemu-system-x86_64");
    assert_eq!(q.args.len(), full_args().len());
    let q = Qemu::new(s("qemu"), strings(&["-m", "2G"]));
    assert_eq!(q.dump(), "Binary path: qemu\nargs: [\"-m\", \"2G\"]");
    let mut c = QemuConfig::builder();
    c.cpu_model = s("host");
    assert_eq!(c.dump(), "\"host\"");
}

#[test]
fn qemu_from_config_fails_on_bad_smp() {
    let mut c = full_config();
    c.smp = Smp { cpus: 4, cores: 0, threads: 0, sockets: 0, max_cpus: 2 };
    assert_eq!(Qemu::from_config(c, "x86_64").err(), Some(ConfigError::MaxCpusBelowCpus));
}
