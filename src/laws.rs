//! Laws of the compiler that relate its domains and its calls.
use vstd::prelude::*;
use crate::config::{
    compiled_args, compiles_to, flag_if_set, incoming_args, io_thread_args, kernel_args,
    knobs_memory_args, machine_args, memory_args, qmp_args, rtc_args, smp_args, smp_error,
    uuid_args, ConfigError, QemuConfig,
};
use crate::device::Device;
use crate::text::tokens_when;
use crate::types::{
    Incoming, IoThread, Kernel, Knobs, Machine, Memory, QmpSocket, Rtc, Smp, MIGRATION_DEFER,
    MIGRATION_EXEC, MIGRATION_FD,
};

verus! {

/// A domain whose deciding field is empty contributes no tokens, and the
/// topology without CPUs raises no error: a machine without a type, memory
/// without a size (the memory knobs included), a topology without CPUs, a
/// kernel without an image, a flag whose value is empty, the nil uuid, an
/// invalid clock or QMP socket, an IO thread without an id, and a migration
/// of no known type.
pub proof fn lemma_empty_domains_emit_nothing(
    machine: Machine,
    memory: Memory,
    smp: Smp,
    kernel: Kernel,
    flag: Seq<char>,
    value: Seq<char>,
    rtc: Rtc,
    socket: QmpSocket,
    thread: IoThread,
    incoming: Incoming,
    offset: nat,
    knobs: Knobs,
    machine_type: Seq<char>,
    arch: Seq<char>,
)
    ensures
        machine.machine_type@.len() == 0 ==> machine_args(machine).len() == 0,
        memory.size@.len() == 0 ==> memory_args(memory).len() == 0,
        memory.size@.len() == 0 ==> knobs_memory_args(knobs, memory, machine_type, arch).len()
            == 0,
        smp.cpus == 0 ==> smp_args(smp).len() == 0 && smp_error(smp).is_none(),
        kernel.path@.len() == 0 ==> kernel_args(kernel).len() == 0,
        value.len() == 0 ==> flag_if_set(flag, value).len() == 0,
        uuid_args(0).len() == 0,
        !rtc.is_valid() ==> rtc_args(rtc).len() == 0,
        !socket.is_valid() ==> qmp_args(socket).len() == 0,
        thread.id@.len() == 0 ==> io_thread_args(thread).len() == 0,
        incoming.migration_type@ != MIGRATION_EXEC@ && incoming.migration_type@ != MIGRATION_FD@
            && incoming.migration_type@ != MIGRATION_DEFER@ ==> incoming_args(
            incoming,
            offset,
        ).len() == 0,
{
    reveal(tokens_when);
}

/// An empty record, compiled with the nil uuid, gets no tokens at all: every
/// domain's deciding field is empty.
pub proof fn lemma_empty_record_compiles_to_nothing(c: QemuConfig, arch: Seq<char>)
    requires
        c.is_empty_record(),
    ensures
        compiled_args(c, 0, arch).len() == 0,
{
    reveal(tokens_when);
    reveal_strlit("host");
    reveal_strlit("rt");
    reveal_strlit("vm");
    reveal_strlit("exec");
    reveal_strlit("fd");
    reveal_strlit("defer");
    assert(c.rtc.clock@ != "host"@ && c.rtc.clock@ != "rt"@ && c.rtc.clock@ != "vm"@);
    assert(c.incoming.migration_type@ != MIGRATION_EXEC@);
    assert(c.incoming.migration_type@ != MIGRATION_FD@);
    assert(c.incoming.migration_type@ != MIGRATION_DEFER@);
    assert(c.qmp_sockets@ =~= Seq::<QmpSocket>::empty());
    assert(c.io_threads@ =~= Seq::<IoThread>::empty());
    assert(c.pflashs@ =~= Seq::<String>::empty());
    assert(c.devices@ =~= Seq::<Device>::empty());
}

/// Compiling is not idempotent: compiling a compiled record again, with the
/// same uuid on the same architecture, appends a second copy of what the
/// first compile appended, so the second adds exactly as many tokens as the
/// first. It holds of records without devices (a compiled record carries
/// none) and without an `fd` migration (each compile hands over one more
/// descriptor, at a new offset).
pub proof fn lemma_compile_twice_duplicates(
    base: QemuConfig,
    uuid: u128,
    arch: Seq<char>,
    first: QemuConfig,
    second: Result<QemuConfig, ConfigError>,
)
    requires
        base.devices@.len() == 0,
        base.incoming.migration_type@ != MIGRATION_FD@,
        compiles_to(base, uuid, arch, Ok(first)),
        compiles_to(first, uuid, arch, second),
    ensures
        second is Ok,
        second->Ok_0.params() == first.params() + compiled_args(base, uuid, arch),
        second->Ok_0.params() == base.params() + compiled_args(base, uuid, arch) + compiled_args(
            base,
            uuid,
            arch,
        ),
        second->Ok_0.params().len() - first.params().len() == first.params().len()
            - base.params().len(),
{
    assert(first.devices@ =~= base.devices@);
    assert(compiled_args(first, uuid, arch) == compiled_args(base, uuid, arch));
}

/// Compiling is deterministic: two records with the same settings,
/// descriptors, devices and arguments, compiled with the same uuid on the
/// same architecture, give the same tokens in the same order, or the same
/// error.
pub proof fn lemma_compile_deterministic(
    a: QemuConfig,
    b: QemuConfig,
    uuid: u128,
    arch: Seq<char>,
    ra: Result<QemuConfig, ConfigError>,
    rb: Result<QemuConfig, ConfigError>,
)
    requires
        a.same_settings(&b),
        a.fds@ == b.fds@,
        a.devices@ == b.devices@,
        a.params() == b.params(),
        compiles_to(a, uuid, arch, ra),
        compiles_to(b, uuid, arch, rb),
    ensures
        match (ra, rb) {
            (Ok(x), Ok(y)) => x.params() == y.params(),
            (Err(e), Err(f)) => e == f,
            _ => false,
        },
{
    assert(compiled_args(a, uuid, arch) == compiled_args(b, uuid, arch));
}

} // verus!
