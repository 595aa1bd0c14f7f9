//! A QEMU instance ready to be launched: the binary and its arguments.
use vstd::prelude::*;
use crate::config::{compiled_args, fds_fit, smp_error, ConfigError, QemuConfig};
use crate::text::{concat, debug_list, debug_list_of, texts};

verus! {

/// The binary of a QEMU instance and the arguments it is launched with.
pub struct Qemu {
    /// path of the QEMU binary
    pub bin_path: String,
    /// arguments, handed over as they are
    pub args: Vec<String>,
}

impl Qemu {
    /// An instance with the given binary and arguments.
    pub fn new(bin_path: String, args: Vec<String>) -> (r: Self)
        ensures
            r.bin_path == bin_path,
            r.args == args,
    {
        Qemu { bin_path, args }
    }

    /// Compiles the configuration, with a fresh random uuid on the host
    /// architecture `arch`, into the instance that it launches.
    pub fn from_config(config: QemuConfig, arch: &str) -> (r: Result<Self, ConfigError>)
        requires
            fds_fit(config),
        ensures
            match r {
                Ok(q) => {
                    &&& smp_error(config.smp).is_none()
                    &&& q.bin_path == config.bin_path
                    &&& exists|uuid: u128|
                        uuid != 0 && texts(q.args@) == config.params() + compiled_args(
                            config,
                            uuid,
                            arch@,
                        )
                },
                Err(e) => smp_error(config.smp) == Some(e),
            },
    {
        match config.build_all(arch) {
            Ok(compiled) => {
                let q = Qemu { bin_path: compiled.bin_path, args: compiled.qemu_params };
                let ghost uuid = choose|uuid: u128|
                    uuid != 0 && crate::config::compiles_to(config, uuid, arch@, Ok(compiled));
                assert(texts(q.args@) == config.params() + compiled_args(config, uuid, arch@));
                Ok(q)
            },
            Err(e) => Err(e),
        }
    }

    /// The binary path and the arguments, for diagnostics.
    pub fn dump(&self) -> (r: String)
        ensures
            r@ == "Binary path: "@ + self.bin_path@ + "\nargs: "@ + debug_list_of(texts(self.args@)),
    {
        let head = concat("Binary path: ", self.bin_path.as_str());
        let head = concat(head.as_str(), "\nargs: ");
        concat(head.as_str(), debug_list(&self.args).as_str())
    }
}

} // verus!
