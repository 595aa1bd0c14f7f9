//! Devices that can be attached to a virtual machine.
use vstd::prelude::*;
use crate::config::QemuConfig;
use crate::device_consts::{DeviceDriver, FsDriver, ObjectType, SecurityModel};

verus! {

/// A QEMU object.
pub struct Object {
    /// device driver
    pub driver: DeviceDriver,
    /// object type
    pub obj_type: ObjectType,
    /// object id
    pub id: String,
    /// device id
    pub device_id: String,
    /// memory path, for memory objects
    pub mem_path: String,
    /// size in bytes
    pub size: u64,
    /// whether this is a debug object
    pub debug: bool,
    /// device file
    pub file: String,
    /// firmware configuration volume
    pub firmware_volume: String,
    /// position of the C-bit in a guest page table entry, for sev-guest
    /// objects
    pub c_bit_pos: u32,
    /// reduction of the guest physical address space, for sev-guest objects
    pub reduced_physical_bits: u32,
    /// whether the memory path is opened read-only
    pub rd_only: bool,
    /// whether memory is allocated up front
    pub prealloc: bool,
}

/// A filesystem shared with the guest.
pub struct FSDevice {
    /// device driver
    pub driver: DeviceDriver,
    /// filesystem driver backend
    pub fs_driver: FsDriver,
    /// filesystem id
    pub id: String,
    /// host root path
    pub path: String,
    /// mount tag in the guest
    pub mount_tag: String,
    /// security model
    pub security_model: SecurityModel,
    /// whether fast MMIO is not relied on
    pub disabled_modern: bool,
    /// ROM file
    pub rom_file: String,
    /// ccw device number, for s390x
    pub devno: String,
    /// virtio transport
    pub transport: String,
    /// behaviour with several devices under one 9p export
    pub multidev: String,
}

/// A network device.
pub struct NetDevice {}

/// A character device.
pub struct CharDevice {}

/// A legacy serial device.
pub struct LegacySerialDevice {}

/// A virtio serial device.
pub struct SerialDevice {}

/// A block device.
pub struct BlockDevice {}

/// A pvpanic device.
pub struct PVPanicDevice {}

/// A generic loader device.
pub struct LoaderDevice {}

/// A vhost-user device.
pub struct VhostUserDevice {}

/// A PCIe root port.
pub struct PcieRootPortDevice {}

/// A VFIO device.
pub struct VFIODevice {}

/// A SCSI controller.
pub struct ScsiController {}

/// A PCI bridge.
pub struct BridgeDevice {}

/// A vsock device.
pub struct VSockDevice {}

/// A random number generator device.
pub struct RngDevice {}

/// A memory balloon device.
pub struct BalloonDevice {}

/// An IOMMU device.
pub struct IommuDevice {}

/// A firmware configuration device.
pub struct FwConfig {}

/// A device of the virtual machine: a closed set of variants, each of which
/// decides its own validity and its own arguments.
///
/// No variant defines an argument form: each reports itself invalid, and
/// compiling skips it.
pub enum Device {
    Object(Object),
    FS(FSDevice),
    Net(NetDevice),
    Char(CharDevice),
    LegacySerial(LegacySerialDevice),
    Serial(SerialDevice),
    Block(BlockDevice),
    PVPanic(PVPanicDevice),
    Loader(LoaderDevice),
    VhostUser(VhostUserDevice),
    PcieRootPort(PcieRootPortDevice),
    VFIO(VFIODevice),
    Scsi(ScsiController),
    Bridge(BridgeDevice),
    VSock(VSockDevice),
    Rng(RngDevice),
    Balloon(BalloonDevice),
    Iommu(IommuDevice),
    FwConfig(FwConfig),
}

impl Device {
    /// Whether the device can be handed to QEMU.
    pub open spec fn is_valid(&self) -> bool {
        false
    }

    /// The tokens that the device contributes when valid.
    pub open spec fn args(&self) -> Seq<Seq<char>> {
        Seq::empty()
    }

    /// Whether the device can be handed to QEMU.
    pub fn valid(&self) -> (r: bool)
        ensures
            r == self.is_valid(),
    {
        false
    }

    /// Appends the device's arguments to the configuration.
    pub fn set_qemu_params(&self, config: &mut QemuConfig)
        ensures
            final(config).params() == old(config).params() + self.args(),
            final(config).keeps(old(config)),
    {
        assert(old(config).params() + self.args() =~= old(config).params());
    }
}

} // verus!
