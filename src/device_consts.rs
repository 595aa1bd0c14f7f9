//! Names of QEMU device drivers, object types, filesystem drivers and
//! security models.
use vstd::prelude::*;

verus! {

pub type ObjectType = String;

/// MemoryBackendFile represents a guest memory mapped file.
pub const MEMORYBACKENDFILE: &'static str = "memory-backend-file";

/// MemoryBackendEPC represents a guest memory backend EPC for SGX.
pub const MEMORYBACKENDEPC: &'static str = "memory-backend-epc";

/// TDXGuest represents a TDX object
pub const TDXGUEST: &'static str = "tdx-guest";

/// SEVGuest represents an SEV guest object
pub const SEVGUEST: &'static str = "sev-guest";

/// SNPGuest represents an SNP guest object
pub const SNPGUEST: &'static str = "sev-snp-guest";

/// SecExecGuest represents an s390x Secure Execution (Protected Virtualization in QEMU) object
pub const SECEXECGUEST: &'static str = "s390-pv-guest";

/// PEFGuest represent ppc64le PEF(Protected Execution Facility) object.
pub const PEFGUEST: &'static str = "pef-guest";

pub type DeviceDriver = String;

/// LegacySerial is the legacy serial device driver
pub const LEGACYSERIAL: &'static str = "serial";

/// NVDIMM is the Non Volatile DIMM device driver.
pub const NVDIMM: &'static str = "nvdimm";

/// VirtioNet is the virtio networking device driver.
pub const VIRTIONET: &'static str = "virtio-net";

/// VirtioNetPCI is the virt-io pci networking device driver.
pub const VIRTIONETPCI: &'static str = "virtio-net-pci";

/// VirtioNetCCW is the virt-io ccw networking device driver.
pub const VIRTIONETCCW: &'static str = "virtio-net-ccw";

/// VirtioBlock is the block device driver.
pub const VIRTIOBLOCK: &'static str = "virtio-blk";

/// Console is the console device driver.
pub const CONSOLE: &'static str = "virtconsole";

/// Virtio9P is the 9pfs device driver.
pub const VIRTIO9P: &'static str = "virtio-9p";

/// VirtioSerial is the serial device driver.
pub const VIRTIOSERIAL: &'static str = "virtio-serial";

/// VirtioSerialPort is the serial port device driver.
pub const VIRTIOSERIALPORT: &'static str = "virtserialport";

/// VirtioRng is the paravirtualized RNG device driver.
pub const VIRTIORNG: &'static str = "virtio-rng";

/// VirtioBalloon is the memory balloon device driver.
pub const VIRTIOBALLOON: &'static str = "virtio-balloon";

/// VhostUserSCSI represents a SCSI vhostuser device type.
pub const VHOSTUSERSCSI: &'static str = "vhost-user-scsi";

/// VhostUserNet represents a net vhostuser device type.
pub const VHOSTUSERNET: &'static str = "virtio-net";

/// VhostUserBlk represents a block vhostuser device type.
pub const VHOSTUSERBLK: &'static str = "vhost-user-blk";

/// VhostUserFS represents a virtio-fs vhostuser device type
pub const VHOSTUSERFS: &'static str = "vhost-user-fs";

/// PCIBridgeDriver represents a PCI bridge device type.
pub const PCIBRIDGEDRIVER: &'static str = "pci-bridge";

/// PCIePCIBridgeDriver represents a PCIe to PCI bridge device type.
pub const PCIEPCIBRIDGEDRIVER: &'static str = "pcie-pci-bridge";

/// VfioPCI is the vfio driver with PCI transport.
pub const VFIOPCI: &'static str = "vfio-pci";

/// VfioCCW is the vfio driver with CCW transport.
pub const VFIOCCW: &'static str = "vfio-ccw";

/// VfioAP is the vfio driver with AP transport.
pub const VFIOAP: &'static str = "vfio-ap";

/// VHostVSockPCI is a generic Vsock vhost device with PCI transport.
pub const VHOSTVSOCKPCI: &'static str = "vhost-vsock-pci";

/// PCIeRootPort is a PCIe Root Port, the PCIe device should be hotplugged to this port.
pub const PCIEROOTPORT: &'static str = "pcie-root-port";

/// Loader is the Loader device driver.
pub const LOADER: &'static str = "loader";

/// SpaprTPMProxy is used for enabling guest to run in secure mode on ppc64le.
pub const SPAPRTPMPROXY: &'static str = "spapr-tpm-proxy";

pub type FsDriver = String;

pub const LOCAL: &'static str = "local";

pub const HANDLE: &'static str = "handle";

pub const PROXY: &'static str = "proxy";

pub type SecurityModel = String;

/// None is like passthrough without failure reports.
pub const NONE: &'static str = "none";

/// PassThrough uses the same credentials on both the host and guest.
pub const PASSTHROUGH: &'static str = "passthrough";

/// MappedXattr stores some files attributes as extended attributes.
pub const MAPPEDXATTR: &'static str = "mapped-xattr";

/// MappedFile stores some files attributes in the .virtfs directory.
pub const MAPPEDFILE: &'static str = "mapped-file";

} // verus!
