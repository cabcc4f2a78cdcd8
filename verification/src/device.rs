//! Static device information and memory figures.

use vstd::prelude::*;

verus! {

/// Static information about one GPU device, read once per refresh.
pub struct DeviceInfo {
    /// Device index (0-based, stable for the process lifetime).
    pub index: u32,
    /// Device name.
    pub name: String,
    /// Unique device identifier.
    pub uuid: String,
    /// PCI bus ID.
    pub pci_bus_id: String,
    /// Driver version.
    pub driver_version: String,
    /// CUDA version label (if available).
    pub cuda_version: Option<String>,
    /// Power limit in watts.
    pub power_limit: u32,
    /// Maximum power limit in watts.
    pub power_limit_max: u32,
}

/// Mathematical value of a [`DeviceInfo`].
pub struct DeviceInfoView {
    pub index: u32,
    pub name: Seq<char>,
    pub uuid: Seq<char>,
    pub pci_bus_id: Seq<char>,
    pub driver_version: Seq<char>,
    pub cuda_version: Option<Seq<char>>,
    pub power_limit: u32,
    pub power_limit_max: u32,
}

impl DeepView for DeviceInfo {
    type V = DeviceInfoView;

    open spec fn deep_view(&self) -> DeviceInfoView {
        DeviceInfoView {
            index: self.index,
            name: self.name@,
            uuid: self.uuid@,
            pci_bus_id: self.pci_bus_id@,
            driver_version: self.driver_version@,
            cuda_version: self.cuda_version.deep_view(),
            power_limit: self.power_limit,
            power_limit_max: self.power_limit_max,
        }
    }
}

/// GPU memory figures as reported by the provider.
///
/// The provider's values are trusted as-is: `used + free == total` is not
/// enforced here.
#[derive(Clone, Copy)]
pub struct MemoryInfo {
    /// Total memory in bytes.
    pub total: u64,
    /// Used memory in bytes.
    pub used: u64,
    /// Free memory in bytes.
    pub free: u64,
}

impl DeepView for MemoryInfo {
    type V = MemoryInfo;

    open spec fn deep_view(&self) -> MemoryInfo {
        *self
    }
}

/// Memory usage as a whole percentage: `used * 100 / total`, rounded down,
/// 0 when the total is 0, and saturated at `u64::MAX` for degenerate
/// provider reports where `used` vastly exceeds `total`.
pub open spec fn usage_percent_of(used: u64, total: u64) -> u64 {
    if total == 0 {
        0
    } else if used * 100 / (total as int) > u64::MAX {
        u64::MAX
    } else {
        (used * 100 / (total as int)) as u64
    }
}

impl MemoryInfo {
    /// Memory usage as a whole percentage (0-100 whenever `used <= total`).
    ///
    /// A zero total reports zero usage rather than a division error.
    pub fn usage_percent(&self) -> (r: u64)
        ensures
            r == usage_percent_of(self.used, self.total),
    {
        if self.total == 0 {
            0
        } else {
            proof {
                lemma_percent_quotient_bound(self.used as int, self.total as int);
            }
            let q: u128 = ((self.used as u128) * 100) / (self.total as u128);
            if q > (u64::MAX as u128) {
                u64::MAX
            } else {
                q as u64
            }
        }
    }

    /// Total memory in MiB.
    pub fn total_mib(&self) -> (r: u64)
        ensures
            r == self.total / crate::BYTES_PER_MIB,
    {
        self.total / crate::BYTES_PER_MIB
    }

    /// Used memory in MiB.
    pub fn used_mib(&self) -> (r: u64)
        ensures
            r == self.used / crate::BYTES_PER_MIB,
    {
        self.used / crate::BYTES_PER_MIB
    }

    /// Free memory in MiB.
    pub fn free_mib(&self) -> (r: u64)
        ensures
            r == self.free / crate::BYTES_PER_MIB,
    {
        self.free / crate::BYTES_PER_MIB
    }
}

/// The product `used * 100` fits in a `u128` and its quotient by `total`
/// is nonnegative and no larger than the product itself.
proof fn lemma_percent_quotient_bound(used: int, total: int)
    requires
        0 <= used <= u64::MAX,
        1 <= total,
    ensures
        0 <= used * 100 <= u128::MAX,
        0 <= used * 100 / total <= used * 100,
{
    assert(used * 100 <= u64::MAX as int * 100) by (nonlinear_arith)
        requires 0 <= used <= u64::MAX
    ;
    assert(0 <= used * 100 / total <= used * 100) by (nonlinear_arith)
        requires 0 <= used * 100, 1 <= total
    ;
}

} // verus!
