//! Building per-device snapshots from raw provider readings.
//!
//! The provider hands over one raw sample per device: the fields that
//! must be present for a snapshot to make sense at all, and one optional
//! value per independently fallible reading.  Building a snapshot never
//! fails on an absent optional field; each degrades to its documented
//! default (zero, absent, or the configured power limit as the fallback
//! for the maximum power limit), so the operator still sees a mostly
//! populated display under flaky hardware queries.  Only enumeration
//! failures are fatal: zero enumerated devices refuse the whole refresh.

use vstd::prelude::*;

use crate::GpuInfo;
use crate::GpuInfoView;
use crate::device::DeviceInfo;
use crate::device::DeviceInfoView;
use crate::device::MemoryInfo;
use crate::error::Error;
use crate::merge::merge_gpu_processes;
use crate::merge::merged_processes;
use crate::metrics::GpuMetrics;
use crate::numfmt::dec_digits;
use crate::numfmt::u32_to_dec;
use crate::process::ProcessSample;
use crate::process::SampleView;
use crate::sort::sort_desc;

verus! {

/// One raw per-device reading handed in by the telemetry provider.
///
/// The plain fields are those whose failure already failed the whole
/// device query; every `Option` field is an independently fallible
/// reading, `None` when it could not be read this refresh.
pub struct DeviceSample {
    /// Device index (0-based).
    pub index: u32,
    /// Device name.
    pub name: String,
    /// Unique device identifier.
    pub uuid: String,
    /// PCI bus ID.
    pub pci_bus_id: String,
    /// Driver version.
    pub driver_version: String,
    /// Raw CUDA driver version (thousands are the major version, tens
    /// the minor), absent when the runtime does not report one.
    pub cuda_driver_version: Option<u32>,
    /// Configured power limit in milliwatts.
    pub power_limit_mw: Option<u32>,
    /// Maximum allowed power limit in milliwatts.
    pub power_limit_max_mw: Option<u32>,
    /// Memory figures.
    pub memory: MemoryInfo,
    /// GPU utilization percentage.
    pub gpu_utilization: u32,
    /// Memory utilization percentage.
    pub memory_utilization: u32,
    /// Encoder utilization percentage.
    pub encoder_utilization: Option<u32>,
    /// Decoder utilization percentage.
    pub decoder_utilization: Option<u32>,
    /// Temperature in Celsius.
    pub temperature: Option<u32>,
    /// Power usage in milliwatts.
    pub power_usage_mw: Option<u32>,
    /// Fan speed percentage.
    pub fan_speed: Option<u32>,
    /// Graphics clock in MHz.
    pub clock_graphics: Option<u32>,
    /// Memory clock in MHz.
    pub clock_memory: Option<u32>,
    /// SM clock in MHz.
    pub clock_sm: Option<u32>,
    /// The compute-process query's entries.
    pub compute_procs: Vec<ProcessSample>,
    /// The graphics-process query's entries.
    pub graphics_procs: Vec<ProcessSample>,
}

/// Mathematical value of a [`DeviceSample`].
pub struct DeviceSampleView {
    pub index: u32,
    pub name: Seq<char>,
    pub uuid: Seq<char>,
    pub pci_bus_id: Seq<char>,
    pub driver_version: Seq<char>,
    pub cuda_driver_version: Option<u32>,
    pub power_limit_mw: Option<u32>,
    pub power_limit_max_mw: Option<u32>,
    pub memory: MemoryInfo,
    pub gpu_utilization: u32,
    pub memory_utilization: u32,
    pub encoder_utilization: Option<u32>,
    pub decoder_utilization: Option<u32>,
    pub temperature: Option<u32>,
    pub power_usage_mw: Option<u32>,
    pub fan_speed: Option<u32>,
    pub clock_graphics: Option<u32>,
    pub clock_memory: Option<u32>,
    pub clock_sm: Option<u32>,
    pub compute_procs: Seq<SampleView>,
    pub graphics_procs: Seq<SampleView>,
}

impl DeepView for DeviceSample {
    type V = DeviceSampleView;

    open spec fn deep_view(&self) -> DeviceSampleView {
        DeviceSampleView {
            index: self.index,
            name: self.name@,
            uuid: self.uuid@,
            pci_bus_id: self.pci_bus_id@,
            driver_version: self.driver_version@,
            cuda_driver_version: self.cuda_driver_version,
            power_limit_mw: self.power_limit_mw,
            power_limit_max_mw: self.power_limit_max_mw,
            memory: self.memory,
            gpu_utilization: self.gpu_utilization,
            memory_utilization: self.memory_utilization,
            encoder_utilization: self.encoder_utilization,
            decoder_utilization: self.decoder_utilization,
            temperature: self.temperature,
            power_usage_mw: self.power_usage_mw,
            fan_speed: self.fan_speed,
            clock_graphics: self.clock_graphics,
            clock_memory: self.clock_memory,
            clock_sm: self.clock_sm,
            compute_procs: self.compute_procs.deep_view(),
            graphics_procs: self.graphics_procs.deep_view(),
        }
    }
}

/// A fallible reading degraded to zero when absent.
pub open spec fn zero_if_absent(v: Option<u32>) -> u32 {
    match v {
        Some(x) => x,
        None => 0,
    }
}

/// The CUDA version label of a raw version value: major version (the
/// thousands), a dot, minor version (the tens).
pub open spec fn cuda_label_of(v: u32) -> Seq<char> {
    dec_digits((v / 1000) as nat) + "."@ + dec_digits((v % 1000 / 10) as nat)
}

/// The static device information a raw sample builds: power limits are
/// converted from milliwatts to watts (zero when unread), the maximum
/// power limit falls back to the configured limit, and the raw CUDA
/// version becomes its label.
pub open spec fn device_info_of_sample(s: DeviceSampleView) -> DeviceInfoView {
    let power_limit = zero_if_absent(s.power_limit_mw) / 1000;
    DeviceInfoView {
        index: s.index,
        name: s.name,
        uuid: s.uuid,
        pci_bus_id: s.pci_bus_id,
        driver_version: s.driver_version,
        cuda_version: match s.cuda_driver_version {
            Some(v) => Some(cuda_label_of(v)),
            None => None,
        },
        power_limit: power_limit,
        power_limit_max: match s.power_limit_max_mw {
            Some(p) => p / 1000,
            None => power_limit,
        },
    }
}

/// The metrics a raw sample builds: every absent fallible reading
/// degrades to zero, except the fan speed, which stays absent.
pub open spec fn metrics_of_sample(s: DeviceSampleView) -> GpuMetrics {
    GpuMetrics {
        gpu_utilization: s.gpu_utilization,
        memory_utilization: s.memory_utilization,
        encoder_utilization: zero_if_absent(s.encoder_utilization),
        decoder_utilization: zero_if_absent(s.decoder_utilization),
        temperature: zero_if_absent(s.temperature),
        power_usage: zero_if_absent(s.power_usage_mw),
        fan_speed: s.fan_speed,
        clock_graphics: zero_if_absent(s.clock_graphics),
        clock_memory: zero_if_absent(s.clock_memory),
        clock_sm: zero_if_absent(s.clock_sm),
    }
}

/// The full snapshot a raw sample builds: static information, metrics,
/// the memory figures as handed in, and the merged, stably sorted
/// process list.
pub open spec fn gpu_info_of_sample(s: DeviceSampleView) -> GpuInfoView {
    GpuInfoView {
        device: device_info_of_sample(s),
        metrics: metrics_of_sample(s),
        memory: s.memory,
        processes: sort_desc(merged_processes(s.compute_procs, s.graphics_procs)),
    }
}

/// The snapshot list a whole refresh builds, one entry per sample.
pub open spec fn built_snapshots(ss: Seq<DeviceSampleView>) -> Seq<GpuInfoView> {
    Seq::new(ss.len(), |i: int| gpu_info_of_sample(ss[i]))
}

/// A fallible reading, or zero when it was unavailable.
fn or_zero(v: Option<u32>) -> (r: u32)
    ensures
        r == zero_if_absent(v),
{
    match v {
        Some(x) => x,
        None => 0,
    }
}

/// The CUDA version label for a raw version value.
pub fn cuda_version_label(v: u32) -> (r: String)
    ensures
        r@ == cuda_label_of(v),
{
    let mut s = u32_to_dec(v / 1000);
    s.append(".");
    let minor = u32_to_dec(v % 1000 / 10);
    s.append(minor.as_str());
    s
}

/// Builds one device's snapshot from its raw sample, degrading each
/// absent fallible reading to its documented default and merging and
/// sorting the two process lists.
pub fn build_gpu_info(sample: DeviceSample) -> (r: GpuInfo)
    ensures
        r.deep_view() == gpu_info_of_sample(sample.deep_view()),
{
    let ghost sv = sample.deep_view();
    let DeviceSample {
        index,
        name,
        uuid,
        pci_bus_id,
        driver_version,
        cuda_driver_version,
        power_limit_mw,
        power_limit_max_mw,
        memory,
        gpu_utilization,
        memory_utilization,
        encoder_utilization,
        decoder_utilization,
        temperature,
        power_usage_mw,
        fan_speed,
        clock_graphics,
        clock_memory,
        clock_sm,
        compute_procs,
        graphics_procs,
    } = sample;

    let power_limit = or_zero(power_limit_mw) / 1000;
    let power_limit_max = match power_limit_max_mw {
        Some(p) => p / 1000,
        None => power_limit,
    };
    let cuda_version = match cuda_driver_version {
        Some(v) => Some(cuda_version_label(v)),
        None => None,
    };
    let device = DeviceInfo {
        index,
        name,
        uuid,
        pci_bus_id,
        driver_version,
        cuda_version,
        power_limit,
        power_limit_max,
    };
    let metrics = GpuMetrics {
        gpu_utilization,
        memory_utilization,
        encoder_utilization: or_zero(encoder_utilization),
        decoder_utilization: or_zero(decoder_utilization),
        temperature: or_zero(temperature),
        power_usage: or_zero(power_usage_mw),
        fan_speed,
        clock_graphics: or_zero(clock_graphics),
        clock_memory: or_zero(clock_memory),
        clock_sm: or_zero(clock_sm),
    };
    let processes = merge_gpu_processes(compute_procs, graphics_procs);
    GpuInfo { device, metrics, memory, processes }
}

/// Builds the snapshot list of one whole refresh.  Zero enumerated
/// devices are refused with the dedicated error; otherwise every sample
/// yields exactly one snapshot, in enumeration order.
pub fn build_all_gpu_info(samples: Vec<DeviceSample>) -> (r: Result<Vec<GpuInfo>, Error>)
    ensures
        samples@.len() == 0 ==> (r matches Err(e) && e is NoDevices),
        samples@.len() > 0 ==> (r matches Ok(list) && list.deep_view() == built_snapshots(
            samples.deep_view(),
        )),
{
    if samples.len() == 0 {
        return Err(Error::NoDevices);
    }
    let ghost sv = samples.deep_view();
    let mut rest = samples;
    let mut out: Vec<GpuInfo> = Vec::new();
    let ghost mut i: int = 0;
    while rest.len() > 0
        invariant
            sv.len() > 0,
            0 <= i <= sv.len(),
            i + rest.len() == sv.len(),
            rest.deep_view() =~= sv.subrange(i, sv.len() as int),
            out.len() == i,
            forall|t: int| 0 <= t < i ==> out.deep_view()[t] == built_snapshots(sv)[t],
        decreases rest.len(),
    {
        let ghost pre = rest.deep_view();
        let ghost prev = rest@;
        let s = rest.remove(0);
        proof {
            assert(s.deep_view() == pre[0]);
            assert(pre[0] == sv[i]);
            assert forall|j: int| 0 <= j < rest.deep_view().len() implies #[trigger] rest.deep_view()[j]
                == pre[j + 1] by {
                assert(rest@[j] == prev[j + 1]);
            }
            assert(rest.deep_view() =~= sv.subrange(i + 1, sv.len() as int));
        }
        let info = build_gpu_info(s);
        let ghost opre = out.deep_view();
        out.push(info);
        proof {
            i = i + 1;
            assert forall|t: int| 0 <= t < i implies out.deep_view()[t] == built_snapshots(sv)[t] by {
                if t < i - 1 {
                    assert(out.deep_view()[t] == opre[t]);
                } else {
                    assert(out.deep_view()[t] == gpu_info_of_sample(sv[t]));
                }
            }
        }
    }
    proof {
        assert(out.deep_view() =~= built_snapshots(sv));
    }
    Ok(out)
}

} // verus!
