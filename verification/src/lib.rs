//! Core state and logic of a terminal GPU monitor.
//!
//! The library turns point-in-time device samples, delivered as plain
//! values by an outside telemetry provider, into an immutable snapshot per
//! device: static device information, current metrics, memory figures and a
//! deduplicated, classified, stably sorted process list.  Across snapshots
//! it maintains bounded per-device history series for trend display and a
//! scroll offset that stays within the process list as the list shrinks or
//! grows between refreshes.
//!
//! Querying the hardware, reading input events and drawing the view are
//! outside collaborators; they exchange plain values with this library.

use vstd::prelude::*;

mod app;
mod device;
mod error;
mod history;
mod json;
mod merge;
mod metrics;
mod numfmt;
mod process;
mod snapshot;
mod sort;
mod textfmt;

pub use app::App;
pub use app::InputAction;
pub use app::TickAction;
pub use app::max_scroll_of;
pub use app::memory_samples;
pub use app::refreshed_scroll;
pub use app::scrolled_down;
pub use app::util_samples;
pub use device::DeviceInfo;
pub use device::DeviceInfoView;
pub use device::MemoryInfo;
pub use device::usage_percent_of;
pub use error::CommandError;
pub use error::Error;
pub use error::error_message_of;
pub use history::HISTORY_DEPTH;
pub use history::grown_series;
pub use history::history_bounded;
pub use history::lemma_history_depth_bounded;
pub use history::lemma_updated_history_bounded;
pub use history::push_history_sample;
pub use history::pushed_capped;
pub use history::update_history;
pub use history::updated_history;
pub use json::esc_char;
pub use json::hex_digit_char;
pub use json::json_escaped;
pub use json::json_of_device;
pub use json::json_of_gpu_info;
pub use json::json_of_memory;
pub use json::json_of_metrics;
pub use json::json_of_process;
pub use json::json_of_process_items;
pub use json::json_of_process_type;
pub use json::json_of_snapshot_items;
pub use json::json_of_snapshots;
pub use json::json_opt_string;
pub use json::json_opt_u32;
pub use json::json_string;
pub use json::snapshots_json;
pub use merge::compute_entry;
pub use merge::find_pid;
pub use merge::graphics_entry;
pub use merge::lemma_find_pid;
pub use merge::lemma_merge_disjoint_pids;
pub use merge::lemma_merged_pids_unique;
pub use merge::max_memory;
pub use merge::merge_all;
pub use merge::merge_gpu_processes;
pub use merge::merge_one;
pub use merge::merged_processes;
pub use merge::pids_unique;
pub use merge::seeded_compute;
pub use metrics::GpuMetrics;
pub use metrics::TemperatureStatus;
pub use metrics::temperature_status_of;
pub use numfmt::dec_digits;
pub use numfmt::digit_char;
pub use numfmt::u32_to_dec;
pub use numfmt::u64_to_dec;
pub use process::GpuProcess;
pub use process::ProcView;
pub use process::ProcessSample;
pub use process::ProcessType;
pub use process::SampleView;
pub use process::display_name_of;
pub use process::resolve_process_name;
pub use snapshot::DeviceSample;
pub use snapshot::DeviceSampleView;
pub use snapshot::build_all_gpu_info;
pub use snapshot::build_gpu_info;
pub use snapshot::built_snapshots;
pub use snapshot::cuda_label_of;
pub use snapshot::cuda_version_label;
pub use snapshot::device_info_of_sample;
pub use snapshot::gpu_info_of_sample;
pub use snapshot::metrics_of_sample;
pub use snapshot::zero_if_absent;
pub use sort::has_memory;
pub use sort::insert_desc;
pub use sort::lemma_sort_desc_permutes;
pub use sort::lemma_sort_desc_sorted;
pub use sort::lemma_sort_desc_stable;
pub use sort::sort_desc;
pub use sort::sort_processes_by_memory;
pub use sort::sorted_by_memory_desc;
pub use textfmt::truncate_str;
pub use textfmt::truncated;

verus! {

/// Bytes in one mebibyte, the unit used by the table views.
pub const BYTES_PER_MIB: u64 = 1024 * 1024;

/// Complete information of one device in one refresh: static device
/// information, current metrics, memory figures and the merged, sorted
/// process list.  Rebuilt wholesale every refresh tick and committed
/// atomically; never mutated in place.
pub struct GpuInfo {
    /// Static device information.
    pub device: DeviceInfo,
    /// Current metrics.
    pub metrics: GpuMetrics,
    /// Memory figures.
    pub memory: MemoryInfo,
    /// Processes using this device, sorted by memory, largest first.
    pub processes: Vec<GpuProcess>,
}

/// Mathematical value of a [`GpuInfo`].
pub struct GpuInfoView {
    pub device: device::DeviceInfoView,
    pub metrics: GpuMetrics,
    pub memory: MemoryInfo,
    pub processes: Seq<ProcView>,
}

impl DeepView for GpuInfo {
    type V = GpuInfoView;

    open spec fn deep_view(&self) -> GpuInfoView {
        GpuInfoView {
            device: self.device.deep_view(),
            metrics: self.metrics,
            memory: self.memory,
            processes: self.processes.deep_view(),
        }
    }
}

} // verus!
