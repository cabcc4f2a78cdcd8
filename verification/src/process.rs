//! Processes observed on a device, and their classification.

use vstd::prelude::*;

verus! {

/// Classification of a process by the kind of query that observed it.
#[derive(Clone, Copy, Debug, PartialEq, Eq, Structural)]
pub enum ProcessType {
    /// Seen by the graphics query only.
    Graphics,
    /// Seen by the compute query only.
    Compute,
    /// Seen by both queries.
    Mixed,
    /// Seen by neither query in a classifiable way.
    Unknown,
}

impl ProcessType {
    /// Short label for a narrow UI column.
    pub fn short_label(&self) -> (r: &'static str)
        ensures
            self is Graphics ==> r@ == "Gfx"@,
            self is Compute ==> r@ == "Comp"@,
            self is Mixed ==> r@ == "Mix"@,
            self is Unknown ==> r@ == "?"@,
    {
        match self {
            ProcessType::Graphics => "Gfx",
            ProcessType::Compute => "Comp",
            ProcessType::Mixed => "Mix",
            ProcessType::Unknown => "?",
        }
    }

    /// Full label, as it appears in machine-readable output.
    pub fn label(&self) -> (r: &'static str)
        ensures
            self is Graphics ==> r@ == "Graphics"@,
            self is Compute ==> r@ == "Compute"@,
            self is Mixed ==> r@ == "Mixed"@,
            self is Unknown ==> r@ == "Unknown"@,
    {
        match self {
            ProcessType::Graphics => "Graphics",
            ProcessType::Compute => "Compute",
            ProcessType::Mixed => "Mixed",
            ProcessType::Unknown => "Unknown",
        }
    }
}

impl DeepView for ProcessType {
    type V = ProcessType;

    open spec fn deep_view(&self) -> ProcessType {
        *self
    }
}

/// One record of the merged, classified process list of a device.
pub struct GpuProcess {
    /// Process ID; unique within one device's merged list per refresh.
    pub pid: u32,
    /// Display name of the process.
    pub name: String,
    /// GPU memory attributed to this process, in bytes.
    pub gpu_memory: u64,
    /// How the process was observed.
    pub process_type: ProcessType,
}

/// Mathematical value of a [`GpuProcess`].
pub struct ProcView {
    pub pid: u32,
    pub name: Seq<char>,
    pub gpu_memory: u64,
    pub process_type: ProcessType,
}

impl DeepView for GpuProcess {
    type V = ProcView;

    open spec fn deep_view(&self) -> ProcView {
        ProcView {
            pid: self.pid,
            name: self.name@,
            gpu_memory: self.gpu_memory,
            process_type: self.process_type,
        }
    }
}

impl GpuProcess {
    /// GPU memory attributed to this process, in MiB.
    pub fn gpu_memory_mib(&self) -> (r: u64)
        ensures
            r == self.gpu_memory / crate::BYTES_PER_MIB,
    {
        self.gpu_memory / crate::BYTES_PER_MIB
    }
}

/// One entry of a raw per-device process query: the PID, the memory the
/// query attributed to it (zero when the reading was unavailable) and the
/// resolved display name, absent when name resolution failed.
pub struct ProcessSample {
    /// Process ID as reported by the query.
    pub pid: u32,
    /// GPU memory in bytes; zero when the query reported it unavailable.
    pub gpu_memory: u64,
    /// Resolved display name, `None` when resolution failed.
    pub name: Option<String>,
}

/// Mathematical value of a [`ProcessSample`].
pub struct SampleView {
    pub pid: u32,
    pub gpu_memory: u64,
    pub name: Option<Seq<char>>,
}

impl DeepView for ProcessSample {
    type V = SampleView;

    open spec fn deep_view(&self) -> SampleView {
        SampleView { pid: self.pid, gpu_memory: self.gpu_memory, name: self.name.deep_view() }
    }
}

/// The display name a sample resolves to: the resolved name, or the fixed
/// placeholder when resolution failed.
pub open spec fn display_name_of(name: Option<Seq<char>>) -> Seq<char> {
    match name {
        Some(n) => n,
        None => "unknown"@,
    }
}

/// The display name of a sampled process: its resolved name, falling back
/// to the fixed placeholder `"unknown"` when resolution failed.
pub fn resolve_process_name(name: Option<String>) -> (r: String)
    ensures
        r@ == display_name_of(name.deep_view()),
{
    match name {
        Some(n) => n,
        None => {
            let r = String::from_str("unknown");
            r
        },
    }
}

} // verus!
