//! Machine-readable snapshot output.
//!
//! One refresh's snapshot list rendered as a single JSON document: an
//! array of per-device objects, each holding the static device
//! information, the metrics, the memory figures and the process list.
//! This is the document a streaming watch mode emits once per sample.

use vstd::prelude::*;

use crate::GpuInfo;
use crate::GpuInfoView;
use crate::device::DeviceInfo;
use crate::device::DeviceInfoView;
use crate::device::MemoryInfo;
use crate::metrics::GpuMetrics;
use crate::numfmt::dec_digits;
use crate::numfmt::u32_to_dec;
use crate::numfmt::u64_to_dec;
use crate::process::GpuProcess;
use crate::process::ProcView;
use crate::process::ProcessType;

verus! {

/// The lower-case hexadecimal digit character for a value below 16.
pub open spec fn hex_digit_char(d: nat) -> char {
    if d < 10 {
        crate::numfmt::digit_char(d)
    } else if d == 10 {
        'a'
    } else if d == 11 {
        'b'
    } else if d == 12 {
        'c'
    } else if d == 13 {
        'd'
    } else if d == 14 {
        'e'
    } else {
        'f'
    }
}

/// How one character appears inside a JSON string literal: quote,
/// backslash and the named control characters get a two-character
/// escape, other control characters a `\u00..` escape, and everything
/// else stands for itself.
pub open spec fn esc_char(c: char) -> Seq<char> {
    if c == '"' {
        "\\\""@
    } else if c == '\\' {
        "\\\\"@
    } else if c == '\n' {
        "\\n"@
    } else if c == '\r' {
        "\\r"@
    } else if c == '\t' {
        "\\t"@
    } else if (c as u32) < 32 {
        "\\u00"@ + seq![hex_digit_char((c as u32 / 16) as nat)] + seq![
            hex_digit_char((c as u32 % 16) as nat),
        ]
    } else {
        seq![c]
    }
}

/// A whole string escaped for a JSON string literal.
pub open spec fn json_escaped(s: Seq<char>) -> Seq<char>
    decreases s.len(),
{
    if s.len() == 0 {
        Seq::empty()
    } else {
        json_escaped(s.drop_last()) + esc_char(s.last())
    }
}

/// A JSON string literal: the escaped text in double quotes.
pub open spec fn json_string(s: Seq<char>) -> Seq<char> {
    "\""@ + json_escaped(s) + "\""@
}

/// An optional string: a JSON string literal, or `null`.
pub open spec fn json_opt_string(o: Option<Seq<char>>) -> Seq<char> {
    match o {
        Some(s) => json_string(s),
        None => "null"@,
    }
}

/// An optional number: its decimal rendering, or `null`.
pub open spec fn json_opt_u32(o: Option<u32>) -> Seq<char> {
    match o {
        Some(v) => dec_digits(v as nat),
        None => "null"@,
    }
}

/// The JSON string literal of a process classification.
pub open spec fn json_of_process_type(t: ProcessType) -> Seq<char> {
    match t {
        ProcessType::Graphics => "\"Graphics\""@,
        ProcessType::Compute => "\"Compute\""@,
        ProcessType::Mixed => "\"Mixed\""@,
        ProcessType::Unknown => "\"Unknown\""@,
    }
}

/// The JSON object of one device's static information.
pub open spec fn json_of_device(d: DeviceInfoView) -> Seq<char> {
    "{\"index\":"@ + dec_digits(d.index as nat) + ",\"name\":"@ + json_string(d.name)
        + ",\"uuid\":"@ + json_string(d.uuid) + ",\"pci_bus_id\":"@ + json_string(d.pci_bus_id)
        + ",\"driver_version\":"@ + json_string(d.driver_version) + ",\"cuda_version\":"@
        + json_opt_string(d.cuda_version) + ",\"power_limit\":"@ + dec_digits(
        d.power_limit as nat,
    ) + ",\"power_limit_max\":"@ + dec_digits(d.power_limit_max as nat) + "}"@
}

/// The JSON object of one device's metrics.
pub open spec fn json_of_metrics(m: GpuMetrics) -> Seq<char> {
    "{\"gpu_utilization\":"@ + dec_digits(m.gpu_utilization as nat) + ",\"memory_utilization\":"@
        + dec_digits(m.memory_utilization as nat) + ",\"encoder_utilization\":"@ + dec_digits(
        m.encoder_utilization as nat,
    ) + ",\"decoder_utilization\":"@ + dec_digits(m.decoder_utilization as nat)
        + ",\"temperature\":"@ + dec_digits(m.temperature as nat) + ",\"power_usage\":"@
        + dec_digits(m.power_usage as nat) + ",\"fan_speed\":"@ + json_opt_u32(m.fan_speed)
        + ",\"clock_graphics\":"@ + dec_digits(m.clock_graphics as nat) + ",\"clock_memory\":"@
        + dec_digits(m.clock_memory as nat) + ",\"clock_sm\":"@ + dec_digits(m.clock_sm as nat)
        + "}"@
}

/// The JSON object of one device's memory figures.
pub open spec fn json_of_memory(m: MemoryInfo) -> Seq<char> {
    "{\"total\":"@ + dec_digits(m.total as nat) + ",\"used\":"@ + dec_digits(m.used as nat)
        + ",\"free\":"@ + dec_digits(m.free as nat) + "}"@
}

/// The JSON object of one process record.
pub open spec fn json_of_process(p: ProcView) -> Seq<char> {
    "{\"pid\":"@ + dec_digits(p.pid as nat) + ",\"name\":"@ + json_string(p.name)
        + ",\"gpu_memory_bytes\":"@ + dec_digits(p.gpu_memory as nat) + ",\"type\":"@
        + json_of_process_type(p.process_type) + "}"@
}

/// The comma-joined process objects of one device.
pub open spec fn json_of_process_items(ps: Seq<ProcView>) -> Seq<char>
    decreases ps.len(),
{
    if ps.len() == 0 {
        Seq::empty()
    } else if ps.len() == 1 {
        json_of_process(ps[0])
    } else {
        json_of_process_items(ps.drop_last()) + ","@ + json_of_process(ps.last())
    }
}

/// The JSON object of one device's whole snapshot.
pub open spec fn json_of_gpu_info(g: GpuInfoView) -> Seq<char> {
    "{\"device\":"@ + json_of_device(g.device) + ",\"metrics\":"@ + json_of_metrics(g.metrics)
        + ",\"memory\":"@ + json_of_memory(g.memory) + ",\"processes\":["@
        + json_of_process_items(g.processes) + "]}"@
}

/// The comma-joined snapshot objects of one refresh.
pub open spec fn json_of_snapshot_items(gs: Seq<GpuInfoView>) -> Seq<char>
    decreases gs.len(),
{
    if gs.len() == 0 {
        Seq::empty()
    } else if gs.len() == 1 {
        json_of_gpu_info(gs[0])
    } else {
        json_of_snapshot_items(gs.drop_last()) + ","@ + json_of_gpu_info(gs.last())
    }
}

/// The JSON document of one refresh: the array of snapshot objects.
pub open spec fn json_of_snapshots(gs: Seq<GpuInfoView>) -> Seq<char> {
    "["@ + json_of_snapshot_items(gs) + "]"@
}

/// The one-character string for a lower-case hexadecimal digit.
fn hex_digit_str(d: u32) -> (r: &'static str)
    requires
        d < 16,
    ensures
        r@ == seq![hex_digit_char(d as nat)],
{
    if d < 10 {
        crate::numfmt::digit_str(d as u64)
    } else if d == 10 {
        proof {
            reveal_strlit("a");
            assert("a"@ =~= seq![hex_digit_char(10)]);
        }
        "a"
    } else if d == 11 {
        proof {
            reveal_strlit("b");
            assert("b"@ =~= seq![hex_digit_char(11)]);
        }
        "b"
    } else if d == 12 {
        proof {
            reveal_strlit("c");
            assert("c"@ =~= seq![hex_digit_char(12)]);
        }
        "c"
    } else if d == 13 {
        proof {
            reveal_strlit("d");
            assert("d"@ =~= seq![hex_digit_char(13)]);
        }
        "d"
    } else if d == 14 {
        proof {
            reveal_strlit("e");
            assert("e"@ =~= seq![hex_digit_char(14)]);
        }
        "e"
    } else {
        proof {
            reveal_strlit("f");
            assert("f"@ =~= seq![hex_digit_char(15)]);
        }
        "f"
    }
}

/// Appends the escaped form of `s` to `out`.
fn append_escaped(out: &mut String, s: &str)
    ensures
        final(out)@ == old(out)@ + json_escaped(s@),
{
    let ghost base = old(out)@;
    let n = s.unicode_len();
    let mut i: usize = 0;
    while i < n
        invariant
            n == s@.len(),
            i <= n,
            out@ == base + json_escaped(s@.subrange(0, i as int)),
        decreases n - i,
    {
        let ghost done = s@.subrange(0, i as int);
        let c = s.get_char(i);
        if c == '"' {
            out.append("\\\"");
        } else if c == '\\' {
            out.append("\\\\");
        } else if c == '\n' {
            out.append("\\n");
        } else if c == '\r' {
            out.append("\\r");
        } else if c == '\t' {
            out.append("\\t");
        } else if (c as u32) < 32 {
            let code = c as u32;
            out.append("\\u00");
            out.append(hex_digit_str(code / 16));
            out.append(hex_digit_str(code % 16));
        } else {
            let piece = s.substring_char(i, i + 1);
            proof {
                assert(piece@ =~= seq![c]);
            }
            out.append(piece);
        }
        proof {
            let next = s@.subrange(0, i + 1);
            assert(next.drop_last() =~= done);
            assert(next.last() == c);
            assert(out@ =~= base + json_escaped(next));
        }
        i += 1;
    }
    proof {
        assert(s@.subrange(0, n as int) =~= s@);
    }
}

/// Appends the JSON string literal of `s` to `out`.
fn append_json_string(out: &mut String, s: &str)
    ensures
        final(out)@ == old(out)@ + json_string(s@),
{
    out.append("\"");
    append_escaped(out, s);
    out.append("\"");
    proof {
        assert(out@ =~= old(out)@ + json_string(s@));
    }
}

/// Appends the decimal rendering of `v` to `out`.
fn append_u64(out: &mut String, v: u64)
    ensures
        final(out)@ == old(out)@ + dec_digits(v as nat),
{
    let d = u64_to_dec(v);
    out.append(d.as_str());
}

/// Appends the decimal rendering of `v` to `out`.
fn append_u32(out: &mut String, v: u32)
    ensures
        final(out)@ == old(out)@ + dec_digits(v as nat),
{
    let d = u32_to_dec(v);
    out.append(d.as_str());
}

/// Appends the JSON object of a device's static information.
#[verifier::rlimit(60)]
fn append_device(out: &mut String, d: &DeviceInfo)
    ensures
        final(out)@ == old(out)@ + json_of_device(d.deep_view()),
{
    out.append("{\"index\":");
    append_u32(out, d.index);
    out.append(",\"name\":");
    append_json_string(out, d.name.as_str());
    out.append(",\"uuid\":");
    append_json_string(out, d.uuid.as_str());
    out.append(",\"pci_bus_id\":");
    append_json_string(out, d.pci_bus_id.as_str());
    out.append(",\"driver_version\":");
    append_json_string(out, d.driver_version.as_str());
    out.append(",\"cuda_version\":");
    match &d.cuda_version {
        Some(c) => append_json_string(out, c.as_str()),
        None => out.append("null"),
    }
    out.append(",\"power_limit\":");
    append_u32(out, d.power_limit);
    out.append(",\"power_limit_max\":");
    append_u32(out, d.power_limit_max);
    out.append("}");
    proof {
        assert(out@ =~= old(out)@ + json_of_device(d.deep_view()));
    }
}

/// Appends the JSON object of a device's metrics.
#[verifier::rlimit(60)]
fn append_metrics(out: &mut String, m: &GpuMetrics)
    ensures
        final(out)@ == old(out)@ + json_of_metrics(*m),
{
    out.append("{\"gpu_utilization\":");
    append_u32(out, m.gpu_utilization);
    out.append(",\"memory_utilization\":");
    append_u32(out, m.memory_utilization);
    out.append(",\"encoder_utilization\":");
    append_u32(out, m.encoder_utilization);
    out.append(",\"decoder_utilization\":");
    append_u32(out, m.decoder_utilization);
    out.append(",\"temperature\":");
    append_u32(out, m.temperature);
    out.append(",\"power_usage\":");
    append_u32(out, m.power_usage);
    out.append(",\"fan_speed\":");
    match m.fan_speed {
        Some(f) => append_u32(out, f),
        None => out.append("null"),
    }
    out.append(",\"clock_graphics\":");
    append_u32(out, m.clock_graphics);
    out.append(",\"clock_memory\":");
    append_u32(out, m.clock_memory);
    out.append(",\"clock_sm\":");
    append_u32(out, m.clock_sm);
    out.append("}");
    proof {
        assert(out@ =~= old(out)@ + json_of_metrics(*m));
    }
}

/// Appends the JSON object of a device's memory figures.
fn append_memory(out: &mut String, m: &MemoryInfo)
    ensures
        final(out)@ == old(out)@ + json_of_memory(*m),
{
    out.append("{\"total\":");
    append_u64(out, m.total);
    out.append(",\"used\":");
    append_u64(out, m.used);
    out.append(",\"free\":");
    append_u64(out, m.free);
    out.append("}");
    proof {
        assert(out@ =~= old(out)@ + json_of_memory(*m));
    }
}

/// Appends the JSON object of one process record.
fn append_process(out: &mut String, p: &GpuProcess)
    ensures
        final(out)@ == old(out)@ + json_of_process(p.deep_view()),
{
    out.append("{\"pid\":");
    append_u32(out, p.pid);
    out.append(",\"name\":");
    append_json_string(out, p.name.as_str());
    out.append(",\"gpu_memory_bytes\":");
    append_u64(out, p.gpu_memory);
    out.append(",\"type\":");
    match p.process_type {
        ProcessType::Graphics => out.append("\"Graphics\""),
        ProcessType::Compute => out.append("\"Compute\""),
        ProcessType::Mixed => out.append("\"Mixed\""),
        ProcessType::Unknown => out.append("\"Unknown\""),
    }
    out.append("}");
    proof {
        assert(out@ =~= old(out)@ + json_of_process(p.deep_view()));
    }
}

/// Appends the JSON object of one device's whole snapshot.
fn append_gpu_info(out: &mut String, g: &GpuInfo)
    ensures
        final(out)@ == old(out)@ + json_of_gpu_info(g.deep_view()),
{
    out.append("{\"device\":");
    append_device(out, &g.device);
    out.append(",\"metrics\":");
    append_metrics(out, &g.metrics);
    out.append(",\"memory\":");
    append_memory(out, &g.memory);
    out.append(",\"processes\":[");
    let ghost ps = g.processes.deep_view();
    let mut i: usize = 0;
    let ghost mid = out@;
    while i < g.processes.len()
        invariant
            ps == g.processes.deep_view(),
            i <= ps.len(),
            out@ == mid + json_of_process_items(ps.subrange(0, i as int)),
        decreases ps.len() - i,
    {
        if i > 0 {
            out.append(",");
        }
        let ghost done = ps.subrange(0, i as int);
        append_process(out, &g.processes[i]);
        proof {
            assert(g.processes@[i as int].deep_view() == ps[i as int]);
            let next = ps.subrange(0, i + 1);
            assert(next.drop_last() =~= done);
            assert(next.last() == ps[i as int]);
            assert(out@ =~= mid + json_of_process_items(next));
        }
        i += 1;
    }
    proof {
        assert(ps.subrange(0, ps.len() as int) =~= ps);
    }
    out.append("]}");
    proof {
        assert(out@ =~= old(out)@ + json_of_gpu_info(g.deep_view()));
    }
}

/// Renders one refresh's snapshot list as a single JSON document, the
/// array of per-device snapshot objects.
pub fn snapshots_json(gpus: &Vec<GpuInfo>) -> (r: String)
    ensures
        r@ == json_of_snapshots(gpus.deep_view()),
{
    let ghost gv = gpus.deep_view();
    let mut out = String::from_str("[");
    let ghost mid = out@;
    let mut i: usize = 0;
    while i < gpus.len()
        invariant
            gv == gpus.deep_view(),
            i <= gv.len(),
            out@ == mid + json_of_snapshot_items(gv.subrange(0, i as int)),
        decreases gv.len() - i,
    {
        if i > 0 {
            out.append(",");
        }
        let ghost done = gv.subrange(0, i as int);
        append_gpu_info(&mut out, &gpus[i]);
        proof {
            assert(gpus@[i as int].deep_view() == gv[i as int]);
            let next = gv.subrange(0, i + 1);
            assert(next.drop_last() =~= done);
            assert(next.last() == gv[i as int]);
            assert(out@ =~= mid + json_of_snapshot_items(next));
        }
        i += 1;
    }
    proof {
        assert(gv.subrange(0, gv.len() as int) =~= gv);
    }
    out.append("]");
    proof {
        assert(out@ =~= json_of_snapshots(gv));
    }
    out
}

} // verus!
