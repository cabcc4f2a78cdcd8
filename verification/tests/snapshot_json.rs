//! Tests of the snapshot builder, the error taxonomy and the JSON
//! output.

use gpu_monitor_core::CommandError;
use gpu_monitor_core::DeviceInfo;
use gpu_monitor_core::DeviceSample;
use gpu_monitor_core::Error;
use gpu_monitor_core::GpuInfo;
use gpu_monitor_core::GpuMetrics;
use gpu_monitor_core::GpuProcess;
use gpu_monitor_core::MemoryInfo;
use gpu_monitor_core::ProcessSample;
use gpu_monitor_core::ProcessType;
use gpu_monitor_core::build_all_gpu_info;
use gpu_monitor_core::build_gpu_info;
use gpu_monitor_core::cuda_version_label;
use gpu_monitor_core::snapshots_json;
use gpu_monitor_core::u64_to_dec;

fn bare_sample() -> DeviceSample {
    DeviceSample {
        index: 0,
        name: String::from("G"),
        uuid: String::from("U"),
        pci_bus_id: String::from("P"),
        driver_version: String::from("D"),
        cuda_driver_version: None,
        power_limit_mw: None,
        power_limit_max_mw: None,
        memory: MemoryInfo { total: 100, used: 25, free: 75 },
        gpu_utilization: 42,
        memory_utilization: 7,
        encoder_utilization: None,
        decoder_utilization: None,
        temperature: None,
        power_usage_mw: None,
        fan_speed: None,
        clock_graphics: None,
        clock_memory: None,
        clock_sm: None,
        compute_procs: Vec::new(),
        graphics_procs: Vec::new(),
    }
}

#[test]
fn test_build_degrades_absent_fields_to_defaults() {
    let info = build_gpu_info(bare_sample());
    assert_eq!(info.device.power_limit, 0);
    assert_eq!(info.device.power_limit_max, 0);
    assert!(info.device.cuda_version.is_none());
    assert_eq!(info.metrics.encoder_utilization, 0);
    assert_eq!(info.metrics.decoder_utilization, 0);
    assert_eq!(info.metrics.temperature, 0);
    assert_eq!(info.metrics.power_usage, 0);
    assert!(info.metrics.fan_speed.is_none());
    assert_eq!(info.metrics.clock_graphics, 0);
    assert_eq!(info.metrics.gpu_utilization, 42);
    assert!(info.processes.is_empty());
}

#[test]
fn test_build_power_limit_fallback() {
    let mut s = bare_sample();
    s.power_limit_mw = Some(250_000);
    s.power_limit_max_mw = None;
    let info = build_gpu_info(s);
    // Milliwatts become watts; the absent maximum falls back to the
    // configured limit.
    assert_eq!(info.device.power_limit, 250);
    assert_eq!(info.device.power_limit_max, 250);

    let mut s2 = bare_sample();
    s2.power_limit_mw = Some(250_000);
    s2.power_limit_max_mw = Some(300_000);
    let info2 = build_gpu_info(s2);
    assert_eq!(info2.device.power_limit_max, 300);
}

#[test]
fn test_build_merges_and_sorts_processes() {
    let mut s = bare_sample();
    s.compute_procs = vec![ProcessSample {
        pid: 10,
        gpu_memory: 100,
        name: Some(String::from("c")),
    }];
    s.graphics_procs = vec![
        ProcessSample { pid: 10, gpu_memory: 150, name: None },
        ProcessSample { pid: 11, gpu_memory: 500, name: Some(String::from("g")) },
    ];
    let info = build_gpu_info(s);
    assert_eq!(info.processes.len(), 2);
    assert_eq!(info.processes[0].pid, 11);
    assert_eq!(info.processes[0].process_type, ProcessType::Graphics);
    assert_eq!(info.processes[1].pid, 10);
    assert_eq!(info.processes[1].process_type, ProcessType::Mixed);
    assert_eq!(info.processes[1].gpu_memory, 150);
}

#[test]
fn test_cuda_version_label() {
    assert_eq!(cuda_version_label(12020), "12.2");
    assert_eq!(cuda_version_label(11080), "11.8");
    assert_eq!(cuda_version_label(10010), "10.1");
}

#[test]
fn test_build_all_refuses_zero_devices() {
    let r = build_all_gpu_info(Vec::new());
    assert!(matches!(r, Err(Error::NoDevices)));
}

#[test]
fn test_build_all_one_snapshot_per_sample() {
    let r = build_all_gpu_info(vec![bare_sample(), bare_sample()]).unwrap();
    assert_eq!(r.len(), 2);
    assert_eq!(r[0].metrics.gpu_utilization, 42);
}

#[test]
fn test_snapshots_json_one_device() {
    let info = build_gpu_info(bare_sample());
    let json = snapshots_json(&vec![info]);
    let expected = "[{\"device\":{\"index\":0,\"name\":\"G\",\"uuid\":\"U\",\"pci_bus_id\":\"P\",\"driver_version\":\"D\",\"cuda_version\":null,\"power_limit\":0,\"power_limit_max\":0},\"metrics\":{\"gpu_utilization\":42,\"memory_utilization\":7,\"encoder_utilization\":0,\"decoder_utilization\":0,\"temperature\":0,\"power_usage\":0,\"fan_speed\":null,\"clock_graphics\":0,\"clock_memory\":0,\"clock_sm\":0},\"memory\":{\"total\":100,\"used\":25,\"free\":75},\"processes\":[]}]";
    assert_eq!(json, expected);
}

#[test]
fn test_snapshots_json_matches_serde_reading() {
    let mut s = bare_sample();
    s.cuda_driver_version = Some(12020);
    s.fan_speed = Some(35);
    s.name = String::from("odd \"name\" with \\ and \n inside");
    s.compute_procs = vec![ProcessSample {
        pid: 5,
        gpu_memory: 2048,
        name: Some(String::from("worker")),
    }];
    let info = build_gpu_info(s);
    let json = snapshots_json(&vec![info]);

    let parsed: serde_json::Value = serde_json::from_str(&json).unwrap();
    let dev = &parsed[0]["device"];
    assert_eq!(dev["name"], "odd \"name\" with \\ and \n inside");
    assert_eq!(dev["cuda_version"], "12.2");
    let met = &parsed[0]["metrics"];
    assert_eq!(met["fan_speed"], 35);
    let procs = &parsed[0]["processes"];
    assert_eq!(procs[0]["pid"], 5);
    assert_eq!(procs[0]["name"], "worker");
    assert_eq!(procs[0]["gpu_memory_bytes"], 2048);
    assert_eq!(procs[0]["type"], "Compute");
}

#[test]
fn test_snapshots_json_empty_list() {
    let json = snapshots_json(&Vec::new());
    assert_eq!(json, "[]");
}

#[test]
fn test_error_messages() {
    assert_eq!(Error::NoDevices.message(), "No NVIDIA GPU devices found");
    assert_eq!(Error::InvalidDevice(3).message(), "Invalid GPU device index: 3");
    assert_eq!(
        Error::NvmlInit(String::from("driver missing")).message(),
        "Failed to initialize NVML: driver missing"
    );
    assert_eq!(Error::Nvml(String::from("boom")).message(), "NVML error: boom");
    assert_eq!(
        Error::ProcessInfo(String::from("gone")).message(),
        "Failed to get process info: gone"
    );
    assert_eq!(Error::Io(String::from("pipe")).message(), "IO error: pipe");
    assert_eq!(
        Error::Serialization(String::from("bad")).message(),
        "Serialization error: bad"
    );
}

#[test]
fn test_command_error_keeps_message() {
    let e = CommandError::from_error(&Error::NoDevices);
    assert_eq!(e.message, "No NVIDIA GPU devices found");
}

#[test]
fn test_u64_to_dec_exact() {
    assert_eq!(u64_to_dec(0), "0");
    assert_eq!(u64_to_dec(7), "7");
    assert_eq!(u64_to_dec(10), "10");
    assert_eq!(u64_to_dec(12345), "12345");
    assert_eq!(u64_to_dec(u64::MAX), "18446744073709551615");
}

#[test]
fn test_gpu_info_is_plain_data() {
    // The snapshot is rebuilt wholesale and committed as a value; its
    // parts are reachable as plain fields for the render pass.
    let info = GpuInfo {
        device: DeviceInfo {
            index: 1,
            name: String::from("n"),
            uuid: String::from("u"),
            pci_bus_id: String::from("p"),
            driver_version: String::from("d"),
            cuda_version: Some(String::from("12.2")),
            power_limit: 1,
            power_limit_max: 2,
        },
        metrics: GpuMetrics {
            gpu_utilization: 1,
            memory_utilization: 2,
            encoder_utilization: 3,
            decoder_utilization: 4,
            temperature: 5,
            power_usage: 6,
            fan_speed: Some(7),
            clock_graphics: 8,
            clock_memory: 9,
            clock_sm: 10,
        },
        memory: MemoryInfo { total: 10, used: 5, free: 5 },
        processes: vec![GpuProcess {
            pid: 1,
            name: String::from("x"),
            gpu_memory: 1,
            process_type: ProcessType::Unknown,
        }],
    };
    assert_eq!(info.device.index, 1);
    assert_eq!(info.processes[0].process_type, ProcessType::Unknown);
}
