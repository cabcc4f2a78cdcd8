//! Tests of the plain data types: memory figures, metrics, processes.

use gpu_monitor_core::GpuMetrics;
use gpu_monitor_core::GpuProcess;
use gpu_monitor_core::MemoryInfo;
use gpu_monitor_core::ProcessType;
use gpu_monitor_core::TemperatureStatus;
use gpu_monitor_core::resolve_process_name;
use gpu_monitor_core::truncate_str;

fn metrics_with_temperature(temperature: u32) -> GpuMetrics {
    GpuMetrics {
        gpu_utilization: 0,
        memory_utilization: 0,
        encoder_utilization: 0,
        decoder_utilization: 0,
        temperature,
        power_usage: 0,
        fan_speed: None,
        clock_graphics: 0,
        clock_memory: 0,
        clock_sm: 0,
    }
}

#[test]
fn test_memory_info_calculations() {
    let mem = MemoryInfo {
        total: 8 * 1024 * 1024 * 1024,
        used: 2 * 1024 * 1024 * 1024,
        free: 6 * 1024 * 1024 * 1024,
    };

    assert_eq!(mem.total_mib(), 8192);
    assert_eq!(mem.used_mib(), 2048);
    assert_eq!(mem.free_mib(), 6144);
    assert!((mem.usage_percent() as f64 - 25.0).abs() < 0.01);
}

#[test]
fn test_temperature_status() {
    let cool = metrics_with_temperature(40);
    assert_eq!(cool.temperature_status(), TemperatureStatus::Cool);

    let hot = GpuMetrics {
        temperature: 90,
        ..cool.clone()
    };
    assert_eq!(hot.temperature_status(), TemperatureStatus::Hot);
}

#[test]
fn test_usage_percent_zero_total() {
    let mem = MemoryInfo { total: 0, used: 0, free: 0 };
    assert_eq!(mem.usage_percent(), 0);

    let odd = MemoryInfo { total: 0, used: 123, free: 0 };
    assert_eq!(odd.usage_percent(), 0);
}

#[test]
fn test_usage_percent_rounds_down() {
    let mem = MemoryInfo { total: 3, used: 1, free: 2 };
    assert_eq!(mem.usage_percent(), 33);
}

#[test]
fn test_temperature_band_edges() {
    assert_eq!(metrics_with_temperature(0).temperature_status(), TemperatureStatus::Cool);
    assert_eq!(metrics_with_temperature(50).temperature_status(), TemperatureStatus::Cool);
    assert_eq!(metrics_with_temperature(51).temperature_status(), TemperatureStatus::Normal);
    assert_eq!(metrics_with_temperature(70).temperature_status(), TemperatureStatus::Normal);
    assert_eq!(metrics_with_temperature(71).temperature_status(), TemperatureStatus::Warm);
    assert_eq!(metrics_with_temperature(85).temperature_status(), TemperatureStatus::Warm);
    assert_eq!(metrics_with_temperature(86).temperature_status(), TemperatureStatus::Hot);
}

#[test]
fn test_temperature_colors() {
    assert_eq!(TemperatureStatus::Cool.color(), "green");
    assert_eq!(TemperatureStatus::Normal.color(), "blue");
    assert_eq!(TemperatureStatus::Warm.color(), "orange");
    assert_eq!(TemperatureStatus::Hot.color(), "red");
}

#[test]
fn test_load_predicates() {
    let mut m = metrics_with_temperature(40);
    m.gpu_utilization = 4;
    assert!(m.is_idle());
    assert!(!m.is_heavy_load());
    m.gpu_utilization = 5;
    assert!(!m.is_idle());
    m.gpu_utilization = 80;
    assert!(!m.is_heavy_load());
    m.gpu_utilization = 81;
    assert!(m.is_heavy_load());
}

#[test]
fn test_process_labels() {
    assert_eq!(ProcessType::Graphics.short_label(), "Gfx");
    assert_eq!(ProcessType::Compute.short_label(), "Comp");
    assert_eq!(ProcessType::Mixed.short_label(), "Mix");
    assert_eq!(ProcessType::Unknown.short_label(), "?");
    assert_eq!(ProcessType::Graphics.label(), "Graphics");
    assert_eq!(ProcessType::Compute.label(), "Compute");
    assert_eq!(ProcessType::Mixed.label(), "Mixed");
    assert_eq!(ProcessType::Unknown.label(), "Unknown");
}

#[test]
fn test_gpu_memory_mib() {
    let p = GpuProcess {
        pid: 1,
        name: String::from("x"),
        gpu_memory: 512 * 1024 * 1024,
        process_type: ProcessType::Compute,
    };
    assert_eq!(p.gpu_memory_mib(), 512);
}

#[test]
fn test_resolve_process_name_fallback() {
    assert_eq!(resolve_process_name(Some(String::from("firefox"))), "firefox");
    assert_eq!(resolve_process_name(None), "unknown");
}

#[test]
fn test_truncate_str() {
    assert_eq!(truncate_str("short", 10), "short");
    assert_eq!(truncate_str("exactlyten", 10), "exactlyten");
    assert_eq!(truncate_str("abcdefghijkl", 10), "abcdefg...");
}
