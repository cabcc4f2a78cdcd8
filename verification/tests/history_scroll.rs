//! Tests of the history tracker, the scroll controller and the loop
//! decisions.

use gpu_monitor_core::App;
use gpu_monitor_core::DeviceInfo;
use gpu_monitor_core::GpuInfo;
use gpu_monitor_core::GpuMetrics;
use gpu_monitor_core::GpuProcess;
use gpu_monitor_core::InputAction;
use gpu_monitor_core::MemoryInfo;
use gpu_monitor_core::ProcessType;
use gpu_monitor_core::TickAction;
use gpu_monitor_core::push_history_sample;
use gpu_monitor_core::update_history;

fn gpu_with(processes: usize, utilization: u32) -> GpuInfo {
    let procs = (0..processes)
        .map(|i| GpuProcess {
            pid: i as u32 + 1,
            name: format!("p{}", i),
            gpu_memory: 1024 * 1024,
            process_type: ProcessType::Compute,
        })
        .collect();
    GpuInfo {
        device: DeviceInfo {
            index: 0,
            name: String::from("Test GPU"),
            uuid: String::from("GPU-0000"),
            pci_bus_id: String::from("0000:01:00.0"),
            driver_version: String::from("555.42"),
            cuda_version: None,
            power_limit: 200,
            power_limit_max: 250,
        },
        metrics: GpuMetrics {
            gpu_utilization: utilization,
            memory_utilization: 10,
            encoder_utilization: 0,
            decoder_utilization: 0,
            temperature: 40,
            power_usage: 100_000,
            fan_speed: None,
            clock_graphics: 1000,
            clock_memory: 5000,
            clock_sm: 1000,
        },
        memory: MemoryInfo {
            total: 8 * 1024 * 1024 * 1024,
            used: 2 * 1024 * 1024 * 1024,
            free: 6 * 1024 * 1024 * 1024,
        },
        processes: procs,
    }
}

#[test]
fn test_history_series_capped_at_depth() {
    let mut series: Vec<u64> = Vec::new();
    for v in 0..61u64 {
        push_history_sample(&mut series, v);
    }
    assert_eq!(series.len(), 60);
    // The oldest value (0) was evicted; the rest shifted by one.
    assert_eq!(series[0], 1);
    assert_eq!(series[59], 60);
}

#[test]
fn test_history_eviction_is_fifo() {
    let mut series: Vec<u64> = (0..60u64).collect();
    let expected: Vec<u64> = (1..60u64).chain([99]).collect();
    push_history_sample(&mut series, 99);
    assert_eq!(series, expected);
}

#[test]
fn test_update_history_grows_never_shrinks() {
    let mut history: Vec<Vec<u64>> = vec![vec![5]];
    update_history(&mut history, &vec![7, 8]);
    assert_eq!(history.len(), 2);
    assert_eq!(history[0], vec![5, 7]);
    assert_eq!(history[1], vec![8]);

    // Fewer sampled devices than series: the surplus series stays.
    update_history(&mut history, &vec![9]);
    assert_eq!(history.len(), 2);
    assert_eq!(history[0], vec![5, 7, 9]);
    assert_eq!(history[1], vec![8]);
}

#[test]
fn test_scroll_resets_when_list_shrinks_under_view() {
    let mut app = App::new(1000);
    app.commit_refresh(vec![gpu_with(20, 10)], 10);
    app.process_scroll = 10;

    app.commit_refresh(vec![gpu_with(5, 10)], 10);
    assert_eq!(app.process_scroll, 0);
}

#[test]
fn test_scroll_clamps_to_new_max() {
    let mut app = App::new(1000);
    app.commit_refresh(vec![gpu_with(30, 10)], 10);
    app.process_scroll = 20;

    app.commit_refresh(vec![gpu_with(15, 10)], 10);
    assert_eq!(app.process_scroll, 5);
}

#[test]
fn test_scroll_down_stops_at_max() {
    let mut app = App::new(1000);
    app.commit_refresh(vec![gpu_with(15, 10)], 10);

    app.process_scroll = 5;
    app.apply_input(InputAction::ScrollDown, 10);
    assert_eq!(app.process_scroll, 5);

    app.process_scroll = 4;
    app.apply_input(InputAction::ScrollDown, 10);
    assert_eq!(app.process_scroll, 5);
}

#[test]
fn test_scroll_up_saturates_at_zero() {
    let mut app = App::new(1000);
    app.commit_refresh(vec![gpu_with(15, 10)], 10);

    app.process_scroll = 1;
    app.apply_input(InputAction::ScrollUp, 10);
    assert_eq!(app.process_scroll, 0);
    app.apply_input(InputAction::ScrollUp, 10);
    assert_eq!(app.process_scroll, 0);
}

#[test]
fn test_scroll_down_without_overflow_is_noop() {
    let mut app = App::new(1000);
    app.commit_refresh(vec![gpu_with(3, 10)], 10);
    app.apply_input(InputAction::ScrollDown, 10);
    assert_eq!(app.process_scroll, 0);
}

#[test]
fn test_quit_sets_exit() {
    let mut app = App::new(1000);
    assert!(!app.exit);
    app.apply_input(InputAction::Quit, 10);
    assert!(app.exit);
}

#[test]
fn test_tick_action_decisions() {
    let mut app = App::new(1000);
    assert_eq!(app.tick_action(999), TickAction::RenderOnly);
    assert_eq!(app.tick_action(1000), TickAction::RefreshThenRender);
    assert_eq!(app.tick_action(5000), TickAction::RefreshThenRender);
    app.apply_input(InputAction::Quit, 10);
    assert_eq!(app.tick_action(5000), TickAction::Stop);
}

#[test]
fn test_first_tick_history_single_sample() {
    let mut app = App::new(1000);
    app.commit_refresh(vec![gpu_with(0, 42)], 10);

    assert_eq!(app.gpu_history.len(), 1);
    assert_eq!(app.gpu_history[0], vec![42]);
    assert_eq!(app.memory_history.len(), 1);
    assert_eq!(app.memory_history[0], vec![25]);
    assert_eq!(app.gpus.len(), 1);
    assert!(app.gpus[0].processes.is_empty());
}

#[test]
fn test_empty_snapshot_leaves_scroll_alone() {
    let mut app = App::new(1000);
    app.commit_refresh(vec![gpu_with(20, 10)], 10);
    app.process_scroll = 3;
    app.commit_refresh(Vec::new(), 10);
    assert_eq!(app.process_scroll, 3);
}
