//! Tests of process merging, classification and stable ordering.

use gpu_monitor_core::ProcessSample;
use gpu_monitor_core::ProcessType;
use gpu_monitor_core::merge_gpu_processes;

fn sample(pid: u32, gpu_memory: u64, name: &str) -> ProcessSample {
    ProcessSample { pid, gpu_memory, name: Some(String::from(name)) }
}

#[test]
fn test_merge_same_pid_is_mixed_with_max() {
    let compute = vec![sample(10, 100, "trainer")];
    let graphics = vec![sample(10, 150, "other")];
    let merged = merge_gpu_processes(compute, graphics);

    assert_eq!(merged.len(), 1);
    assert_eq!(merged[0].pid, 10);
    assert_eq!(merged[0].process_type, ProcessType::Mixed);
    assert_eq!(merged[0].gpu_memory, 150);
    assert_eq!(merged[0].name, "trainer");
}

#[test]
fn test_merge_disjoint_pids_tags_both_sides() {
    let compute = vec![sample(1, 700, "a"), sample(2, 900, "b")];
    let graphics = vec![sample(3, 800, "c")];
    let merged = merge_gpu_processes(compute, graphics);

    assert_eq!(merged.len(), 3);
    let by_pid = |pid: u32| merged.iter().find(|p| p.pid == pid).unwrap();
    assert_eq!(by_pid(1).process_type, ProcessType::Compute);
    assert_eq!(by_pid(2).process_type, ProcessType::Compute);
    assert_eq!(by_pid(3).process_type, ProcessType::Graphics);
}

#[test]
fn test_sort_is_descending_and_stable() {
    let compute = vec![
        sample(1, 50, "p1"),
        sample(2, 200, "p2"),
        sample(3, 200, "p3"),
        sample(4, 10, "p4"),
    ];
    let merged = merge_gpu_processes(compute, Vec::new());

    let memories: Vec<u64> = merged.iter().map(|p| p.gpu_memory).collect();
    assert_eq!(memories, vec![200, 200, 50, 10]);
    // The two equal entries keep their original relative order.
    assert_eq!(merged[0].pid, 2);
    assert_eq!(merged[1].pid, 3);
}

#[test]
fn test_merge_keeps_compute_name_for_mixed() {
    let compute = vec![sample(7, 10, "comp-name")];
    let graphics = vec![ProcessSample { pid: 7, gpu_memory: 5, name: None }];
    let merged = merge_gpu_processes(compute, graphics);

    assert_eq!(merged.len(), 1);
    assert_eq!(merged[0].name, "comp-name");
    assert_eq!(merged[0].gpu_memory, 10);
    assert_eq!(merged[0].process_type, ProcessType::Mixed);
}

#[test]
fn test_merge_unresolved_name_is_placeholder() {
    let graphics = vec![ProcessSample { pid: 42, gpu_memory: 1, name: None }];
    let merged = merge_gpu_processes(Vec::new(), graphics);

    assert_eq!(merged.len(), 1);
    assert_eq!(merged[0].name, "unknown");
    assert_eq!(merged[0].process_type, ProcessType::Graphics);
}

#[test]
fn test_merge_empty_inputs() {
    let merged = merge_gpu_processes(Vec::new(), Vec::new());
    assert!(merged.is_empty());
}
