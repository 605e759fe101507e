use aletheia::engine::memory_engine::MemoryEngine;
use aletheia::engine::operations::Operation;
use aletheia::node::{completed_response, failed_response, plan_command, BufferNames};
use aletheia::profiler::HardwareCounters;
use aletheia::protocol::{MemOp, ResponseData, ResponseStatus};

#[test]
fn response_data_constructors() {
    let ok = ResponseData::ok(1, 2, 3, 4, 5, 6, 7);
    assert_eq!(
        (ok.cycles, ok.instructions, ok.cache_references, ok.cache_misses),
        (1, 2, 3, 4)
    );
    assert_eq!((ok.memory_access, ok.data_moved, ok.result_count), (5, 6, 7));
    assert!(ok.error.is_none());
    let err = ResponseData::error("boom".to_string());
    assert_eq!(err.error.as_deref(), Some("boom"));
    assert_eq!(err.cycles + err.instructions + err.memory_access + err.data_moved, 0);
    assert_eq!(err.result_count, 0);
}

fn names() -> BufferNames {
    let mut names = BufferNames::new();
    names.insert("dataset".to_string(), 0, 100);
    names.insert("other".to_string(), 1, 10);
    names
}

#[test]
fn buffer_names_read_back_latest() {
    let mut names = names();
    assert_eq!(names.get(&"dataset".to_string()), Some((0, 100)));
    assert_eq!(names.get(&"missing".to_string()), None);
    names.insert("dataset".to_string(), 5, 50);
    assert_eq!(names.get(&"dataset".to_string()), Some((5, 50)));
    assert_eq!(names.get(&"other".to_string()), Some((1, 10)));
}

#[test]
fn plans_for_each_command() {
    let names = names();
    let plan = plan_command(&MemOp::MemScan { buffer: "dataset".to_string(), threshold: 500 }, &names)
        .ok()
        .unwrap();
    assert_eq!(plan.operation, Operation::MemScan);
    assert_eq!(plan.buffer_indices, vec![0]);
    assert_eq!(plan.params, vec![500]);

    let plan = plan_command(
        &MemOp::MemVecOr { buffer_a: "other".to_string(), buffer_b: "dataset".to_string() },
        &names,
    )
    .ok()
    .unwrap();
    assert_eq!(plan.operation, Operation::MemVecOr);
    assert_eq!(plan.buffer_indices, vec![1, 0]);
    assert!(plan.params.is_empty());

    let plan = plan_command(&MemOp::MemCopy { buffer: "other".to_string() }, &names).ok().unwrap();
    assert_eq!((plan.operation, plan.buffer_indices, plan.params), (Operation::MemCopy, vec![1], vec![]));

    let plan = plan_command(
        &MemOp::MemStrideScan { buffer: "dataset".to_string(), stride: (1usize << 32) + 3 },
        &names,
    )
    .ok()
    .unwrap();
    assert_eq!(plan.operation, Operation::MemStrideScan);
    assert_eq!(plan.params, vec![3]);

    let plan = plan_command(
        &MemOp::MemPointerChase { buffer: "dataset".to_string(), iterations: 1000 },
        &names,
    )
    .ok()
    .unwrap();
    assert_eq!(plan.operation, Operation::MemPointerChase);
    assert_eq!(plan.params, vec![1000]);
}

#[test]
fn plan_errors_name_the_missing_buffer() {
    let names = names();
    let err = plan_command(&MemOp::MemScan { buffer: "nope".to_string(), threshold: 1 }, &names);
    assert_eq!(err.err(), Some("Buffer not found: nope".to_string()));
    let err = plan_command(
        &MemOp::MemVecAdd { buffer_a: "dataset".to_string(), buffer_b: "nope".to_string() },
        &names,
    );
    assert_eq!(err.err(), Some("Buffers not found".to_string()));
    let err = plan_command(
        &MemOp::MemVecAnd { buffer_a: "x".to_string(), buffer_b: "dataset".to_string() },
        &names,
    );
    assert_eq!(err.err(), Some("Buffers not found".to_string()));
}

#[test]
fn responses_report_the_run() {
    let mut engine = MemoryEngine::new();
    let b = engine.allocate_buffer(4, 9);
    let result = engine.execute_memory_engine(Operation::MemCopy, &[b], &[]);
    let counters = HardwareCounters { cycles: 11, instructions: 22, cache_references: 33, cache_misses: 44 };
    let resp = completed_response("id-1".to_string(), 1234, &counters, &result);
    assert_eq!(resp.id, "id-1");
    assert_eq!(resp.status, ResponseStatus::Success);
    assert_eq!(resp.data.cycles, 1234);
    assert_eq!(resp.data.instructions, 22);
    assert_eq!(resp.data.cache_references, 33);
    assert_eq!(resp.data.cache_misses, 44);
    assert_eq!(resp.data.memory_access, 16);
    assert_eq!(resp.data.data_moved, 16);
    assert_eq!(resp.data.result_count, 4);
    let failed = failed_response("id-2".to_string(), "Buffers not found".to_string());
    assert_eq!(failed.status, ResponseStatus::Error);
    assert_eq!(failed.data.error.as_deref(), Some("Buffers not found"));
}

#[test]
fn failed_response_counts_are_zero() {
    let failed = failed_response("id".to_string(), "x".to_string());
    let d = failed.data;
    assert_eq!(
        (d.cycles, d.instructions, d.cache_references, d.cache_misses, d.memory_access, d.data_moved, d.result_count),
        (0, 0, 0, 0, 0, 0, 0)
    );
}
