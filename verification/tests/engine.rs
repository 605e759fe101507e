use aletheia::engine::memory_engine::{ExecutionMode, MemoryEngine};
use aletheia::engine::operations::Operation;

fn engine_with(buffers: &[&[u32]]) -> MemoryEngine {
    let mut engine = MemoryEngine::new();
    for b in buffers {
        let idx = engine.allocate_buffer(b.len(), 0);
        let slot = engine.get_buffer_mut(idx).unwrap();
        slot.copy_from_slice(b);
    }
    engine
}

#[test]
fn allocate_buffer_returns_successive_indices_and_reads_back() {
    let mut engine = MemoryEngine::new();
    assert_eq!(engine.allocate_buffer(3, 7), 0);
    assert_eq!(engine.allocate_buffer(2, 9), 1);
    assert_eq!(engine.get_buffer(0), Some(&[7u32, 7, 7][..]));
    assert_eq!(engine.get_buffer(1), Some(&[9u32, 9][..]));
    assert_eq!(engine.get_buffer(2), None);
}

#[test]
fn get_buffer_mut_writes_in_place() {
    let mut engine = MemoryEngine::default();
    let idx = engine.allocate_buffer(3, 1);
    engine.get_buffer_mut(idx).unwrap()[1] = 42;
    assert_eq!(engine.get_buffer(idx), Some(&[1u32, 42, 1][..]));
    assert!(engine.get_buffer_mut(5).is_none());
}

#[test]
fn copy_returns_first_buffer_and_counts_bytes() {
    let engine = engine_with(&[&[1, 2, 3], &[4, 5]]);
    let r = engine.execute_cpu(Operation::MemCopy, &[0, 1], &[]);
    assert_eq!(r.data, vec![1, 2, 3]);
    assert_eq!(r.stats.memory_access, 20);
    assert_eq!(r.stats.data_moved, 12);
    assert_eq!(r.execution_mode, ExecutionMode::CPU);
}

#[test]
fn unknown_indices_are_skipped() {
    let engine = engine_with(&[&[1, 2, 3], &[10, 20, 30]]);
    let r = engine.execute_cpu(Operation::MemVecAdd, &[9, 0, 7, 1], &[]);
    assert_eq!(r.data, vec![11, 22, 33]);
    assert_eq!(r.stats.memory_access, 24);
    let none = engine.execute_cpu(Operation::MemCopy, &[4], &[]);
    assert!(none.data.is_empty());
    assert_eq!(none.stats.memory_access, 0);
    assert_eq!(none.stats.data_moved, 0);
}

#[test]
fn vector_add_wraps_and_stops_at_shorter_buffer() {
    let engine = engine_with(&[&[u32::MAX, 5, 6], &[2, 1]]);
    let r = engine.execute_memory_engine(Operation::MemVecAdd, &[0, 1], &[]);
    assert_eq!(r.data, vec![1, 6]);
    assert_eq!(r.execution_mode, ExecutionMode::MemoryEngine);
}

#[test]
fn vector_ops_need_two_buffers() {
    let engine = engine_with(&[&[1, 2]]);
    for op in [Operation::MemVecAdd, Operation::MemVecAnd, Operation::MemVecOr] {
        assert!(engine.execute_cpu(op, &[0], &[]).data.is_empty());
    }
}

#[test]
fn vector_and_or() {
    let engine = engine_with(&[&[0b1100, 0xff], &[0b1010, 0x0f]]);
    assert_eq!(engine.execute_cpu(Operation::MemVecAnd, &[0, 1], &[]).data, vec![0b1000, 0x0f]);
    assert_eq!(engine.execute_cpu(Operation::MemVecOr, &[0, 1], &[]).data, vec![0b1110, 0xff]);
}

#[test]
fn vector_ops_commute() {
    let engine = engine_with(&[&[3, 0xf0f0, 7], &[u32::MAX, 0x0ff0]]);
    for op in [Operation::MemVecAdd, Operation::MemVecAnd, Operation::MemVecOr] {
        let ab = engine.execute_cpu(op, &[0, 1], &[]).data;
        let ba = engine.execute_cpu(op, &[1, 0], &[]).data;
        assert_eq!(ab, ba);
    }
}

#[test]
fn scan_keeps_values_above_threshold_in_order() {
    let engine = engine_with(&[&[5, 500, 501, 0, 999, 500]]);
    let r = engine.execute_cpu(Operation::MemScan, &[0], &[500]);
    assert_eq!(r.data, vec![501, 999]);
    assert_eq!(r.stats.memory_access, 24);
    assert_eq!(r.stats.data_moved, 8);
    assert!(engine.execute_cpu(Operation::MemScan, &[0], &[]).data.is_empty());
}

#[test]
fn stride_scan_wraps_around() {
    let engine = engine_with(&[&[10, 11, 12, 13, 14]]);
    let r = engine.execute_cpu(Operation::MemStrideScan, &[0], &[2]);
    assert_eq!(r.data, vec![10, 12, 14, 11, 13]);
    let unit = engine.execute_cpu(Operation::MemStrideScan, &[0], &[1]);
    let copy = engine.execute_cpu(Operation::MemCopy, &[0], &[]);
    assert_eq!(unit.data, copy.data);
}

#[test]
fn pointer_chase_follows_values() {
    let engine = engine_with(&[&[2, 0, 7, 1]]);
    // 0 -> reads 2, goes to 2 -> reads 7, goes to 7 % 4 = 3 -> reads 1, goes to 1 -> reads 0
    let r = engine.execute_cpu(Operation::MemPointerChase, &[0], &[5]);
    assert_eq!(r.data, vec![2, 7, 1, 0, 2]);
    assert_eq!(r.stats.data_moved, 20);
    assert_eq!(r.stats.memory_access, 16);
}

#[test]
fn random_access_reads_indexed_positions() {
    let engine = engine_with(&[&[3, 6, 1]]);
    // i = 0: position 3 % 3 = 0 -> 3; i = 1: 6 % 3 = 0 -> 3; i = 2: 1 -> 6; i = 3: wraps to i = 0
    let r = engine.execute_memory_engine(Operation::MemRandomAccess, &[0], &[4]);
    assert_eq!(r.data, vec![3, 3, 6, 3]);
}

#[test]
fn zero_iterations_on_empty_buffer_read_nothing() {
    let engine = engine_with(&[&[]]);
    assert!(engine.execute_cpu(Operation::MemPointerChase, &[0], &[0]).data.is_empty());
    assert!(engine.execute_cpu(Operation::MemRandomAccess, &[0], &[0]).data.is_empty());
}

#[test]
fn both_modes_agree_on_every_operation() {
    let engine = engine_with(&[&[4, 9, 1, 600, 3, 2], &[7, 7, 7]]);
    let ops = [
        (Operation::MemCopy, vec![0usize], vec![]),
        (Operation::MemVecAdd, vec![0, 1], vec![]),
        (Operation::MemVecAnd, vec![0, 1], vec![]),
        (Operation::MemVecOr, vec![0, 1], vec![]),
        (Operation::MemScan, vec![0], vec![5u32]),
        (Operation::MemStrideScan, vec![0], vec![4]),
        (Operation::MemPointerChase, vec![0], vec![9]),
        (Operation::MemRandomAccess, vec![0], vec![9]),
    ];
    for (op, bufs, params) in ops {
        let cpu = engine.execute_cpu(op, &bufs, &params);
        let mem = engine.execute_memory_engine(op, &bufs, &params);
        assert_eq!(cpu.data, mem.data);
        assert_eq!(cpu.stats.memory_access, mem.stats.memory_access);
        assert_eq!(cpu.stats.data_moved, mem.stats.data_moved);
        assert_eq!(cpu.execution_mode, ExecutionMode::CPU);
        assert_eq!(mem.execution_mode, ExecutionMode::MemoryEngine);
    }
}

#[test]
fn data_moved_never_exceeds_memory_access_for_reducing_ops() {
    let engine = engine_with(&[&[4, 9, 1, 600, 3, 2], &[7, 7, 7]]);
    for op in [
        Operation::MemCopy,
        Operation::MemVecAdd,
        Operation::MemScan,
        Operation::MemStrideScan,
    ] {
        let r = engine.execute_memory_engine(op, &[0, 1], &[3]);
        assert!(r.stats.data_moved <= r.stats.memory_access);
    }
}

#[test]
fn can_execute_rejects_what_would_fail() {
    let engine = engine_with(&[&[], &[1, 2, 3]]);
    assert!(!engine.can_execute(Operation::MemPointerChase, &[0], &[1]));
    assert!(!engine.can_execute(Operation::MemRandomAccess, &[0], &[3]));
    assert!(engine.can_execute(Operation::MemPointerChase, &[0], &[0]));
    assert!(engine.can_execute(Operation::MemPointerChase, &[1], &[100]));
    assert!(engine.can_execute(Operation::MemStrideScan, &[1], &[u32::MAX]));
    assert!(engine.can_execute(Operation::MemCopy, &[7], &[]));
}

#[test]
fn operation_names() {
    let names = [
        (Operation::MemCopy, "MEM_COPY"),
        (Operation::MemVecAdd, "MEM_VEC_ADD"),
        (Operation::MemVecAnd, "MEM_VEC_AND"),
        (Operation::MemVecOr, "MEM_VEC_OR"),
        (Operation::MemScan, "MEM_SCAN"),
        (Operation::MemStrideScan, "MEM_STRIDE_SCAN"),
        (Operation::MemPointerChase, "MEM_POINTER_CHASE"),
        (Operation::MemRandomAccess, "MEM_RANDOM_ACCESS"),
    ];
    for (op, name) in names {
        assert_eq!(op.name(), name);
    }
}
