use aletheia::engine::memory_engine::{ExecutionMode, MemoryEngine};
use aletheia::workloads::dataset_scan::fill_dataset_pattern;
use aletheia::workloads::{DatasetScan, PointerChase, VectorAdd, WorkingSetSweep};

#[test]
fn dataset_pattern_values() {
    let mut buf = vec![0u32; 6];
    fill_dataset_pattern(&mut buf);
    assert_eq!(buf, vec![0, 919, 838, 757, 676, 595]);
    let mut big = vec![0u32; 600_000];
    fill_dataset_pattern(&mut big);
    // 542_000 * 7919 exceeds 2^32, so the product wraps before the remainder.
    let i: u32 = 542_000;
    assert_eq!(big[i as usize], i.wrapping_mul(7919) % 1000);
}

#[test]
fn dataset_scan_both_modes() {
    let mut engine = MemoryEngine::new();
    let idx = engine.allocate_buffer(6, 0);
    fill_dataset_pattern(engine.get_buffer_mut(idx).unwrap());
    let scan = DatasetScan::new(700);
    assert_eq!(scan.threshold, 700);
    let cpu = scan.execute_cpu(&engine, idx);
    let mem = scan.execute_memory_engine(&engine, idx);
    assert_eq!(cpu.data, vec![919, 838, 757]);
    assert_eq!(cpu.data, mem.data);
    assert_eq!(cpu.stats.memory_access, 24);
    assert_eq!(cpu.stats.data_moved, 12);
    assert_eq!(mem.execution_mode, ExecutionMode::MemoryEngine);
    assert!(scan.execute_cpu(&engine, idx + 1).data.is_empty());
}

fn is_single_cycle(chain: &[u32]) -> bool {
    let n = chain.len();
    let mut seen = vec![false; n];
    let mut pos = 0usize;
    for _ in 0..n {
        if seen[pos] {
            return false;
        }
        seen[pos] = true;
        pos = chain[pos] as usize;
        if pos >= n {
            return false;
        }
    }
    pos == 0 && seen.iter().all(|&s| s)
}

#[test]
fn pointer_chain_values_follow_formula() {
    let mut engine = MemoryEngine::new();
    engine.allocate_buffer(1, 3);
    let buf = PointerChase::init_pointer_chain(&mut engine, 10, 7);
    assert_eq!(buf, 1);
    let chain = engine.get_buffer(buf).unwrap();
    let expected: Vec<u32> = (0..10u32).map(|i| (i * 7 + 12345) % 10).collect();
    assert_eq!(chain, &expected[..]);
    assert!(chain.iter().all(|&v| v < 10));
    assert_eq!(engine.get_buffer(0), Some(&[3u32][..]));
}

#[test]
fn pointer_chain_small_cases() {
    let mut engine = MemoryEngine::new();
    let b = PointerChase::init_pointer_chain(&mut engine, 4, 1);
    assert_eq!(b, 0);
    assert_eq!(engine.get_buffer(b), Some(&[1u32, 2, 3, 0][..]));
    assert!(is_single_cycle(engine.get_buffer(b).unwrap()));
    // Not every seed gives a permutation.
    let b = PointerChase::init_pointer_chain(&mut engine, 4, 2);
    assert_eq!(engine.get_buffer(b), Some(&[1u32, 3, 1, 3][..]));
    let b = PointerChase::init_pointer_chain(&mut engine, 0, 9);
    assert_eq!(engine.get_buffer(b), Some(&[][..]));
}

#[test]
fn pointer_chain_wraps_product() {
    let mut engine = MemoryEngine::new();
    let buf = PointerChase::init_pointer_chain(&mut engine, 1000, 0xdead_beef);
    let chain = engine.get_buffer(buf).unwrap();
    for (i, &v) in chain.iter().enumerate() {
        let want = (i as u32).wrapping_mul(0xdead_beef).wrapping_add(12345) % 1000;
        assert_eq!(v, want);
    }
}

#[test]
fn unit_seed_chains_are_single_cycles() {
    let mut engine = MemoryEngine::new();
    for size in [2usize, 4, 8, 1543, 3086, 6172, 12344] {
        let buf = PointerChase::init_pointer_chain(&mut engine, size, 1);
        assert!(is_single_cycle(engine.get_buffer(buf).unwrap()));
    }
}

#[test]
fn pointer_chase_workload() {
    let mut engine = MemoryEngine::new();
    let buf = PointerChase::init_pointer_chain(&mut engine, 4, 1);
    let chase = PointerChase::new(6);
    assert_eq!(chase.iterations, 6);
    let cpu = chase.execute_cpu(&engine, buf);
    let mem = chase.execute_memory_engine(&engine, buf);
    assert_eq!(cpu.data, vec![1, 2, 3, 0, 1, 2]);
    assert_eq!(cpu.data, mem.data);
    assert_eq!(cpu.stats.memory_access, 16);
    assert_eq!(cpu.stats.data_moved, 24);
    assert_eq!(cpu.execution_mode, ExecutionMode::CPU);
}

#[test]
fn vector_add_workload() {
    let mut engine = MemoryEngine::new();
    let a = engine.allocate_buffer(4, 100);
    let b = engine.allocate_buffer(3, 200);
    let cpu = VectorAdd::execute_cpu(&engine, a, b);
    let mem = VectorAdd::execute_memory_engine(&engine, a, b);
    assert_eq!(cpu.data, vec![300, 300, 300]);
    assert_eq!(cpu.data, mem.data);
    assert_eq!(cpu.stats.memory_access, 28);
    assert!(VectorAdd::execute_cpu(&engine, a, 9).data.is_empty());
}

#[test]
fn sweep_defaults() {
    let sweep = WorkingSetSweep::new();
    let kb = [1usize, 4, 16, 32, 64, 128, 256, 512, 1024, 4096, 16384, 65536];
    let want: Vec<usize> = kb.iter().map(|k| k * 1024).collect();
    assert_eq!(sweep.working_set_sizes, want);
    assert_eq!(sweep.iterations, 100_000);
    assert_eq!(sweep.warmup_iterations, 10_000);
}

#[test]
fn scaled_iterations_by_cache_level() {
    assert_eq!(WorkingSetSweep::get_scaled_iterations(1024), 100_000);
    assert_eq!(WorkingSetSweep::get_scaled_iterations(256 * 1024), 100_000);
    assert_eq!(WorkingSetSweep::get_scaled_iterations(256 * 1024 + 1), 300_000);
    assert_eq!(WorkingSetSweep::get_scaled_iterations(4 * 1024 * 1024), 300_000);
    assert_eq!(WorkingSetSweep::get_scaled_iterations(4 * 1024 * 1024 + 1), 1_000_000);
    let sizes = WorkingSetSweep::new().working_set_sizes;
    for w in sizes.windows(2) {
        assert!(
            WorkingSetSweep::get_scaled_iterations(w[0])
                <= WorkingSetSweep::get_scaled_iterations(w[1])
        );
    }
}

#[test]
fn generated_chain_is_a_permutation() {
    let chain = WorkingSetSweep::generate_pointer_chain(1000);
    let mut sorted = chain.clone();
    sorted.sort();
    let identity: Vec<u32> = (0..1000).collect();
    assert_eq!(sorted, identity);
    // A shuffle of 1000 elements that comes back in order has probability 1/1000!.
    assert_ne!(chain, identity);
    let idx = WorkingSetSweep::generate_random_indices(50);
    let mut sorted = idx.clone();
    sorted.sort();
    assert_eq!(sorted, (0..50).collect::<Vec<u32>>());
    assert!(WorkingSetSweep::generate_pointer_chain(0).is_empty());
}

#[test]
fn sweep_measurements() {
    let mut engine = MemoryEngine::new();
    let buf = engine.allocate_buffer(4, 0);
    engine.get_buffer_mut(buf).unwrap().copy_from_slice(&[3, 0, 1, 2]);
    let mut sweep = WorkingSetSweep::new();
    sweep.iterations = 6;
    // chase: 0 -> 3 -> 2 -> 1 -> 0
    let cpu = sweep.execute_cpu_pointer_chase(&engine, buf);
    let mem = sweep.execute_memory_engine_pointer_chase(&engine, buf);
    assert_eq!(cpu.data, vec![3, 2, 1, 0, 3, 2]);
    assert_eq!(cpu.data, mem.data);
    // random: position buf[i % 4] -> [buf[3], buf[0], buf[1], buf[2], buf[3], buf[0]]
    let cpu = sweep.execute_cpu_random_access(&engine, buf);
    let mem = sweep.execute_memory_engine_random_access(&engine, buf);
    assert_eq!(cpu.data, vec![2, 3, 0, 1, 2, 3]);
    assert_eq!(cpu.data, mem.data);
    assert_eq!(mem.stats.memory_access, 16);
}

#[test]
fn chase_over_a_chain_reads_every_position_once() {
    let mut engine = MemoryEngine::new();
    let buf = PointerChase::init_pointer_chain(&mut engine, 1543, 1);
    let chase = PointerChase::new(1543);
    let data = chase.execute_cpu(&engine, buf).data;
    // The positions read are 0 and then the values read, all but the last.
    let mut positions: Vec<u32> = vec![0];
    positions.extend_from_slice(&data[..1542]);
    positions.sort();
    assert_eq!(positions, (0..1543).collect::<Vec<u32>>());
}
