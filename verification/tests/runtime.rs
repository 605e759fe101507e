use aletheia::engine::operations::Operation;
use aletheia::ids::fresh_request_id;
use aletheia::protocol::{MemOp, Response, ResponseData, ResponseStatus};
use aletheia::runtime::execution_policy::ExecutionPolicy;
use aletheia::runtime::Executor;
use aletheia::timing::{cycles_from_nanos, millis_from_nanos};

#[test]
fn executor_engine_access() {
    let mut executor = Executor::new();
    let idx = executor.engine_mut().allocate_buffer(2, 8);
    assert_eq!(idx, 0);
    assert_eq!(executor.engine().get_buffer(0), Some(&[8u32, 8][..]));
    let d = Executor::default();
    assert!(d.engine().get_buffer(0).is_none());
}

#[test]
fn suite_entries_match_the_standard_suite() {
    let executor = Executor::new();
    let entries = executor.suite_entries();
    let names: Vec<&str> = entries.iter().map(|e| e.name).collect();
    assert_eq!(names, vec!["MEM_COPY", "MEM_VEC_ADD", "MEM_VEC_AND", "MEM_VEC_OR", "MEM_SCAN"]);
    assert_eq!(entries[0].operation, Operation::MemCopy);
    assert_eq!(entries[0].buffer_indices, vec![0]);
    assert_eq!(entries[1].buffer_indices, vec![0, 1]);
    assert_eq!(entries[3].operation, Operation::MemVecOr);
    assert_eq!(entries[4].buffer_indices, vec![0]);
    assert_eq!(entries[4].params, vec![500]);
    assert!(entries[2].params.is_empty());
}

#[test]
fn cycles_and_millis_from_elapsed_time() {
    assert_eq!(cycles_from_nanos(0), 0);
    assert_eq!(cycles_from_nanos(1_000_000_000), 4_000_000_000);
    assert_eq!(cycles_from_nanos(u128::MAX), u64::MAX);
    assert_eq!(cycles_from_nanos((u64::MAX / 4) as u128), (u64::MAX / 4) * 4);
    assert_eq!(cycles_from_nanos((u64::MAX / 4) as u128 + 1), u64::MAX);
    assert_eq!(millis_from_nanos(2_999_999), 2);
}

#[test]
fn local_scan_counts_bytes() {
    let r = ExecutionPolicy::run_scan_cpu(1000, 500);
    assert_eq!(r.memory_access, 4000);
    let matches = (0..1000u32).filter(|i| i.wrapping_mul(7919) % 1000 > 500).count() as u64;
    assert_eq!(r.data_moved, 4 * matches);
    assert_eq!((r.instructions, r.cache_references, r.cache_misses), (0, 0, 0));
}

fn is_hyphenated(id: &str) -> bool {
    id.len() == 36
        && id.chars().enumerate().all(|(i, c)| {
            if [8, 13, 18, 23].contains(&i) {
                c == '-'
            } else {
                c.is_ascii_digit() || ('a'..='f').contains(&c)
            }
        })
}

#[test]
fn remote_scan_command_is_a_fresh_scan_of_the_dataset() {
    let a = ExecutionPolicy::remote_scan_command(500);
    let b = ExecutionPolicy::remote_scan_command(500);
    assert!(is_hyphenated(&a.id));
    assert_ne!(a.id, b.id);
    match a.op {
        MemOp::MemScan { buffer, threshold } => {
            assert_eq!(buffer, "dataset");
            assert_eq!(threshold, 500);
        }
        _ => panic!("expected a scan"),
    }
    assert!(is_hyphenated(&fresh_request_id()));
}

#[test]
fn remote_scan_result_takes_counts_from_the_response() {
    let response = Response {
        id: "x".to_string(),
        status: ResponseStatus::Success,
        data: ResponseData::ok(1, 2, 3, 4, 5, 6, 7),
    };
    let r = ExecutionPolicy::remote_scan_result(2_500_000, &response);
    assert_eq!(r.elapsed_ms, 2);
    assert_eq!(r.cycles, 10_000_000);
    assert_eq!((r.instructions, r.cache_references, r.cache_misses), (2, 3, 4));
    assert_eq!((r.memory_access, r.data_moved), (5, 6));
}

#[test]
fn allocation_through_engine_mut_reads_back_through_engine() {
    let mut x = Executor::new();
    let sizes = [(3usize, 5u32), (0, 1), (2, 9)];
    for (k, &(n, v)) in sizes.iter().enumerate() {
        let i = x.engine_mut().allocate_buffer(n, v);
        assert_eq!(i, k);
    }
    for (k, &(n, v)) in sizes.iter().enumerate() {
        assert_eq!(x.engine().get_buffer(k).unwrap(), &vec![v; n][..]);
    }
    assert!(x.engine().get_buffer(3).is_none());
}
