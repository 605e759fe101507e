use aletheia::engine::memory_engine::ExecutionMode;
use aletheia::engine::operations::Operation;
use aletheia::experiment::{
    parse_working_set_size, size_label, warmup_iterations, CacheLevel, SizeParseError, SizeUnit,
    SweepMode,
};

#[test]
fn parses_kb_and_mb_in_any_case_with_white_space() {
    assert_eq!(parse_working_set_size("64KB"), Ok(64 * 1024));
    assert_eq!(parse_working_set_size("16MB"), Ok(16 * 1024 * 1024));
    assert_eq!(parse_working_set_size("  16mb\t"), Ok(16 * 1024 * 1024));
    assert_eq!(parse_working_set_size("4Kb"), Ok(4096));
    assert_eq!(parse_working_set_size("+4kB"), Ok(4096));
    assert_eq!(parse_working_set_size("\u{3000}1MB\u{a0}"), Ok(1024 * 1024));
    assert_eq!(parse_working_set_size("0KB"), Ok(0));
}

#[test]
fn rejects_sizes_without_a_unit() {
    assert_eq!(parse_working_set_size("64"), Err(SizeParseError::UnknownUnit));
    assert_eq!(parse_working_set_size("4GB"), Err(SizeParseError::UnknownUnit));
    assert_eq!(parse_working_set_size("B"), Err(SizeParseError::UnknownUnit));
    assert_eq!(parse_working_set_size(""), Err(SizeParseError::UnknownUnit));
    assert_eq!(parse_working_set_size("64 K B"), Err(SizeParseError::UnknownUnit));
}

#[test]
fn rejects_bad_numbers_as_str_parse_does() {
    assert_eq!(parse_working_set_size("KB"), Err(SizeParseError::EmptyNumber));
    assert_eq!(parse_working_set_size("+KB"), Err(SizeParseError::InvalidDigit));
    assert_eq!(parse_working_set_size("-4KB"), Err(SizeParseError::InvalidDigit));
    assert_eq!(parse_working_set_size("4 KB"), Err(SizeParseError::InvalidDigit));
    assert_eq!(parse_working_set_size("1.5MB"), Err(SizeParseError::InvalidDigit));
    assert_eq!(
        parse_working_set_size("99999999999999999999999KB"),
        Err(SizeParseError::NumberTooLarge)
    );
    // The first problem, reading left to right, decides.
    assert_eq!(parse_working_set_size("x99999999999999999999999KB"), Err(SizeParseError::InvalidDigit));
    assert_eq!(parse_working_set_size("99999999999999999999999xKB"), Err(SizeParseError::NumberTooLarge));
    // The same outcomes as str::parse::<usize> on the number.
    for n in ["", "+", "-", "-1", "12a", "+7", "18446744073709551616"] {
        let ours = parse_working_set_size(&format!("{}KB", n));
        match n.parse::<usize>() {
            Ok(v) => assert_eq!(ours, Ok(v * 1024)),
            Err(_) => assert!(ours.is_err()),
        }
    }
}

#[test]
fn sweep_modes() {
    assert_eq!(SweepMode::from_name("pointer"), Some(SweepMode::Pointer));
    assert_eq!(SweepMode::from_name("sequential"), Some(SweepMode::Sequential));
    assert_eq!(SweepMode::from_name("random"), Some(SweepMode::Random));
    assert_eq!(SweepMode::from_name("Pointer"), None);
    assert_eq!(SweepMode::from_name("pointers"), None);
    assert_eq!(SweepMode::from_name(""), None);
    assert_eq!(
        SweepMode::Pointer.export_file(),
        "results/rpi-results/working_set_sweep_pointer.jsonl"
    );
    assert_eq!(
        SweepMode::Random.title(),
        "Working Set Sweep Experiment (Independent Random Access)"
    );
    assert_eq!(SweepMode::Sequential.title(), "Working Set Sweep Experiment (Sequential Scan)");
}

#[test]
fn cache_levels_and_labels() {
    assert_eq!(CacheLevel::of_working_set(32 * 1024), CacheLevel::L1);
    assert_eq!(CacheLevel::of_working_set(32 * 1024 + 1), CacheLevel::L2);
    assert_eq!(CacheLevel::of_working_set(256 * 1024), CacheLevel::L2);
    assert_eq!(CacheLevel::of_working_set(8 * 1024 * 1024), CacheLevel::L3);
    assert_eq!(CacheLevel::of_working_set(8 * 1024 * 1024 + 1), CacheLevel::Dram);
    assert_eq!(CacheLevel::Dram.marker(), "→ DRAM");
    assert_eq!(CacheLevel::L1.marker(), "→ L1");
    assert_eq!(size_label(1024), (1, SizeUnit::KB));
    assert_eq!(size_label(1024 * 1024 - 1), (1023, SizeUnit::KB));
    assert_eq!(size_label(64 * 1024 * 1024), (64, SizeUnit::MB));
    assert_eq!(size_label(3 * 1024 * 1024 + 5), (3, SizeUnit::MB));
    assert_eq!(warmup_iterations(300_000), 30_000);
    assert_eq!(warmup_iterations(9), 0);
}

#[test]
fn sweep_measurement_in_every_mode() {
    let chain = [3u32, 0, 1, 2];
    for mode in [SweepMode::Pointer, SweepMode::Random, SweepMode::Sequential] {
        let (cpu_engine, buf) = mode.prepare_engine(6, &chain);
        let (mem_engine, _) = mode.prepare_engine(6, &chain);
        assert_eq!(buf, 0);
        let contents = cpu_engine.get_buffer(0).unwrap().to_vec();
        match mode {
            SweepMode::Sequential => assert_eq!(contents, vec![0, 919, 838, 757, 676, 595]),
            _ => assert_eq!(contents, vec![3, 0, 1, 2, 0, 0]),
        }
        assert!(mode.can_run(&cpu_engine, buf, 20));
        let m = mode.measure(&cpu_engine, &mem_engine, buf, 20);
        assert_eq!(m.cpu_result.data, m.mem_result.data);
        assert_eq!(m.cpu_result.execution_mode, ExecutionMode::CPU);
        assert_eq!(m.mem_result.execution_mode, ExecutionMode::MemoryEngine);
        assert_eq!(m.cpu_result.stats.memory_access, 24);
        let expected_len = match mode {
            SweepMode::Sequential => 5,
            _ => 20,
        };
        assert_eq!(m.cpu_result.data.len(), expected_len);
    }
    assert_eq!(SweepMode::Pointer.operation(), Operation::MemPointerChase);
    let (empty, b) = SweepMode::Pointer.prepare_engine(0, &[]);
    assert!(!SweepMode::Pointer.can_run(&empty, b, 20));
    assert!(SweepMode::Pointer.can_run(&empty, b, 0));
}
