use netspeed_lite::resources::{
    parse_memory_rss, parse_process_ticks, parse_system_ticks, CpuTracker, ResourceError,
    TickDelta,
};

#[test]
fn memory_is_read_from_the_rss_line() {
    let status = "Name:\tnetspeed-lite\nVmPeak:\t   10000 kB\nVmRSS:\t    5632 kB\nThreads:\t1\n";
    assert_eq!(parse_memory_rss(status), Ok(5632 * 1024));
    assert_eq!(parse_memory_rss("VmRSS: 1 kB"), Ok(1024));
    assert_eq!(parse_memory_rss("VmRSS: 5 kB\r\nThreads: 1\r\n"), Ok(5120));
    assert_eq!(parse_memory_rss("VmRSS:\u{a0}+7"), Ok(7168));
    assert_eq!(parse_memory_rss("VmRSS: 0 kB"), Ok(0));
}

#[test]
fn memory_is_zero_without_an_rss_line() {
    assert_eq!(parse_memory_rss(""), Ok(0));
    assert_eq!(parse_memory_rss("\n\n"), Ok(0));
    assert_eq!(parse_memory_rss("Name:\tx\nThreads:\t1\n"), Ok(0));
    assert_eq!(parse_memory_rss(" VmRSS: 5 kB\n"), Ok(0));
    assert_eq!(parse_memory_rss("Name: VmRSS: 5 kB\n"), Ok(0));
    assert_eq!(parse_memory_rss("VmRSS:\n"), Ok(0));
    assert_eq!(parse_memory_rss("VmRSS:   \t"), Ok(0));
}

#[test]
fn memory_takes_the_first_line_with_a_second_field() {
    assert_eq!(parse_memory_rss("VmRSS:\nVmRSS: 7 kB\nVmRSS: 9 kB\n"), Ok(7168));
    assert_eq!(parse_memory_rss("VmRSS:9 kB\n"), Err(ResourceError::NotANumber));
    assert_eq!(parse_memory_rss("VmRSS: abc kB\nVmRSS: 9 kB\n"), Err(ResourceError::NotANumber));
    assert_eq!(parse_memory_rss("VmRSS: -5 kB\n"), Err(ResourceError::NotANumber));
    assert_eq!(
        parse_memory_rss("VmRSS: 18446744073709551616 kB\n"),
        Err(ResourceError::NotANumber)
    );
}

#[test]
fn memory_must_fit() {
    assert_eq!(
        parse_memory_rss("VmRSS: 18014398509481983 kB\n"),
        Ok(18014398509481983 * 1024)
    );
    assert_eq!(
        parse_memory_rss("VmRSS: 18014398509481984 kB\n"),
        Err(ResourceError::TooLarge)
    );
}

#[test]
fn process_ticks_are_user_plus_kernel_time() {
    let stat = "1234 (netspeed-lite) S 1 1234 1234 0 -1 4194560 500 0 0 0 37 12 0 0 20 0 1 0\n";
    assert_eq!(parse_process_ticks(stat), Ok(49));
    let stat = "42 (a b) c) S 1 2 3 4 5 6 7 8 9 10 500 250 0 0";
    assert_eq!(parse_process_ticks(stat), Ok(750));
    let stat = "42 (x)S 1 2 3 4 5 6 7 8 9 10 1 2";
    assert_eq!(parse_process_ticks(stat), Ok(3));
}

#[test]
fn process_ticks_need_both_fields() {
    assert_eq!(parse_process_ticks(""), Err(ResourceError::InvalidStatFormat));
    assert_eq!(
        parse_process_ticks("42 (x S 1 2 3 4 5 6 7 8 9 10 1 2"),
        Err(ResourceError::InvalidStatFormat)
    );
    assert_eq!(parse_process_ticks("42 (x)"), Err(ResourceError::MissingUtime));
    assert_eq!(
        parse_process_ticks("42 (x) S 1 2 3 4 5 6 7 8 9 10"),
        Err(ResourceError::MissingUtime)
    );
    assert_eq!(
        parse_process_ticks("42 (x) S 1 2 3 4 5 6 7 8 9 10 11"),
        Err(ResourceError::MissingStime)
    );
    assert_eq!(
        parse_process_ticks("42 (x) S 1 2 3 4 5 6 7 8 9 10 u 12"),
        Err(ResourceError::MissingUtime)
    );
    assert_eq!(
        parse_process_ticks("42 (x) S 1 2 3 4 5 6 7 8 9 10 11 -1"),
        Err(ResourceError::MissingStime)
    );
    assert_eq!(
        parse_process_ticks("42 (x) S 1 2 3 4 5 6 7 8 9 10 18446744073709551615 1"),
        Err(ResourceError::TooLarge)
    );
    assert_eq!(
        parse_process_ticks("42 (x) S 1 2 3 4 5 6 7 8 9 10 18446744073709551615 0"),
        Ok(u64::MAX)
    );
}

#[test]
fn system_ticks_are_the_sum_of_the_first_line() {
    let stat = "cpu  100 200 300 400 0 0 0 0 0 0\ncpu0 50 100 150 200 0 0 0 0 0 0\nintr 5\n";
    assert_eq!(parse_system_ticks(stat), Ok(1000));
    assert_eq!(parse_system_ticks("cpu 1 x 2 -3 4.5 +6"), Ok(9));
    assert_eq!(parse_system_ticks("5 6 7"), Ok(13));
    assert_eq!(parse_system_ticks("   cpu\t1\t2  "), Ok(3));
    assert_eq!(parse_system_ticks("cpu"), Ok(0));
    assert_eq!(parse_system_ticks("\ncpu 1 2"), Ok(0));
    assert_eq!(parse_system_ticks("   "), Ok(0));
}

#[test]
fn system_ticks_need_text_and_must_fit() {
    assert_eq!(parse_system_ticks(""), Err(ResourceError::EmptyStat));
    assert_eq!(
        parse_system_ticks("cpu 18446744073709551615 1"),
        Err(ResourceError::TooLarge)
    );
    assert_eq!(parse_system_ticks("cpu 18446744073709551615 0 x"), Ok(u64::MAX));
    assert_eq!(parse_system_ticks("cpu 18446744073709551616 1"), Ok(1));
}

#[test]
fn tracker_gives_the_ticks_since_the_previous_reading() {
    let mut tracker = CpuTracker::new();
    assert_eq!(tracker, CpuTracker { last_proc_ticks: 0, last_sys_ticks: 0 });
    assert_eq!(tracker.advance(100, 1000), TickDelta { process: 100, system: 1000 });
    assert_eq!(tracker.advance(150, 1100), TickDelta { process: 50, system: 100 });
    assert_eq!(tracker.advance(10, 1100), TickDelta { process: 0, system: 0 });
    assert_eq!(tracker, CpuTracker { last_proc_ticks: 10, last_sys_ticks: 1100 });
    assert_eq!(tracker.advance(u64::MAX, 0), TickDelta { process: u64::MAX - 10, system: 0 });
}
