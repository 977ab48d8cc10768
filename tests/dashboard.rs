use vmgr::app::{constraint_len_calculator, App, TableData, ITEM_HEIGHT};
use vmgr::handler::{dispatch, handle_key_events, Action, Command, DispatchError, Key};
use vmgr::rates::{cpu_percent_centi, derive_row};
use vmgr::text::{decimal_string, mb_string, percent_string};
use vmgr::vms::{parse_metrics, snapshot_xml, CounterValue, RawCounter, VmMetrics};

const SEC: u64 = 1_000_000_000;

fn vm(name: &str, running: bool, cpu_time: u64, timestamp: u64) -> VmMetrics {
    let mut m = VmMetrics::default();
    m.name = name.to_string();
    m.status = running;
    m.cpu_time = cpu_time;
    m.timestamp = timestamp;
    m
}

fn row(name: &str, status: &str) -> TableData {
    TableData {
        id: "1".to_string(),
        name: name.to_string(),
        cpu_usage: "0.00%".to_string(),
        mem_usage: "0 Mb".to_string(),
        status: status.to_string(),
    }
}

fn app_with(names: &[&str]) -> App {
    App::new(names.iter().map(|n| vm(n, true, 0, 0)).collect())
}

fn counter(field: &str, value: CounterValue) -> RawCounter {
    RawCounter { field: field.to_string(), value }
}

#[test]
fn one_second_of_cpu_in_one_second_is_full_use() {
    assert_eq!(cpu_percent_centi(SEC, 2 * SEC, 0, SEC), 10000);
    let prev = vm("a", true, SEC, 0);
    let cur = vm("a", true, 2 * SEC, SEC);
    let r = derive_row(Some(&prev), &cur);
    assert_eq!(r.cpu_centi, 10000);
    assert_eq!(TableData::from_row(&r).cpu_usage, "100.00%");
}

#[test]
fn one_second_of_cpu_in_two_seconds_is_half_use() {
    assert_eq!(cpu_percent_centi(SEC, 2 * SEC, 0, 2 * SEC), 5000);
    let r = derive_row(Some(&vm("a", true, SEC, 0)), &vm("a", true, 2 * SEC, 2 * SEC));
    assert_eq!(TableData::from_row(&r).cpu_usage, "50.00%");
}

#[test]
fn cpu_share_rounds_to_two_decimals() {
    assert_eq!(cpu_percent_centi(0, SEC, 0, 3 * SEC), 3333);
    assert_eq!(cpu_percent_centi(0, 2 * SEC, 0, 3 * SEC), 6667);
    assert_eq!(percent_string(6667), "66.67%");
}

#[test]
fn counter_reset_gives_zero_cpu() {
    assert_eq!(cpu_percent_centi(5 * SEC, SEC, 0, SEC), 0);
    assert_eq!(cpu_percent_centi(u64::MAX, 0, 0, 1), 0);
    let r = derive_row(Some(&vm("a", true, 5 * SEC, 0)), &vm("a", true, SEC, SEC));
    assert_eq!(r.cpu_centi, 0);
}

#[test]
fn no_elapsed_time_gives_zero_cpu() {
    assert_eq!(cpu_percent_centi(0, SEC, 7, 7), 0);
    assert_eq!(cpu_percent_centi(0, SEC, 9, 3), 0);
}

#[test]
fn first_sight_gives_zero_cpu() {
    let r = derive_row(None, &vm("a", true, 40 * SEC, 5 * SEC));
    assert_eq!(r.cpu_centi, 0);
    assert_eq!(TableData::from_row(&r).cpu_usage, "0.00%");
}

#[test]
fn largest_counters_do_not_overflow() {
    assert_eq!(cpu_percent_centi(0, u64::MAX, 0, 1), (u64::MAX as u128) * 10000);
    let mut m = vm("big", false, 0, 0);
    m.mem_rss = u64::MAX;
    m.mem_cache = u64::MAX;
    let r = derive_row(None, &m);
    assert_eq!(r.mem_mb, (2 * (u64::MAX as u128)) / 1024);
}

#[test]
fn row_shows_memory_id_and_status() {
    let mut m = vm("web", false, 0, 0);
    m.id = 42;
    m.mem_rss = 3000;
    m.mem_cache = 2144;
    let t = TableData::from_row(&derive_row(None, &m));
    assert_eq!(t.id, "42");
    assert_eq!(t.name, "web");
    assert_eq!(t.mem_usage, "5 Mb");
    assert_eq!(t.status, "off");
    let cells = t.ref_array();
    assert_eq!(cells[0], "42");
    assert_eq!(cells[4], "off");
    assert_eq!(t.id(), "42");
    assert_eq!(t.name(), "web");
    assert_eq!(t.cpu_usage(), "0.00%");
    assert_eq!(t.mem_usage(), "5 Mb");
    assert_eq!(t.status(), "off");
}

#[test]
fn decimal_text() {
    assert_eq!(decimal_string(0), "0");
    assert_eq!(decimal_string(9), "9");
    assert_eq!(decimal_string(10), "10");
    assert_eq!(decimal_string(1234567890), "1234567890");
    assert_eq!(percent_string(5), "0.05%");
    assert_eq!(percent_string(12345), "123.45%");
    assert_eq!(mb_string(0), "0 Mb");
}

#[test]
fn selection_wraps_both_ways() {
    let mut app = app_with(&["a", "b", "c"]);
    assert_eq!(app.selected, Some(0));
    app.prev();
    assert_eq!(app.selected, Some(2));
    assert_eq!(app.scroll_position, 2 * ITEM_HEIGHT);
    app.next();
    assert_eq!(app.selected, Some(0));
    assert_eq!(app.scroll_position, 0);
    app.next();
    assert_eq!(app.selected, Some(1));
    assert_eq!(app.scroll_position, 4);
}

#[test]
fn shrinking_list_clamps_to_last_row() {
    let mut app = app_with(&["a", "b", "c", "d", "e"]);
    app.prev();
    assert_eq!(app.selected, Some(4));
    app.ingest(vec![row("a", "on"), row("b", "on")]);
    assert_eq!(app.selected, Some(1));
    assert_eq!(app.scroll_position, 4);
    assert_eq!(app.scroll_len, 4);
}

#[test]
fn selection_follows_the_vm_by_name() {
    let mut app = app_with(&["a", "b", "c"]);
    app.next();
    assert_eq!(app.selected, Some(1));
    app.ingest(vec![row("c", "on"), row("x", "on"), row("y", "on"), row("b", "on")]);
    assert_eq!(app.selected, Some(3));
    assert_eq!(app.scroll_position, 12);
    assert_eq!(app.scroll_len, 12);
}

#[test]
fn selection_keeps_position_when_vm_leaves() {
    let mut app = app_with(&["a", "b", "c"]);
    app.next();
    app.ingest(vec![row("x", "on"), row("y", "on"), row("z", "on")]);
    assert_eq!(app.selected, Some(1));
}

#[test]
fn scroll_follows_selection_everywhere() {
    let mut app = app_with(&["a", "b", "c", "d"]);
    for _ in 0..6 {
        app.next();
        assert_eq!(app.scroll_position, app.selected.unwrap() * 4);
    }
    for _ in 0..6 {
        app.prev();
        assert_eq!(app.scroll_position, app.selected.unwrap() * 4);
    }
    app.ingest(vec![row("q", "on")]);
    assert_eq!(app.scroll_position, app.selected.unwrap() * 4);
    assert_eq!(app.scroll_len, 0);
}

#[test]
fn empty_list_has_no_selection() {
    let mut app = App::new(vec![]);
    assert_eq!(app.selected, None);
    assert_eq!(app.scroll_len, 0);
    app.next();
    assert_eq!(app.selected, None);
    app.prev();
    assert_eq!(app.selected, None);
    assert_eq!(app.scroll_position, 0);
    for action in [Action::Toggle, Action::Start, Action::Stop, Action::Snapshot] {
        assert!(matches!(dispatch(action, &app), Err(DispatchError::NoSelection)));
    }
    assert!(matches!(
        handle_key_events(Key::Char('x'), false, &mut app),
        Err(DispatchError::NoSelection)
    ));
    assert!(matches!(
        handle_key_events(Key::Char('s'), false, &mut app),
        Err(DispatchError::NoSelection)
    ));
}

#[test]
fn list_emptied_by_a_tick_drops_selection() {
    let mut app = app_with(&["a", "b"]);
    app.tick(vec![]);
    assert_eq!(app.selected, None);
    assert_eq!(app.table_data.len(), 0);
}

#[test]
fn start_on_running_vm_leaves_rows_alone() {
    let mut app = app_with(&["a", "b"]);
    assert_eq!(app.table_data[0].status, "on");
    match dispatch(Action::Start, &app) {
        Ok(Command::Start(n)) => assert_eq!(n, "a"),
        _ => panic!("expected a start command"),
    }
    assert_eq!(app.table_data[0].status, "on");
    match handle_key_events(Key::Char('x'), false, &mut app) {
        Ok(Command::Stop(n)) => assert_eq!(n, "a"),
        _ => panic!("expected a stop command"),
    }
    assert_eq!(app.table_data[0].status, "on");
    assert_eq!(app.selected, Some(0));
}

#[test]
fn toggle_starts_a_vm_that_is_off() {
    let mut app = App::new(vec![vm("a", false, 0, 0)]);
    match handle_key_events(Key::Char('x'), false, &mut app) {
        Ok(Command::Start(n)) => assert_eq!(n, "a"),
        _ => panic!("expected a start command"),
    }
    match handle_key_events(Key::Char('s'), false, &mut app) {
        Ok(Command::Snapshot(n)) => assert_eq!(n, "a"),
        _ => panic!("expected a snapshot command"),
    }
}

#[test]
fn keys_move_and_quit() {
    let mut app = app_with(&["a", "b"]);
    assert!(matches!(handle_key_events(Key::Down, false, &mut app), Ok(Command::Idle)));
    assert_eq!(app.selected, Some(1));
    assert!(matches!(handle_key_events(Key::Up, false, &mut app), Ok(Command::Idle)));
    assert_eq!(app.selected, Some(0));
    assert!(matches!(handle_key_events(Key::Char('c'), false, &mut app), Ok(Command::Idle)));
    assert!(app.running);
    assert!(matches!(handle_key_events(Key::Char('c'), true, &mut app), Ok(Command::Quit)));
    assert!(!app.running);
    let mut other = app_with(&["a"]);
    assert!(matches!(handle_key_events(Key::Esc, false, &mut other), Ok(Command::Quit)));
    assert!(!other.running);
    let mut third = app_with(&["a"]);
    assert!(matches!(handle_key_events(Key::Char('q'), false, &mut third), Ok(Command::Quit)));
    third.quit();
    assert!(!third.running);
}

#[test]
fn tick_matches_previous_snapshot_by_name() {
    let mut app = App::new(vec![vm("a", true, 0, 0), vm("b", true, SEC, 0)]);
    app.tick(vec![vm("new", true, 9 * SEC, SEC), vm("b", true, 2 * SEC, SEC), vm("a", true, SEC / 2, SEC)]);
    assert_eq!(app.table_data.len(), 3);
    assert_eq!(app.table_data[0].cpu_usage, "0.00%");
    assert_eq!(app.table_data[1].cpu_usage, "100.00%");
    assert_eq!(app.table_data[2].cpu_usage, "50.00%");
    assert_eq!(app.selected, Some(2));
    assert_eq!(app.scroll_position, 8);
    assert_eq!(app.metrics.len(), 3);
}

#[test]
fn parse_reads_known_counters() {
    let params = vec![
        counter("state.state", CounterValue::Unsigned(1)),
        counter("cpu.time", CounterValue::Unsigned(77)),
        counter("balloon.rss", CounterValue::Unsigned(2048)),
        counter("balloon.disk_caches", CounterValue::Unsigned(1024)),
        counter("net.0.name", CounterValue::Text("vnet0".to_string())),
        counter("net.0.rx.bytes", CounterValue::Unsigned(5)),
        counter("net.0.tx.bytes", CounterValue::Unsigned(6)),
        counter("block.0.name", CounterValue::Text("vda".to_string())),
        counter("block.0.path", CounterValue::Text("/var/lib/vda.qcow2".to_string())),
        counter("block.0.rd.bytes", CounterValue::Unsigned(7)),
        counter("block.0.wd.bytes", CounterValue::Unsigned(8)),
        counter("vcpu.current", CounterValue::Unsigned(4)),
    ];
    let m = parse_metrics(Some("web".to_string()), 3, 99, &params);
    assert_eq!(m.name, "web");
    assert_eq!(m.id, 3);
    assert_eq!(m.timestamp, 99);
    assert!(m.status);
    assert_eq!(m.cpu_time, 77);
    assert_eq!(m.mem_rss, 2048);
    assert_eq!(m.mem_cache, 1024);
    assert_eq!(m.net_name, "vnet0");
    assert_eq!(m.net_rx, 5);
    assert_eq!(m.net_tx, 6);
    assert_eq!(m.disk_name, "vda");
    assert_eq!(m.disk_path, "/var/lib/vda.qcow2");
    assert_eq!(m.disk_rx, 7);
    assert_eq!(m.disk_wx, 8);
}

#[test]
fn parse_defaults_missing_and_malformed_counters() {
    let params = vec![
        counter("state.state", CounterValue::Unsigned(3)),
        counter("cpu.time", CounterValue::Text("garbage".to_string())),
        counter("net.0.name", CounterValue::Unsigned(1)),
    ];
    let m = parse_metrics(None, 0, 0, &params);
    assert_eq!(m.name, "unknown");
    assert!(!m.status);
    assert_eq!(m.cpu_time, 0);
    assert_eq!(m.net_name, "unknown");
    assert_eq!(m.disk_path, "unknown");
    assert_eq!(m.mem_rss, 0);
}

#[test]
fn parse_takes_the_last_counter_of_a_name() {
    let params = vec![
        counter("cpu.time", CounterValue::Unsigned(10)),
        counter("cpu.time", CounterValue::Unsigned(20)),
        counter("state.state", CounterValue::Unsigned(1)),
        counter("state.state", CounterValue::Unsigned(5)),
    ];
    let m = parse_metrics(None, 0, 0, &params);
    assert_eq!(m.cpu_time, 20);
    assert!(!m.status);
}

#[test]
fn column_widths_measure_display_columns() {
    let items = vec![row("日本語", "on"), row("ab", "off")];
    let lens = constraint_len_calculator(&items);
    assert_eq!(lens, (1, 6, 5, 4, 3));
    assert_eq!(constraint_len_calculator(&[]), (0, 0, 0, 0, 0));
    let app = App::new(vec![vm("abcd", true, 0, 0)]);
    assert_eq!(app.max_item_lens.1, 4);
}

#[test]
fn snapshot_description_names_vm_and_time() {
    let xml = snapshot_xml("web", "2024-01-01 00:00:00 UTC");
    assert_eq!(
        xml,
        "<domainsnapshot><name>web-2024-01-01 00:00:00 UTC</name>\
         <description>vmgr snapshot</description></domainsnapshot>"
    );
}
