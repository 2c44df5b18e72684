use wow_launcher::process::{
    grid_size_for_window, launch_next, parent_dir, reader_next, taskkill_args, working_dir,
    writer_next, Backoff, Delivery, DeliveryAction, Drain, LaunchAction, LaunchStep, MysqlProbe,
    ProbeAction, ProbeEvent, ReaderAction, TermCmd, WriterAction, WriterEvent, MYSQL_ATTEMPTS,
};

#[test]
fn terminal_sizes_stay_within_limits() {
    assert_eq!(grid_size_for_window(35, 110), (35, 110));
    assert_eq!(grid_size_for_window(9, 39), (10, 40));
    assert_eq!(grid_size_for_window(-5, -1), (10, 40));
    assert_eq!(grid_size_for_window(61, 241), (60, 240));
    assert_eq!(grid_size_for_window(i64::MAX, i64::MIN), (60, 40));
    assert_eq!(grid_size_for_window(10, 240), (10, 240));
    // Rows and columns grow with what fits, each by itself.
    for fit in -5..300i64 {
        let (rows, cols) = grid_size_for_window(fit, fit);
        let (more_rows, more_cols) = grid_size_for_window(fit + 1, fit + 1);
        assert!(rows <= more_rows && cols <= more_cols);
        assert_eq!(grid_size_for_window(fit, 77).0, rows);
        assert_eq!(grid_size_for_window(33, fit).1, cols);
    }
}

#[test]
fn programs_start_in_their_own_directory() {
    assert_eq!(parent_dir("/srv/world/worldserver"), Some("/srv/world".to_string()));
    assert_eq!(parent_dir("bin/mysqld.exe"), Some("bin".to_string()));
    assert_eq!(parent_dir("../bin/start.bat"), Some("../bin".to_string()));
    assert_eq!(parent_dir("mysqld.exe"), None);
    assert_eq!(parent_dir(".."), None);
    assert_eq!(parent_dir(""), None);
    assert_eq!(parent_dir("服务/世界.exe"), Some("服务".to_string()));
    assert_eq!(parent_dir("/start.sh"), Some("/".to_string()));
    // A drive is part of the directory.
    assert_eq!(parent_dir("C:/wow/mysqld.exe"), Some("C:/wow".to_string()));
    assert_eq!(parent_dir("C:\\wow/bin/mysqld.exe"), Some("C:\\wow/bin".to_string()));
    let drive = parent_dir("C:/mysqld.exe");
    assert!(drive == Some("C:/".to_string()) || drive == Some("C:".to_string()));
    let drive = parent_dir("C:\\mysqld.exe");
    assert!(drive.is_none() || drive == Some("C:\\".to_string()));
    // A backslash separates only where the platform says so.
    for path in ["C:\\wow\\mysqld.exe", "wow\\mysqld.exe"] {
        let dir = path.strip_suffix("\\mysqld.exe").unwrap();
        let found = parent_dir(path);
        assert!(found.is_none() || found == Some(dir.to_string()));
    }
}

#[test]
fn an_empty_parent_is_no_working_directory() {
    assert_eq!(working_dir(None), None);
    assert_eq!(working_dir(Some(String::new())), None);
    assert_eq!(working_dir(Some("d".to_string())), Some("d".to_string()));
}

#[test]
fn taskkill_ends_the_whole_tree() {
    assert_eq!(taskkill_args(4321), vec!["/PID", "4321", "/T", "/F"]);
    assert_eq!(taskkill_args(0)[1], "0");
    assert_eq!(taskkill_args(u32::MAX)[1], "4294967295");
}

fn reported(actions: &Vec<LaunchAction>) -> Option<&str> {
    match actions.last() {
        Some(LaunchAction::ReportFailed(reason)) => Some(reason.as_str()),
        _ => None,
    }
}

#[test]
fn a_launch_goes_step_by_step() {
    let opened = launch_next(LaunchStep::OpenTerminal, Ok(None));
    assert!(matches!(opened.as_slice(), [LaunchAction::Continue(LaunchStep::Spawn)]));
    let spawned = launch_next(LaunchStep::Spawn, Ok(Some(77)));
    assert!(matches!(
        spawned.as_slice(),
        [
            LaunchAction::BindToLauncher(77),
            LaunchAction::ReportStarted(77),
            LaunchAction::Continue(LaunchStep::OpenReader)
        ]
    ));
    // A process without a number is reported as zero and not bound.
    let unnumbered = launch_next(LaunchStep::Spawn, Ok(None));
    assert!(matches!(
        unnumbered.as_slice(),
        [LaunchAction::ReportStarted(0), LaunchAction::Continue(LaunchStep::OpenReader)]
    ));
    let reading = launch_next(LaunchStep::OpenReader, Ok(None));
    assert!(matches!(reading.as_slice(), [LaunchAction::Continue(LaunchStep::OpenWriter)]));
    let writing = launch_next(LaunchStep::OpenWriter, Ok(None));
    assert!(matches!(writing.as_slice(), [LaunchAction::Serve]));
}

#[test]
fn a_launch_that_fails_reports_once() {
    let fault = || Err("boom".to_string());
    let opened = launch_next(LaunchStep::OpenTerminal, fault());
    assert_eq!(opened.len(), 1);
    assert_eq!(reported(&opened), Some("创建伪终端失败: boom"));
    let spawned = launch_next(LaunchStep::Spawn, fault());
    assert_eq!(spawned.len(), 1);
    assert_eq!(reported(&spawned), Some("boom"));
    let reading = launch_next(LaunchStep::OpenReader, fault());
    assert!(matches!(reading[0], LaunchAction::KillChild));
    assert_eq!(reported(&reading), Some("读取伪终端失败: boom"));
    let writing = launch_next(LaunchStep::OpenWriter, fault());
    assert!(matches!(writing[0], LaunchAction::KillChild));
    assert_eq!(reported(&writing), Some("写入伪终端失败: boom"));
}

#[test]
fn reading_ends_with_the_output() {
    assert_eq!(reader_next(Some(0)), ReaderAction::Finish);
    assert_eq!(reader_next(Some(8192)), ReaderAction::Feed(8192));
    assert_eq!(reader_next(None), ReaderAction::Finish);
}

#[test]
fn writing_serves_commands_until_it_cannot() {
    let bytes = vec![1u8, 2, 3];
    assert!(matches!(
        writer_next(WriterEvent::Received(TermCmd::Input(bytes.clone()))),
        WriterAction::Write(written) if written == bytes
    ));
    assert!(matches!(
        writer_next(WriterEvent::Received(TermCmd::Resize(30, 100))),
        WriterAction::Resize(30, 100)
    ));
    assert!(matches!(writer_next(WriterEvent::Closed), WriterAction::Stop));
    assert!(matches!(writer_next(WriterEvent::Written(true)), WriterAction::Receive));
    assert!(matches!(writer_next(WriterEvent::Written(false)), WriterAction::Stop));
    assert!(matches!(writer_next(WriterEvent::Notified(true)), WriterAction::Receive));
    assert!(matches!(writer_next(WriterEvent::Notified(false)), WriterAction::Stop));
}

#[test]
fn an_ended_terminal_is_watched_until_it_is_quiet() {
    let mut quiet = Drain::new(5);
    assert!(!quiet.look(5));
    assert!(quiet.look(5));
    let mut late = Drain::new(5);
    assert!(!late.look(5));
    assert!(!late.look(6));
    assert!(!late.look(6));
    assert!(late.look(6));
}

#[test]
fn an_ended_terminal_is_not_watched_forever() {
    let mut busy = Drain::new(0);
    for version in 1..10u64 {
        assert!(!busy.look(version));
    }
    assert!(busy.look(10));
}

#[test]
fn waits_double_up_to_the_longest() {
    let mut backoff = Backoff::new();
    let waits: Vec<DeliveryAction> = (0..5).map(|_| backoff.next(Delivery::Full)).collect();
    assert_eq!(
        waits,
        vec![
            DeliveryAction::RetryAfter(10),
            DeliveryAction::RetryAfter(20),
            DeliveryAction::RetryAfter(40),
            DeliveryAction::RetryAfter(50),
            DeliveryAction::RetryAfter(50)
        ]
    );
    assert_eq!(backoff.next(Delivery::Sent), DeliveryAction::Done);
    assert_eq!(backoff.next(Delivery::Closed), DeliveryAction::KillChild);
}

#[test]
fn mysql_is_tried_until_it_answers_or_the_attempts_are_up() {
    let mut probe = MysqlProbe::new();
    assert!(matches!(probe.next(ProbeEvent::Begun), ProbeAction::Connect));
    assert!(matches!(probe.next(ProbeEvent::Failed), ProbeAction::Pause));
    assert!(matches!(probe.next(ProbeEvent::Paused), ProbeAction::Connect));
    assert!(matches!(probe.next(ProbeEvent::Connected), ProbeAction::Ready));

    let mut probe = MysqlProbe::new();
    let mut connects = 0u32;
    let mut action = probe.next(ProbeEvent::Begun);
    let words = loop {
        action = match action {
            ProbeAction::Connect => {
                connects += 1;
                probe.next(ProbeEvent::Failed)
            }
            ProbeAction::Pause => probe.next(ProbeEvent::Paused),
            ProbeAction::Ready => panic!("never reached"),
            ProbeAction::GiveUp(words) => break words,
        };
    };
    assert_eq!(connects, MYSQL_ATTEMPTS);
    assert_eq!(connects, 120);
    assert_eq!(words, "MySQL 在 30 秒内未能监听 3306 端口，已放弃等待。");
}
