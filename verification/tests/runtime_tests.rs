use voxtype::runtime_process::{
    find_free_runtime_port, find_listener_pids, health_poll_outcome, health_poll_steps,
    is_voxtype_runtime_pid, persist_runtime_port, process_image_name, resolve_runtime_port,
    runtime_command_args, startup_timeout_message, HealthPoll, PidImage,
};
use voxtype::settings::AppSettings;
use voxtype::voice_ws::RuntimeHealth;

const NETSTAT: &str = "\r\nActive Connections\r\n\r\n  Proto  Local Address          Foreign Address        State           PID\r\n  TCP    127.0.0.1:6016         0.0.0.0:0              LISTENING       4242\r\n  TCP    127.0.0.1:6016         127.0.0.1:50000        ESTABLISHED     4242\r\n  TCP    127.0.0.1:6017         0.0.0.0:0              LISTENING       77\r\n  TCP    127.0.0.1:6017         0.0.0.0:0              LISTENING       78\r\n  TCP    0.0.0.0:6018           0.0.0.0:0              LISTENING       90\r\n  TCP    127.0.0.1:6019         0.0.0.0:0              LISTENING       0\r\n  TCP    127.0.0.1:6020         0.0.0.0:0              LISTENING       notapid\r\n";

fn full_range_busy() -> String {
    let mut s = String::new();
    for p in 6016..=6100 {
        s.push_str(&format!("  TCP    127.0.0.1:{p}    0.0.0.0:0    LISTENING    {}\n", 1000 + p as u32));
    }
    s
}

#[test]
fn listener_pids_from_netstat() {
    assert_eq!(find_listener_pids(NETSTAT, 6016), vec![4242]);
    assert_eq!(find_listener_pids(NETSTAT, 6017), vec![77, 78]);
    assert_eq!(find_listener_pids(NETSTAT, 6018), Vec::<u32>::new());
    assert_eq!(find_listener_pids(NETSTAT, 6019), Vec::<u32>::new());
    assert_eq!(find_listener_pids(NETSTAT, 6020), Vec::<u32>::new());
    assert_eq!(find_listener_pids("", 6016), Vec::<u32>::new());
    // The needle is matched as a substring, as `netstat` text is searched.
    assert_eq!(find_listener_pids("TCP 127.0.0.1:60160 0.0.0.0:0 LISTENING 5", 6016), vec![5]);
    assert_eq!(find_listener_pids("TCP 127.0.0.1:6016 LISTENING +12", 6016), vec![12]);
}

#[test]
fn free_port_search() {
    assert_eq!(find_free_runtime_port(6016, NETSTAT), Ok(6018));
    assert_eq!(find_free_runtime_port(0, NETSTAT), Ok(6018));
    assert_eq!(find_free_runtime_port(6021, NETSTAT), Ok(6021));
    assert_eq!(find_free_runtime_port(65535, ""), Ok(6100));
    let mut busy_top = String::new();
    for p in 6050..=6100 {
        busy_top.push_str(&format!("127.0.0.1:{p} LISTENING 9\n"));
    }
    assert_eq!(find_free_runtime_port(6060, &busy_top), Ok(6016));
    assert_eq!(
        find_free_runtime_port(6016, &full_range_busy()),
        Err("无可用识别服务端口（6016-6100 均被占用）".to_string())
    );
}

#[test]
fn tasklist_image_names() {
    let out = "\"voxtype-runtime.exe\",\"4242\",\"Console\",\"1\",\"120,000 K\"\r\n";
    assert_eq!(process_image_name(out), Some("voxtype-runtime.exe".to_string()));
    assert_eq!(process_image_name("INFO: No tasks are running which match the specified criteria."), None);
    assert_eq!(process_image_name("   \r\n"), None);
    assert_eq!(process_image_name("plain"), Some("plain".to_string()));
    assert_eq!(process_image_name("\"\"\"x\"\",1"), Some("x".to_string()));
}

#[test]
fn runtime_pid_recognition() {
    let images = vec![
        PidImage { pid: 1, tasklist_output: "\"VoxType-Runtime.EXE\",\"1\"".into() },
        PidImage { pid: 2, tasklist_output: "\"python.exe\",\"2\"".into() },
    ];
    assert!(is_voxtype_runtime_pid(1, &images));
    assert!(!is_voxtype_runtime_pid(2, &images));
    assert!(!is_voxtype_runtime_pid(3, &images));
}

#[test]
fn port_resolution() {
    let images = vec![
        PidImage { pid: 4242, tasklist_output: "\"voxtype-runtime.exe\",\"4242\"".into() },
        PidImage { pid: 77, tasklist_output: "\"voxtype-runtime.exe\",\"77\"".into() },
        PidImage { pid: 78, tasklist_output: "\"node.exe\",\"78\"".into() },
    ];
    // Configured port free: keep it.
    let c = resolve_runtime_port(false, 6018, NETSTAT, &images).unwrap();
    assert_eq!((c.port, c.reclaim_pids.len(), c.persist), (6018, 0, false));
    // Only a stale runtime listens: reclaim it and keep the port.
    let c = resolve_runtime_port(false, 6016, NETSTAT, &images).unwrap();
    assert_eq!((c.port, c.reclaim_pids.clone(), c.persist), (6016, vec![4242], false));
    // Another application holds the port: move to the next free one.
    let c = resolve_runtime_port(false, 6017, NETSTAT, &images).unwrap();
    assert_eq!((c.port, c.reclaim_pids.len(), c.persist), (6018, 0, true));
    // Forced move.
    let c = resolve_runtime_port(true, 6018, NETSTAT, &images).unwrap();
    assert_eq!((c.port, c.persist), (6019, true));
    assert!(resolve_runtime_port(true, 6016, &full_range_busy(), &images).is_err());
    // At the top of the range the fresh-port search wraps to the bottom.
    let c = resolve_runtime_port(true, 6100, "", &images).unwrap();
    assert_eq!((c.port, c.persist), (6016, true));
    let c = resolve_runtime_port(true, 6100, NETSTAT, &images).unwrap();
    assert_eq!(c.port, 6018);
    // The configured port comes back only when every other one is busy.
    let mut all_but_6050 = String::new();
    for p in 6016..=6100 {
        if p != 6050 {
            all_but_6050.push_str(&format!("127.0.0.1:{p} LISTENING 9\n"));
        }
    }
    let c = resolve_runtime_port(true, 6050, &all_but_6050, &images).unwrap();
    assert_eq!(c.port, 6050);
    // A configured port above the range starts the search at its top.
    let other_app = "  TCP    127.0.0.1:6200    0.0.0.0:0    LISTENING    555\n";
    let c = resolve_runtime_port(false, 6200, other_app, &images).unwrap();
    assert_eq!((c.port, c.persist), (6100, true));
    let c = resolve_runtime_port(true, 6200, "", &images).unwrap();
    assert_eq!(c.port, 6100);
    // Below the range the search starts at its bottom.
    let c = resolve_runtime_port(true, 80, "", &images).unwrap();
    assert_eq!(c.port, 6016);
}

#[test]
fn persisting_the_port() {
    let mut s = AppSettings::default();
    assert!(!persist_runtime_port(&mut s, 6016));
    assert!(persist_runtime_port(&mut s, 6030));
    assert_eq!(s.runtime_ws_port, 6030);
}

fn health(ok: bool, ready: bool, detail: Option<&str>) -> Option<RuntimeHealth> {
    Some(RuntimeHealth {
        ok,
        ready,
        model_loaded: ready,
        model_id: None,
        detail: detail.map(|s| s.to_string()),
        execution_provider: None,
    })
}

#[test]
fn health_polls() {
    assert!(matches!(health_poll_outcome(&None), HealthPoll::KeepWaiting));
    assert!(matches!(health_poll_outcome(&health(true, true, None)), HealthPoll::Ready));
    assert!(matches!(health_poll_outcome(&health(false, true, None)), HealthPoll::Ready));
    assert!(matches!(health_poll_outcome(&health(true, false, None)), HealthPoll::KeepWaiting));
    match health_poll_outcome(&health(false, false, Some("model missing"))) {
        HealthPoll::Failed(m) => assert_eq!(m, "识别服务异常: model missing"),
        _ => panic!("expected a failure"),
    }
    match health_poll_outcome(&health(false, false, None)) {
        HealthPoll::Failed(m) => assert_eq!(m, "识别服务异常: health not ok"),
        _ => panic!("expected a failure"),
    }
    assert_eq!(health_poll_steps(45_000), 150);
    assert_eq!(health_poll_steps(299), 0);
    assert_eq!(startup_timeout_message(), "识别服务启动超时（模型加载可能较慢，请查看 runtime 日志）");
}

#[test]
fn runtime_arguments() {
    assert_eq!(
        runtime_command_args(6016, "/m/sensevoice", "sensevoice", "cuda"),
        vec!["--port", "6016", "--model-dir", "/m/sensevoice", "--model-type", "sensevoice", "--provider", "cuda"]
    );
}
