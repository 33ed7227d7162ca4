use antikoerper::acquire::plan_acquisition;
use antikoerper::acquire::AcquireCommand;
use antikoerper::acquire::AcquisitionFailure;
use antikoerper::digest::digest;
use antikoerper::item::DigestKind;
use antikoerper::item::Item;
use antikoerper::item::ItemKind;
use antikoerper::output::file::render_line;
use antikoerper::output::file::u64_to_dec;
use antikoerper::output::influx_always_raw_default;
use antikoerper::output::influx_database_default;
use antikoerper::output::influx_raw_as_fallback_default;
use antikoerper::output::influx_url_default;
use antikoerper::output::file_always_raw_default;
use antikoerper::output::FileOutput;
use antikoerper::output::InfluxOutput;
use antikoerper::output::LineValue;
use antikoerper::output::OutputError;
use antikoerper::output::OutputErrorKind;
use antikoerper::output::OutputKind;
use antikoerper::output::SinkAction;
use antikoerper::output::TickTime;
use antikoerper::pipeline::fan_out;
use antikoerper::pipeline::tick_actions;
use antikoerper::pipeline::writes_for_sink;
use antikoerper::pipeline::WriteRequest;

fn tick_time() -> TickTime {
    TickTime { secs: 1000, millis: 1_000_000 }
}

fn file_sink(base: &str, always_raw: bool) -> OutputKind {
    OutputKind::File {
        fo: FileOutput { base_path: base.to_string(), always_write_raw: always_raw },
    }
}

fn influx_sink(fallback: bool, always_raw: bool) -> OutputKind {
    OutputKind::InfluxDB {
        io: InfluxOutput {
            url: influx_url_default(),
            database: influx_database_default(),
            auth: None,
            use_raw_as_fallback: fallback,
            always_write_raw: always_raw,
        },
    }
}

fn uptime_item() -> Item {
    Item {
        interval: 1,
        key: "os.uptime".to_string(),
        env: Vec::new(),
        kind: ItemKind::File { path: "/proc/uptime".to_string() },
        digest: DigestKind::Raw,
    }
}

fn loadavg_item() -> Item {
    Item {
        interval: 1,
        key: "os.loadavg".to_string(),
        env: Vec::new(),
        kind: ItemKind::Shell { script: "echo 0.42 0.38 0.31".to_string() },
        digest: DigestKind::Regex { pattern: r"(?P<one>0\.42)".to_string() },
    }
}

#[test]
fn scenario_file_raw_fallback() {
    let item = uptime_item();
    let outputs = vec![file_sink("/tmp/ak", false)];
    let acquired: Result<String, AcquisitionFailure> = Ok("123.45 67.89\n".to_string());
    let plans = tick_actions(&item, &acquired, &outputs, tick_time());
    assert_eq!(plans.len(), 1);
    assert_eq!(
        plans[0],
        vec![SinkAction::AppendLine {
            path: "/tmp/ak/os.uptime.raw".to_string(),
            secs: 1000,
            value: LineValue::Text { text: "123.45 67.89".to_string() },
        }]
    );
}

#[test]
fn scenario_shell_regex_value() {
    let item = loadavg_item();
    let cmd = plan_acquisition(&item.kind, "/usr/bin/sh", &item.env);
    assert_eq!(
        cmd,
        AcquireCommand::Run {
            path: "/usr/bin/sh".to_string(),
            args: vec!["-c".to_string(), "echo 0.42 0.38 0.31".to_string()],
            env: Vec::new(),
        }
    );
    let outputs = vec![file_sink("/tmp/ak", false)];
    let acquired: Result<String, AcquisitionFailure> = Ok("0.42 0.38 0.31\n".to_string());
    let plans = tick_actions(&item, &acquired, &outputs, tick_time());
    assert_eq!(plans.len(), 1);
    assert_eq!(
        plans[0],
        vec![SinkAction::AppendLine {
            path: "/tmp/ak/os.loadavg.one".to_string(),
            secs: 1000,
            value: LineValue::Num { text: "0.42".to_string() },
        }]
    );
    match &plans[0][0] {
        SinkAction::AppendLine { value: LineValue::Num { text }, .. } => {
            assert_eq!(text.parse::<f64>().unwrap(), 0.42);
        }
        other => panic!("unexpected action: {:?}", other),
    }
}

#[test]
fn scenario_spawn_failure_writes_nothing() {
    let item = Item {
        interval: 1,
        key: "os.battery".to_string(),
        env: Vec::new(),
        kind: ItemKind::Command { path: "/no/such/executable".to_string(), args: Vec::new() },
        digest: DigestKind::Raw,
    };
    let outputs = vec![file_sink("/tmp/ak", true), influx_sink(true, true)];
    let acquired: Result<String, AcquisitionFailure> = Err(AcquisitionFailure::SpawnError);
    let plans = tick_actions(&item, &acquired, &outputs, tick_time());
    assert_eq!(plans.len(), 2);
    assert!(plans[0].is_empty());
    assert!(plans[1].is_empty());
}

fn run_action(action: &SinkAction, log: &mut Vec<String>) -> Result<(), OutputError> {
    match action {
        SinkAction::AppendLine { path, .. } if path.starts_with("/broken/") => Err(OutputError {
            kind: OutputErrorKind::WriteError("FileOutput".to_string()),
            cause: Some("read-only file system".to_string()),
        }),
        SinkAction::AppendLine { path, .. } => {
            log.push(path.clone());
            Ok(())
        }
        SinkAction::SendPoint { key, .. } => {
            log.push(key.clone());
            Ok(())
        }
    }
}

#[test]
fn sink_isolation_between_two_sinks() {
    let item = uptime_item();
    let failing = file_sink("/broken/ak", false);
    let healthy = file_sink("/tmp/ak", false);
    let outputs = vec![failing, healthy.clone()];
    let acquired: Result<String, AcquisitionFailure> = Ok("not a number\n".to_string());
    let plans = tick_actions(&item, &acquired, &outputs, tick_time());

    // The healthy sink's plan is the same whether or not the failing sink is
    // configured beside it.
    let solo = tick_actions(&item, &acquired, &vec![healthy], tick_time());
    assert_eq!(plans[1], solo[0]);

    // Executing the plans sink by sink: the first sink's failure is recorded
    // and the second sink still receives its write.
    let mut log: Vec<String> = Vec::new();
    let mut failures = 0;
    for sink_plan in &plans {
        for action in sink_plan {
            if run_action(action, &mut log).is_err() {
                failures += 1;
            }
        }
    }
    assert_eq!(failures, 1);
    assert_eq!(log, vec!["/tmp/ak/os.uptime.raw".to_string()]);
}

#[test]
fn fan_out_with_no_measurements_requests_fallback() {
    let ms = digest("os.uptime", &DigestKind::Raw, "123.45 67.89");
    let reqs = fan_out("os.uptime", "123.45 67.89", &ms);
    assert_eq!(
        reqs,
        vec![WriteRequest::Fallback {
            name: "os.uptime.raw".to_string(),
            text: "123.45 67.89".to_string(),
        }]
    );
}

#[test]
fn fan_out_with_measurements_requests_raw_then_values() {
    let ms = digest("os.uptime", &DigestKind::Raw, "0.5");
    let reqs = fan_out("os.uptime", "0.5", &ms);
    assert_eq!(
        reqs,
        vec![
            WriteRequest::Raw {
                name: "os.uptime.raw".to_string(),
                text: "0.5".to_string(),
            },
            WriteRequest::Value {
                name: "os.uptime.parsed".to_string(),
                num: "0.5".to_string(),
            },
        ]
    );
}

#[test]
fn influx_fallback_flag_governs_fallback_write() {
    let reqs = vec![WriteRequest::Fallback {
        name: "k.raw".to_string(),
        text: "abc".to_string(),
    }];
    let off = writes_for_sink(&influx_sink(false, false), &reqs, tick_time());
    assert!(off.is_empty());
    let on = writes_for_sink(&influx_sink(true, false), &reqs, tick_time());
    assert_eq!(on.len(), 1);
    match &on[0] {
        SinkAction::SendPoint { database, key, millis, value, .. } => {
            assert_eq!(database, "antikoerper");
            assert_eq!(key, "k.raw");
            assert_eq!(*millis, 1_000_000);
            assert_eq!(value, &LineValue::Text { text: "abc".to_string() });
        }
        other => panic!("unexpected action: {:?}", other),
    }
}

#[test]
fn always_write_raw_flag_governs_raw_write() {
    let reqs = vec![
        WriteRequest::Raw { name: "k.raw".to_string(), text: "0.5".to_string() },
        WriteRequest::Value { name: "k.parsed".to_string(), num: "0.5".to_string() },
    ];
    let quiet = writes_for_sink(&file_sink("/tmp/ak", false), &reqs, tick_time());
    assert_eq!(quiet.len(), 1);
    assert_eq!(
        quiet[0],
        SinkAction::AppendLine {
            path: "/tmp/ak/k.parsed".to_string(),
            secs: 1000,
            value: LineValue::Num { text: "0.5".to_string() },
        }
    );
    let verbose = writes_for_sink(&file_sink("/tmp/ak", true), &reqs, tick_time());
    assert_eq!(verbose.len(), 2);
    assert_eq!(
        verbose[0],
        SinkAction::AppendLine {
            path: "/tmp/ak/k.raw".to_string(),
            secs: 1000,
            value: LineValue::Text { text: "0.5".to_string() },
        }
    );
}

#[test]
fn acquisition_plan_for_file_and_command() {
    let env = vec![("RUST_LOG".to_string(), "debug".to_string())];
    let file_cmd = plan_acquisition(
        &ItemKind::File { path: "/proc/loadavg".to_string() },
        "/bin/sh",
        &env,
    );
    assert_eq!(file_cmd, AcquireCommand::ReadFile { path: "/proc/loadavg".to_string() });
    let run_cmd = plan_acquisition(
        &ItemKind::Command { path: "acpi".to_string(), args: vec!["-b".to_string()] },
        "/bin/sh",
        &env,
    );
    assert_eq!(
        run_cmd,
        AcquireCommand::Run {
            path: "acpi".to_string(),
            args: vec!["-b".to_string()],
            env: env.clone(),
        }
    );
}

#[test]
fn output_error_describe_names_stage() {
    let e = OutputError {
        kind: OutputErrorKind::WriteError("FileOutput".to_string()),
        cause: None,
    };
    assert_eq!(e.describe(), "failed writing values to output FileOutput");
    let p = OutputError {
        kind: OutputErrorKind::PrepareError("InfluxOutput".to_string()),
        cause: None,
    };
    assert_eq!(p.describe(), "failed to prepare output InfluxOutput");
    let c = OutputError {
        kind: OutputErrorKind::CleanupError("FileOutput".to_string()),
        cause: None,
    };
    assert_eq!(c.describe(), "cleanup of output FileOutput returned an error");
}

#[test]
fn sink_defaults() {
    assert_eq!(influx_url_default(), "http://localhost:8086");
    assert_eq!(influx_database_default(), "antikoerper");
    assert!(!influx_raw_as_fallback_default());
    assert!(!influx_always_raw_default());
    assert!(!file_always_raw_default());
}

#[test]
fn rendered_line_matches_std_formatting() {
    let cases: [u64; 7] = [0, 7, 10, 99, 1000, 1234567890, u64::MAX];
    for n in cases {
        assert_eq!(u64_to_dec(n), format!("{}", n), "case: {}", n);
    }
    assert_eq!(render_line(1000, "0.42"), "1000 0.42\n");
    assert_eq!(render_line(0, "NaN"), "0 NaN\n");
}
