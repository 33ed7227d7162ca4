use antikoerper::conf::shell_default;
use antikoerper::conf::Config;
use antikoerper::conf::ConfigError;
use antikoerper::conf::ConfigErrorKind;
use antikoerper::conf::General;
use antikoerper::item::DigestKind;
use antikoerper::item::Item;
use antikoerper::item::ItemError;
use antikoerper::item::ItemErrorKind;
use antikoerper::item::ItemKind;
use antikoerper::output::FileOutput;
use antikoerper::output::OutputKind;

fn shell_item(key: &str, interval: i64, script: &str) -> Item {
    Item {
        interval,
        key: key.to_string(),
        env: Vec::new(),
        kind: ItemKind::Shell { script: script.to_string() },
        digest: DigestKind::Raw,
    }
}

fn config_with(items: Vec<Item>) -> Config {
    Config {
        general: General { shell: shell_default() },
        output: vec![OutputKind::File {
            fo: FileOutput { base_path: "/tmp/test".to_string(), always_write_raw: false },
        }],
        items,
    }
}

#[test]
fn load() {
    let config = config_with(vec![
        shell_item("os.uptime", 60, "cat /proc/uptime | cut -d' ' -f1"),
        shell_item("os.loadavg", 1, "cat /proc/loadavg | cut -d' ' -f1"),
    ]);
    assert!(config.validate().is_ok());
    assert_eq!(config.items.len(), 2);
}

#[test]
fn no_duplicates() {
    let config = config_with(vec![
        shell_item("os.uptime", 60, "cat /proc/uptime | cut -d' ' -f1"),
        shell_item("os.uptime", 1, "cat /proc/loadavg | cut -d' ' -f1"),
    ]);
    let result = config.validate();
    assert!(result.is_err());
    match result {
        Err(ConfigError { kind: ConfigErrorKind::DuplicateItem(n), .. }) => {
            assert_eq!(n, "os.uptime");
        }
        _ => panic!("Wrong Error!: {:?}", result),
    }
}

#[test]
fn zero_interval_rejected() {
    let config = config_with(vec![shell_item("os.uptime", 0, "cat /proc/uptime")]);
    let result = config.validate();
    match result {
        Err(ConfigError { kind: ConfigErrorKind::ErrorItems, cause: Some(c) }) => {
            assert_eq!(
                c,
                "os.uptime: interval has to be bigger than 0 and smaller than MAX_INT64"
            );
        }
        _ => panic!("expected an item error, got {:?}", result),
    }
}

#[test]
fn negative_interval_rejected() {
    let config = config_with(vec![shell_item("os.uptime", -5, "cat /proc/uptime")]);
    let result = config.validate();
    assert!(matches!(
        result,
        Err(ConfigError { kind: ConfigErrorKind::ErrorItems, .. })
    ));
}

#[test]
fn duplicate_reported_before_interval() {
    let config = config_with(vec![
        shell_item("a.b", 0, "true"),
        shell_item("a.b", 5, "true"),
    ]);
    let result = config.validate();
    assert!(matches!(
        result,
        Err(ConfigError { kind: ConfigErrorKind::DuplicateItem(_), .. })
    ));
}

#[test]
fn config_error_describe() {
    let dup = ConfigError {
        kind: ConfigErrorKind::DuplicateItem("os.uptime".to_string()),
        cause: None,
    };
    assert_eq!(dup.describe(), "duplicate key: os.uptime");
    let items = ConfigError { kind: ConfigErrorKind::ErrorItems, cause: None };
    assert_eq!(items.describe(), "some items have errors");
    let utf8 = ConfigError { kind: ConfigErrorKind::Utf8Error, cause: None };
    assert_eq!(utf8.describe(), "utf8 error");
    let io = ConfigError {
        kind: ConfigErrorKind::IoError,
        cause: Some("no such file".to_string()),
    };
    assert_eq!(io.describe(), "no such file");
}

#[test]
fn item_error_carries_key_and_kind() {
    let e = ItemError::new("os.uptime".to_string(), ItemErrorKind::InvalidInterval);
    assert_eq!(e.key(), "os.uptime");
    assert_eq!(e.kind(), ItemErrorKind::InvalidInterval);
    assert_eq!(
        e.as_str(),
        "interval has to be bigger than 0 and smaller than MAX_INT64"
    );
    assert_eq!(
        e.describe(),
        "os.uptime: interval has to be bigger than 0 and smaller than MAX_INT64"
    );
}

#[test]
fn default_shell() {
    assert_eq!(shell_default(), "/usr/bin/sh");
}

#[test]
fn default_digest_is_raw() {
    assert!(matches!(DigestKind::default(), DigestKind::Raw));
}
