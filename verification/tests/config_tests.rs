use preconfig_tester::config::{is_batch_file_name, select_batch_files, AppError, Config};

#[test]
fn batch_file_names() {
    assert!(is_batch_file_name("general.bat"));
    assert!(is_batch_file_name("a.tar.bat"));
    assert!(!is_batch_file_name("general.BAT"));
    assert!(!is_batch_file_name(".bat"));
    assert!(!is_batch_file_name("general"));
    assert!(!is_batch_file_name("general.cmd"));
    assert!(!is_batch_file_name("general."));
}

#[test]
fn select_keeps_batch_files_in_order() {
    let names = vec![
        "readme.txt".to_string(),
        "general.bat".to_string(),
        "notes.md".to_string(),
        "alt.bat".to_string(),
    ];
    let picked = select_batch_files(&names).unwrap();
    assert_eq!(picked, vec!["general.bat".to_string(), "alt.bat".to_string()]);
}

#[test]
fn select_with_no_batch_files_is_an_error() {
    let names = vec!["readme.txt".to_string(), "notes.md".to_string()];
    assert_eq!(select_batch_files(&names), Err(AppError::NoBatchFiles));
    let empty: Vec<String> = vec![];
    assert_eq!(select_batch_files(&empty), Err(AppError::NoBatchFiles));
}

#[test]
fn error_report_lines() {
    assert_eq!(
        AppError::IoError("disk".to_string()).to_message(),
        "IO error: disk"
    );
    assert_eq!(
        AppError::NetworkError("tls".to_string()).to_message(),
        "Network error: tls"
    );
    assert_eq!(AppError::NoBatchFiles.to_message(), "Pre-configs not found in directory");
    assert_eq!(
        AppError::InputError("bad".to_string()).to_message(),
        "Input error: bad"
    );
}

#[test]
fn config_holds_its_fields() {
    let config = Config {
        batch_dir: "pre-configs".to_string(),
        target_domain: "discord.com:443".to_string(),
        process_name: "winws.exe".to_string(),
        process_wait_timeout_ms: 10_000,
        connection_timeout_ms: 5_000,
    };
    assert_eq!(config.batch_dir, "pre-configs");
    assert_eq!(config.target_domain, "discord.com:443");
    assert_eq!(config.process_name, "winws.exe");
    assert_eq!(config.process_wait_timeout_ms, 10_000);
    assert_eq!(config.connection_timeout_ms, 5_000);
}
