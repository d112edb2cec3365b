use ruget::cli::{determine_json_output, Args, LogFormat, LogLevel};
use ruget::config::{
    format_named, level_named, loaded_or_default, Config, LoggingConfig, RetryConfig,
};
use ruget::lazy_config::{apply_config_if_needed, needs_config};

fn base_args() -> Args {
    Args {
        urls: vec!["https://example.com".to_string()],
        input: None,
        output: None,
        headers: vec![],
        resume: false,
        max_retries: 0,
        verbose: false,
        log_json: false,
        log_format: None,
        log_level: None,
        quiet: false,
        output_dir: None,
        jobs: 0,
        log: "".to_string(),
        init: false,
        backoff_base_ms: 100,
        backoff_max_ms: 60000,
    }
}

/// Test merging retry config into args
#[test]
fn test_retry_config_merge() {
    let config = Config {
        retry: Some(RetryConfig { max: Some(7), base_ms: Some(1000), max_ms: Some(20000) }),
        ..Default::default()
    };

    let mut args = Args {
        urls: vec!["https://example.com".to_string()],
        input: None,
        output: None,
        headers: vec![],
        resume: false,
        max_retries: 0, // Should be overridden by config
        verbose: false,
        log_json: false,
        log_format: None,
        log_level: None,
        quiet: false,
        output_dir: None,
        jobs: 0,
        log: "".to_string(),
        init: false,
        backoff_base_ms: 100,  // Should be overridden by config
        backoff_max_ms: 60000, // Should be overridden by config
    };

    config.merge_with_args(&mut args);

    assert_eq!(args.max_retries, 7);
    assert_eq!(args.backoff_base_ms, 1000);
    assert_eq!(args.backoff_max_ms, 20000);
}

/// Test merging logging config into args
#[test]
fn test_logging_config_merge() {
    let config = Config {
        logging: Some(LoggingConfig {
            format: Some("json".to_string()),
            level: Some("debug".to_string()),
        }),
        ..Default::default()
    };

    let mut args = Args {
        urls: vec!["https://example.com".to_string()],
        input: None,
        output: None,
        headers: vec![],
        resume: false,
        max_retries: 3,
        verbose: false,
        log_json: false,
        log_format: None, // Should be overridden
        log_level: None,  // Should be overridden
        quiet: false,
        output_dir: None,
        jobs: 0,
        log: "test.log".to_string(),
        init: false,
        backoff_base_ms: 100,
        backoff_max_ms: 60000,
    };

    config.merge_with_args(&mut args);

    assert!(matches!(args.log_format, Some(LogFormat::Json)));
    assert!(matches!(args.log_level, Some(LogLevel::Debug)));
}

/// Test that CLI args take precedence over config
#[test]
fn test_cli_precedence_over_config() {
    let config = Config {
        retry: Some(RetryConfig { max: Some(5), base_ms: Some(500), max_ms: Some(10000) }),
        logging: Some(LoggingConfig {
            format: Some("json".to_string()),
            level: Some("debug".to_string()),
        }),
        ..Default::default()
    };

    let mut args = Args {
        urls: vec!["https://example.com".to_string()],
        input: None,
        output: None,
        headers: vec![],
        resume: false,
        max_retries: 10, // Already set, should not be overridden
        verbose: false,
        log_json: false,
        log_format: Some(LogFormat::Text), // Already set, should not be overridden
        log_level: Some(LogLevel::Error),  // Already set, should not be overridden
        quiet: false,
        output_dir: None,
        jobs: 0,
        log: "test.log".to_string(),
        init: false,
        backoff_base_ms: 200,  // Already set, should not be overridden
        backoff_max_ms: 30000, // Already set, should not be overridden
    };

    config.merge_with_args(&mut args);

    // CLI values should be preserved
    assert_eq!(args.max_retries, 10);
    assert_eq!(args.backoff_base_ms, 200);
    assert_eq!(args.backoff_max_ms, 30000);
    assert!(matches!(args.log_format, Some(LogFormat::Text)));
    assert!(matches!(args.log_level, Some(LogLevel::Error)));
}

/// Test priority: old config fields vs new config sections
#[test]
fn test_config_section_priority() {
    // New sections should take precedence over old individual fields
    let config = Config {
        retries: Some(3),
        backoff_base_ms: Some(100),
        backoff_max_ms: Some(60000),
        retry: Some(RetryConfig {
            max: Some(7),        // Should override retries field
            base_ms: Some(1000), // Should override backoff_base_ms field
            max_ms: Some(20000), // Should override backoff_max_ms field
        }),
        ..Default::default()
    };

    let mut args = Args {
        urls: vec!["https://example.com".to_string()],
        input: None,
        output: None,
        headers: vec![],
        resume: false,
        max_retries: 0, // Use config
        verbose: false,
        log_json: false,
        log_format: None,
        log_level: None,
        quiet: false,
        output_dir: None,
        jobs: 0,
        log: "".to_string(),
        init: false,
        backoff_base_ms: 100,  // Use config
        backoff_max_ms: 60000, // Use config
    };

    config.merge_with_args(&mut args);

    // New section values should take precedence
    assert_eq!(args.max_retries, 7); // From retry.max, not retries
    assert_eq!(args.backoff_base_ms, 1000); // From retry.base_ms, not backoff_base_ms
    assert_eq!(args.backoff_max_ms, 20000); // From retry.max_ms, not backoff_max_ms
}

/// Test apply_config_if_needed detects when logging config is needed
#[test]
fn test_apply_config_if_needed_with_logging() {
    let mut args = Args {
        urls: vec!["https://example.com".to_string()],
        input: None,
        output: None,
        headers: vec![],
        resume: false,
        max_retries: 3, // Set
        verbose: false,
        log_json: false,
        log_format: None, // Not set - should trigger config loading
        log_level: None,  // Not set - should trigger config loading
        quiet: false,
        output_dir: None,
        jobs: 1,                     // Set
        log: "test.log".to_string(), // Set
        init: false,
        backoff_base_ms: 100,
        backoff_max_ms: 60000,
    };

    // With no configuration file there is the empty configuration
    apply_config_if_needed(&mut args, &Config::default());

    assert_eq!(args.max_retries, 3);
    assert_eq!(args.jobs, 1);
    assert_eq!(args.log, "test.log");
    assert!(args.log_format.is_none());
}

/// Test default values for new config sections
#[test]
fn test_default_config_values() {
    let config = Config::default();

    assert!(config.retry.is_none());
    assert!(config.logging.is_none());

    let retry_config = RetryConfig::default();
    assert!(retry_config.max.is_none());
    assert!(retry_config.base_ms.is_none());
    assert!(retry_config.max_ms.is_none());

    let logging_config = LoggingConfig::default();
    assert!(logging_config.format.is_none());
    assert!(logging_config.level.is_none());
}

#[test]
fn merge_fills_in_the_old_fields_without_a_retry_section() {
    let config = Config {
        retries: Some(9),
        resume: Some(true),
        quiet: Some(false),
        verbose: Some(true),
        jobs: Some(4),
        output_dir: Some("/tmp/downloads".to_string()),
        headers: Some(vec!["A: b".to_string(), "C: d".to_string()]),
        log: Some("custom.log".to_string()),
        backoff_base_ms: Some(200),
        backoff_max_ms: Some(30000),
        ..Default::default()
    };
    let mut args = base_args();
    config.merge_with_args(&mut args);
    assert_eq!(args.max_retries, 9);
    assert!(args.resume);
    assert!(!args.quiet);
    assert!(args.verbose);
    assert_eq!(args.jobs, 4);
    assert_eq!(args.output_dir, Some("/tmp/downloads".to_string()));
    assert_eq!(args.headers, vec!["A: b".to_string(), "C: d".to_string()]);
    assert_eq!(args.log, "custom.log");
    assert_eq!(args.backoff_base_ms, 200);
    assert_eq!(args.backoff_max_ms, 30000);
    assert_eq!(args.urls, vec!["https://example.com".to_string()]);
}

#[test]
fn merge_with_the_empty_configuration_gives_the_defaults() {
    let mut args = base_args();
    Config::default().merge_with_args(&mut args);
    assert_eq!(args.max_retries, 3);
    assert_eq!(args.backoff_base_ms, 100);
    assert_eq!(args.backoff_max_ms, 60000);
    assert_eq!(args.log, "ruget_failures.log");
    assert!(args.headers.is_empty());
    assert_eq!(args.output_dir, None);
    assert_eq!(args.jobs, 0);
    assert!(args.log_format.is_none());
    assert!(args.log_level.is_none());
}

#[test]
fn retry_section_without_values_hides_the_old_fields() {
    let config = Config {
        retries: Some(9),
        backoff_base_ms: Some(200),
        backoff_max_ms: Some(30000),
        retry: Some(RetryConfig::default()),
        ..Default::default()
    };
    let mut args = base_args();
    config.merge_with_args(&mut args);
    assert_eq!(args.max_retries, 3);
    assert_eq!(args.backoff_base_ms, 100);
    assert_eq!(args.backoff_max_ms, 60000);
}

#[test]
fn settings_of_the_command_line_stay() {
    let config = Config {
        jobs: Some(4),
        output_dir: Some("/cfg".to_string()),
        headers: Some(vec!["A: b".to_string()]),
        log: Some("cfg.log".to_string()),
        resume: Some(false),
        ..Default::default()
    };
    let mut args = base_args();
    args.jobs = 2;
    args.output_dir = Some("/cli".to_string());
    args.headers = vec!["X: y".to_string()];
    args.log = "cli.log".to_string();
    args.resume = true;
    config.merge_with_args(&mut args);
    assert_eq!(args.jobs, 2);
    assert_eq!(args.output_dir, Some("/cli".to_string()));
    assert_eq!(args.headers, vec!["X: y".to_string()]);
    assert_eq!(args.log, "cli.log");
    assert!(args.resume);
}

#[test]
fn names_of_formats_and_levels_are_matched_in_any_case() {
    assert_eq!(format_named("JSON"), Some(LogFormat::Json));
    assert_eq!(format_named("Text"), Some(LogFormat::Text));
    assert_eq!(format_named("xml"), None);
    assert_eq!(level_named("DEBUG"), Some(LogLevel::Debug));
    assert_eq!(level_named("Info"), Some(LogLevel::Info));
    assert_eq!(level_named("wArN"), Some(LogLevel::Warn));
    assert_eq!(level_named("error"), Some(LogLevel::Error));
    assert_eq!(level_named("trace"), None);
}

#[test]
fn apply_config_leaves_complete_settings_alone() {
    let mut args = base_args();
    args.max_retries = 2;
    args.resume = true;
    args.quiet = true;
    args.verbose = true;
    args.jobs = 1;
    args.output_dir = Some("d".to_string());
    args.headers = vec!["A: b".to_string()];
    args.log = "l".to_string();
    args.log_format = Some(LogFormat::Text);
    args.log_level = Some(LogLevel::Warn);
    assert!(!needs_config(&args));
    let config = Config {
        backoff_base_ms: Some(5),
        ..Default::default()
    };
    apply_config_if_needed(&mut args, &config);
    assert_eq!(args.backoff_base_ms, 100);
    args.jobs = 0;
    assert!(needs_config(&args));
    apply_config_if_needed(&mut args, &config);
    assert_eq!(args.backoff_base_ms, 5);
}

#[test]
fn json_output_follows_flag_then_format() {
    let mut args = base_args();
    assert!(!determine_json_output(&args));
    args.log_format = Some(LogFormat::Json);
    assert!(determine_json_output(&args));
    args.log_format = Some(LogFormat::Text);
    assert!(!determine_json_output(&args));
    args.log_json = true;
    assert!(determine_json_output(&args));
}

#[test]
fn a_failed_load_gives_the_empty_configuration() {
    let loaded = Config {
        jobs: Some(4),
        ..Default::default()
    };
    assert_eq!(loaded_or_default(Ok(loaded)).jobs, Some(4));
    let failed = Err(ruget::error::RuGetError::config("unreadable".to_string()));
    let config = loaded_or_default(failed);
    assert!(config.jobs.is_none());
    assert!(config.retries.is_none());
    assert!(config.headers.is_none());
    assert!(config.retry.is_none());
    assert!(config.logging.is_none());
}
