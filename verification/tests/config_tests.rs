use mainframer::config::Config;
use mainframer::config::Pull;
use mainframer::config::Push;
use mainframer::config::Remote;
use mainframer::sync::PullMode;

fn config_with_levels(push_level: i8, pull_level: i8) -> Config {
    Config {
        remote: Remote {
            host: "computer1".to_string(),
            ..Default::default()
        },
        push: Push {
            compression: push_level,
            user: None,
        },
        pull: Pull {
            compression: pull_level,
            mode: PullMode::Serial,
            user: None,
        },
    }
}

#[test]
fn validate_accepts_all_levels_in_range() {
    for level in 1..=9 {
        let config = config_with_levels(level, level);
        let validated = config.clone().validate();
        assert_eq!(validated, Ok(config));
    }
}

#[test]
fn validate_rejects_pull_level_out_of_range() {
    for level in [0i8, 10, -1] {
        let config = config_with_levels(3, level);
        assert_eq!(
            config.validate(),
            Err(format!(
                "'pull.compression' must be a positive integer from 1 to 9, but was {}",
                level
            ))
        );
    }
}

#[test]
fn validate_rejects_push_level_out_of_range() {
    for level in [0i8, 10, -1] {
        let config = config_with_levels(level, 3);
        assert_eq!(
            config.validate(),
            Err(format!(
                "'push.compression' must be a positive integer from 1 to 9, but was {}",
                level
            ))
        );
    }
}

#[test]
fn validate_reports_pull_before_push() {
    let config = config_with_levels(0, 10);
    assert_eq!(
        config.validate(),
        Err("'pull.compression' must be a positive integer from 1 to 9, but was 10".to_string())
    );
}

#[test]
fn range_checks_match_bounds() {
    assert!(config_with_levels(1, 9).valid_push_compression_range());
    assert!(config_with_levels(1, 9).valid_pull_compression_range());
    assert!(!config_with_levels(0, 9).valid_push_compression_range());
    assert!(!config_with_levels(1, 10).valid_pull_compression_range());
}

#[test]
fn default_compression_levels() {
    assert_eq!(Push::default_compression(), 3);
    assert_eq!(Pull::default_compression(), 1);
    assert_eq!(Push::default().user, None);
    assert_eq!(Pull::default().mode, PullMode::Serial);
    assert_eq!(PullMode::default(), PullMode::Serial);
}
