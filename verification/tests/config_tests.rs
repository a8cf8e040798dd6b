use reth_research::config::{ConfigError, ResearchConfig, TraceDetail};

#[test]
fn test_default_config() {
    let config = ResearchConfig::default();
    assert_eq!(config.gas_multiplier, 128);
    assert_eq!(config.effective_gas_limit_multiplier(), 128);
    assert!(config.validate().is_ok());
}

#[test]
fn test_custom_gas_limit_multiplier() {
    let config = ResearchConfig {
        gas_multiplier: 128,
        gas_limit_multiplier: Some(256),
        ..Default::default()
    };
    assert_eq!(config.effective_gas_limit_multiplier(), 256);
}

#[test]
fn test_invalid_multiplier() {
    let config = ResearchConfig { gas_multiplier: 0, ..Default::default() };
    assert!(config.validate().is_err());
}

#[test]
fn test_trace_detail_parsing() {
    assert_eq!("minimal".parse::<TraceDetail>().unwrap(), TraceDetail::Minimal);
    assert_eq!("standard".parse::<TraceDetail>().unwrap(), TraceDetail::Standard);
    assert_eq!("detailed".parse::<TraceDetail>().unwrap(), TraceDetail::Detailed);
    assert!("invalid".parse::<TraceDetail>().is_err());
}

#[test]
fn trace_detail_parsing_ignores_ascii_case() {
    assert_eq!("MINIMAL".parse::<TraceDetail>().unwrap(), TraceDetail::Minimal);
    assert_eq!("Detailed".parse::<TraceDetail>().unwrap(), TraceDetail::Detailed);
    let err = "verbose".parse::<TraceDetail>().unwrap_err();
    assert_eq!(err, "Invalid trace detail level: verbose");
}

#[test]
fn default_multipliers_validate() {
    // multiplier 128, refund 1.0, stipend 1.0 (held in thousandths)
    let config = ResearchConfig::default();
    assert_eq!(config.refund_multiplier, 1000);
    assert_eq!(config.stipend_multiplier, 1000);
    assert!(config.validate().is_ok());
}

#[test]
fn negative_refund_multiplier_fails_validation() {
    let config = ResearchConfig { refund_multiplier: -1, ..Default::default() };
    let err = config.validate().unwrap_err();
    assert!(matches!(err, ConfigError::InvalidMultiplier(_)));
}

#[test]
fn negative_stipend_multiplier_fails_validation() {
    let config = ResearchConfig { stipend_multiplier: -500, ..Default::default() };
    assert!(config.validate().is_err());
}

#[test]
fn zero_multiplier_reports_which_field() {
    let config = ResearchConfig { gas_multiplier: 0, ..Default::default() };
    match config.validate().unwrap_err() {
        ConfigError::InvalidMultiplier(m) => assert_eq!(m, "gas_multiplier must be > 0"),
        other => panic!("unexpected error: {:?}", other),
    }
}

#[test]
fn include_traces_only_when_detailed() {
    assert!(!TraceDetail::Minimal.include_call_trees());
    assert!(!TraceDetail::Standard.include_call_trees());
    assert!(TraceDetail::Detailed.include_call_trees());
    assert!(!TraceDetail::Standard.include_event_logs());
    assert!(TraceDetail::Detailed.include_event_logs());
}
