use horizon_client::config::{Config, SERVER_KEY_VAR, SERVER_URL_VAR};
use horizon_client::error::{AgentError, ErrorClass, Setting};

#[test]
fn both_settings_give_a_configuration() {
    let config = Config::from_settings(Some("http://h".to_string()), Some("k".to_string()));
    assert_eq!(
        config,
        Ok(Config { server_url: "http://h".to_string(), server_key: "k".to_string() })
    );
}

#[test]
fn missing_server_url_is_fatal() {
    let error = Config::from_settings(None, Some("k".to_string())).unwrap_err();
    assert_eq!(error, AgentError::ConfigMissing(Setting::ServerUrl));
    assert!(error.is_fatal());
    assert_eq!(error.class(), ErrorClass::Config);
}

#[test]
fn missing_server_key_is_fatal() {
    let error = Config::from_settings(Some("http://h".to_string()), None).unwrap_err();
    assert_eq!(error, AgentError::ConfigMissing(Setting::ServerKey));
    assert!(error.is_fatal());
}

#[test]
fn missing_both_names_the_address() {
    assert_eq!(
        Config::from_settings(None, None),
        Err(AgentError::ConfigMissing(Setting::ServerUrl))
    );
}

#[test]
fn empty_settings_are_present() {
    assert!(Config::from_settings(Some(String::new()), Some(String::new())).is_ok());
}

#[test]
fn setting_names() {
    assert_eq!(SERVER_URL_VAR, "SERVER_URL");
    assert_eq!(SERVER_KEY_VAR, "SERVER_KEY");
}

#[test]
fn only_configuration_errors_are_fatal() {
    let others = [
        AgentError::Storage,
        AgentError::SourceUnreadable,
        AgentError::Transport,
        AgentError::Execution,
        AgentError::RegistrationRejected("x".to_string()),
        AgentError::PollRejected("x".to_string()),
        AgentError::UploadRejected("x".to_string()),
        AgentError::CommandReportRejected("x".to_string()),
    ];
    for error in others.iter() {
        assert!(!error.is_fatal());
    }
}

#[test]
fn errors_fall_into_five_classes() {
    assert_eq!(AgentError::ConfigMissing(Setting::ServerKey).class(), ErrorClass::Config);
    assert_eq!(AgentError::Storage.class(), ErrorClass::Storage);
    assert_eq!(AgentError::SourceUnreadable.class(), ErrorClass::Storage);
    assert_eq!(AgentError::Transport.class(), ErrorClass::Transport);
    assert_eq!(AgentError::Execution.class(), ErrorClass::Execution);
    assert_eq!(AgentError::RegistrationRejected(String::new()).class(), ErrorClass::RemoteRejection);
    assert_eq!(AgentError::PollRejected(String::new()).class(), ErrorClass::RemoteRejection);
    assert_eq!(AgentError::UploadRejected(String::new()).class(), ErrorClass::RemoteRejection);
    assert_eq!(
        AgentError::CommandReportRejected(String::new()).class(),
        ErrorClass::RemoteRejection
    );
}
