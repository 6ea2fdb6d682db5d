use gelf_logger::{Config, ConfigBuilder, Error, FullBufferPolicy, GelfLevel, GelfRecord};

#[test]
fn builder_defaults() {
    let config = Config::builder().build();
    assert_eq!(config.level(), GelfLevel::Alert);
    assert_eq!(config.hostname().as_str(), "127.0.0.1");
    assert_eq!(config.port(), 12202);
    assert!(config.null_character());
    assert!(config.use_tls());
    assert_eq!(config.async_buffer_size(), None);
    assert_eq!(config.buffer_size(), None);
    assert_eq!(config.buffer_duration(), None);
    assert_eq!(config.full_buffer_policy(), Some(FullBufferPolicy::Discard));
    assert_eq!(config.connect_timeout(), None);
    assert_eq!(config.write_timeout(), None);
}

#[test]
fn builder_sets_every_field() {
    let config = ConfigBuilder::default()
        .set_level(GelfLevel::Warning)
        .set_hostname("logs.example.com".to_owned())
        .set_port(2202)
        .set_null_character(false)
        .set_use_tls(false)
        .set_async_buffer_size(50)
        .set_buffer_size(8)
        .set_buffer_duration(750)
        .set_full_buffer_policy(Some(FullBufferPolicy::Wait))
        .set_connect_timeout(Some(1500))
        .set_write_timeout(Some(2500))
        .build();
    assert_eq!(config.level(), GelfLevel::Warning);
    assert_eq!(config.hostname().as_str(), "logs.example.com");
    assert_eq!(config.port(), 2202);
    assert!(!config.null_character());
    assert!(!config.use_tls());
    assert_eq!(config.async_buffer_size(), Some(50));
    assert_eq!(config.buffer_size(), Some(8));
    assert_eq!(config.buffer_duration(), Some(750));
    assert_eq!(config.full_buffer_policy(), Some(FullBufferPolicy::Wait));
    assert_eq!(config.connect_timeout(), Some(1500));
    assert_eq!(config.write_timeout(), Some(2500));
}

#[test]
fn level_numbers_follow_syslog() {
    let levels = [
        (GelfLevel::Emergency, 0u32, "Emergency"),
        (GelfLevel::Alert, 1, "Alert"),
        (GelfLevel::Critical, 2, "Critical"),
        (GelfLevel::Error, 3, "Error"),
        (GelfLevel::Warning, 4, "Warning"),
        (GelfLevel::Notice, 5, "Notice"),
        (GelfLevel::Informational, 6, "Informational"),
        (GelfLevel::Debugging, 7, "Debugging"),
    ];
    for (level, number, name) in levels {
        assert_eq!(level.as_u32(), number);
        assert_eq!(GelfLevel::from_u32(number), level);
        assert_eq!(level.name(), name);
    }
}

#[test]
fn unknown_level_number_falls_back_to_alert() {
    assert_eq!(GelfLevel::from_u32(8), GelfLevel::Alert);
    assert_eq!(GelfLevel::from_u32(u32::MAX), GelfLevel::Alert);
    assert_eq!(GelfLevel::default(), GelfLevel::Alert);
}

#[test]
fn error_messages_name_their_source() {
    let record = GelfRecord::new(GelfLevel::Error, b"x".to_vec());
    let event = gelf_logger::Event::Data(record);
    assert_eq!(
        Error::FullChannelError(event).message(),
        "async channel buffer is full"
    );
    assert_eq!(
        Error::ChannelDisconnectedError(gelf_logger::Event::Flush(None)).message(),
        "async channel is disconnected"
    );
    assert_eq!(Error::IOError("broken pipe".to_owned()).message(), "io failure");
    assert_eq!(
        Error::JsonSerializerError("bad value".to_owned()).message(),
        "serializer failure"
    );
    assert_eq!(Error::LogError.message(), "logger already set");
    assert_eq!(Error::TLSError("handshake".to_owned()).message(), "tls failure");
    assert_eq!(Error::YamlError("bad yaml".to_owned()).message(), "invalid yaml content");
}
