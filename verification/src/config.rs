//! Resolved configuration for the delivery core.
//!
//! Loading and parsing configuration (files, environment) is the caller's
//! business; the core consumes a resolved [`Config`] value. All durations are
//! given in milliseconds.

use vstd::prelude::*;

use crate::level::GelfLevel;

verus! {

/// The policy to apply when the bounded command queue between producers and
/// the dispatcher is full. It does not apply to flush requests.
#[derive(Clone, Copy, Debug, PartialEq, Eq, Structural)]
pub enum FullBufferPolicy {
    /// Wait for queue space: no record is lost while the dispatcher lives,
    /// but a producer thread can block indefinitely if the network never
    /// recovers.
    Wait,
    /// Drop the new record and report a full queue: a producer thread is
    /// never blocked, at the cost of silent data loss under sustained
    /// backpressure.
    Discard,
}

/// Resolved settings: where to deliver, how to frame records, and how the
/// queue and the batch buffer behave.
#[derive(Clone, Debug)]
pub struct Config {
    /// The severity threshold: less severe records are ignored.
    pub level: GelfLevel,
    /// The name of the remote server.
    pub hostname: String,
    /// The port of the remote server.
    pub port: u16,
    /// Whether a NUL byte is appended after each record.
    pub null_character: bool,
    /// Whether the connection is encrypted.
    pub use_tls: bool,
    /// The capacity of the command queue; `None` means 1000.
    pub async_buffer_size: Option<usize>,
    /// The maximum record count of the batch buffer; `None` means no limit.
    pub buffer_size: Option<usize>,
    /// The maximum age of the batch buffer in milliseconds; `None` means no
    /// limit.
    pub buffer_duration: Option<u64>,
    /// The policy when the command queue is full; `None` means `Discard`.
    pub full_buffer_policy: Option<FullBufferPolicy>,
    /// The TCP connect timeout in milliseconds; `None` means no timeout.
    pub connect_timeout: Option<u64>,
    /// The TCP write timeout in milliseconds; `None` means no timeout.
    pub write_timeout: Option<u64>,
}

/// Builder for [`Config`]: starts from the defaults and sets one field per
/// call.
#[derive(Clone, Debug)]
pub struct ConfigBuilder {
    /// The severity threshold: less severe records are ignored.
    pub level: GelfLevel,
    /// The name of the remote server.
    pub hostname: String,
    /// The port of the remote server.
    pub port: u16,
    /// Whether a NUL byte is appended after each record.
    pub null_character: bool,
    /// Whether the connection is encrypted.
    pub use_tls: bool,
    /// The capacity of the command queue; `None` means 1000.
    pub async_buffer_size: Option<usize>,
    /// The maximum record count of the batch buffer; `None` means no limit.
    pub buffer_size: Option<usize>,
    /// The maximum age of the batch buffer in milliseconds; `None` means no
    /// limit.
    pub buffer_duration: Option<u64>,
    /// The policy when the command queue is full; `None` means `Discard`.
    pub full_buffer_policy: Option<FullBufferPolicy>,
    /// The TCP connect timeout in milliseconds; `None` means no timeout.
    pub connect_timeout: Option<u64>,
    /// The TCP write timeout in milliseconds; `None` means no timeout.
    pub write_timeout: Option<u64>,
}

impl Default for ConfigBuilder {
    /// The default configuration: level `Alert`, hostname "127.0.0.1", port
    /// 12202, a NUL byte after each record, TLS on, the `Discard` policy, and
    /// no size, age or timeout limits.
    fn default() -> (builder: ConfigBuilder)
        ensures
            builder.level == GelfLevel::Alert,
            builder.hostname@ == "127.0.0.1"@,
            builder.port == 12202u16,
            builder.null_character == true,
            builder.use_tls == true,
            builder.async_buffer_size is None,
            builder.buffer_size is None,
            builder.buffer_duration is None,
            builder.full_buffer_policy == Some(FullBufferPolicy::Discard),
            builder.connect_timeout is None,
            builder.write_timeout is None,
    {
        ConfigBuilder {
            level: GelfLevel::Alert,
            hostname: "127.0.0.1".to_owned(),
            port: 12202,
            null_character: true,
            use_tls: true,
            async_buffer_size: None,
            buffer_size: None,
            buffer_duration: None,
            full_buffer_policy: Some(FullBufferPolicy::Discard),
            connect_timeout: None,
            write_timeout: None,
        }
    }
}

impl ConfigBuilder {
    /// Sets the threshold for the logger: records less severe than `level`
    /// are ignored.
    pub fn set_level(self, level: GelfLevel) -> (builder: ConfigBuilder)
        ensures
            builder == (ConfigBuilder { level, ..self }),
    {
        ConfigBuilder { level, ..self }
    }

    /// Sets the hostname of the remote server.
    pub fn set_hostname(self, hostname: String) -> (builder: ConfigBuilder)
        ensures
            builder == (ConfigBuilder { hostname, ..self }),
    {
        ConfigBuilder { hostname, ..self }
    }

    /// Sets the port of the remote server.
    pub fn set_port(self, port: u16) -> (builder: ConfigBuilder)
        ensures
            builder == (ConfigBuilder { port, ..self }),
    {
        ConfigBuilder { port, ..self }
    }

    /// Chooses whether a NUL byte (`\0`) is appended after each record.
    pub fn set_null_character(self, null_character: bool) -> (builder: ConfigBuilder)
        ensures
            builder == (ConfigBuilder { null_character, ..self }),
    {
        ConfigBuilder { null_character, ..self }
    }

    /// Chooses whether the connection is encrypted.
    pub fn set_use_tls(self, use_tls: bool) -> (builder: ConfigBuilder)
        ensures
            builder == (ConfigBuilder { use_tls, ..self }),
    {
        ConfigBuilder { use_tls, ..self }
    }

    /// Sets the capacity of the command queue between producer threads and
    /// the dispatcher. When unset, 1000 is used.
    pub fn set_async_buffer_size(self, async_buffer_size: usize) -> (builder: ConfigBuilder)
        ensures
            builder == (ConfigBuilder { async_buffer_size: Some(async_buffer_size), ..self }),
    {
        ConfigBuilder { async_buffer_size: Some(async_buffer_size), ..self }
    }

    /// Sets the maximum number of records held in the batch buffer; reaching
    /// it triggers a flush.
    pub fn set_buffer_size(self, buffer_size: usize) -> (builder: ConfigBuilder)
        ensures
            builder == (ConfigBuilder { buffer_size: Some(buffer_size), ..self }),
    {
        ConfigBuilder { buffer_size: Some(buffer_size), ..self }
    }

    /// Sets the maximum age of the batch buffer, in milliseconds; reaching it
    /// triggers a flush.
    pub fn set_buffer_duration(self, buffer_duration: u64) -> (builder: ConfigBuilder)
        ensures
            builder == (ConfigBuilder { buffer_duration: Some(buffer_duration), ..self }),
    {
        ConfigBuilder { buffer_duration: Some(buffer_duration), ..self }
    }

    /// Sets the policy to apply when the command queue is full. When unset or
    /// set to `None`, `Discard` is used.
    pub fn set_full_buffer_policy(self, policy: Option<FullBufferPolicy>) -> (builder:
        ConfigBuilder)
        ensures
            builder == (ConfigBuilder { full_buffer_policy: policy, ..self }),
    {
        ConfigBuilder { full_buffer_policy: policy, ..self }
    }

    /// Sets the TCP connect timeout, in milliseconds; `None` lets the connect
    /// block indefinitely.
    pub fn set_connect_timeout(self, connect_timeout: Option<u64>) -> (builder: ConfigBuilder)
        ensures
            builder == (ConfigBuilder { connect_timeout, ..self }),
    {
        ConfigBuilder { connect_timeout, ..self }
    }

    /// Sets the TCP write timeout, in milliseconds; `None` lets writes block
    /// indefinitely.
    pub fn set_write_timeout(self, write_timeout: Option<u64>) -> (builder: ConfigBuilder)
        ensures
            builder == (ConfigBuilder { write_timeout, ..self }),
    {
        ConfigBuilder { write_timeout, ..self }
    }

    /// Resolves the builder into a [`Config`].
    pub fn build(self) -> (config: Config)
        ensures
            config.level == self.level,
            config.hostname@ == self.hostname@,
            config.port == self.port,
            config.null_character == self.null_character,
            config.use_tls == self.use_tls,
            config.async_buffer_size == self.async_buffer_size,
            config.buffer_size == self.buffer_size,
            config.buffer_duration == self.buffer_duration,
            config.full_buffer_policy == self.full_buffer_policy,
            config.connect_timeout == self.connect_timeout,
            config.write_timeout == self.write_timeout,
    {
        Config {
            level: self.level,
            hostname: self.hostname,
            port: self.port,
            null_character: self.null_character,
            use_tls: self.use_tls,
            async_buffer_size: self.async_buffer_size,
            buffer_size: self.buffer_size,
            buffer_duration: self.buffer_duration,
            full_buffer_policy: self.full_buffer_policy,
            connect_timeout: self.connect_timeout,
            write_timeout: self.write_timeout,
        }
    }
}

impl Config {
    /// The threshold for the logger: records less severe than this level are
    /// ignored.
    pub fn level(&self) -> (level: GelfLevel)
        ensures
            level == self.level,
    {
        self.level
    }

    /// The name of the remote server, also used for certificate validation
    /// when TLS is on.
    pub fn hostname(&self) -> (hostname: &String)
        ensures
            hostname == self.hostname,
    {
        &self.hostname
    }

    /// The port of the remote server.
    pub fn port(&self) -> (port: u16)
        ensures
            port == self.port,
    {
        self.port
    }

    /// Whether a NUL byte (`\0`) is appended after each record.
    pub fn null_character(&self) -> (null_character: bool)
        ensures
            null_character == self.null_character,
    {
        self.null_character
    }

    /// Whether the connection is encrypted.
    pub fn use_tls(&self) -> (use_tls: bool)
        ensures
            use_tls == self.use_tls,
    {
        self.use_tls
    }

    /// The capacity of the command queue; `None` means the default of 1000.
    pub fn async_buffer_size(&self) -> (size: Option<usize>)
        ensures
            size == self.async_buffer_size,
    {
        self.async_buffer_size
    }

    /// The maximum number of records held in the batch buffer before a flush
    /// is triggered; `None` means no size limit.
    pub fn buffer_size(&self) -> (size: Option<usize>)
        ensures
            size == self.buffer_size,
    {
        self.buffer_size
    }

    /// The maximum age of the batch buffer, in milliseconds, before a flush
    /// is triggered; `None` means no age limit.
    pub fn buffer_duration(&self) -> (duration: Option<u64>)
        ensures
            duration == self.buffer_duration,
    {
        self.buffer_duration
    }

    /// The policy to apply when the command queue is full; `None` means
    /// `Discard`.
    pub fn full_buffer_policy(&self) -> (policy: Option<FullBufferPolicy>)
        ensures
            policy == self.full_buffer_policy,
    {
        self.full_buffer_policy
    }

    /// The TCP connect timeout, in milliseconds; `None` lets the connect
    /// block indefinitely.
    pub fn connect_timeout(&self) -> (timeout: Option<u64>)
        ensures
            timeout == self.connect_timeout,
    {
        self.connect_timeout
    }

    /// The TCP write timeout, in milliseconds; `None` lets writes block
    /// indefinitely.
    pub fn write_timeout(&self) -> (timeout: Option<u64>)
        ensures
            timeout == self.write_timeout,
    {
        self.write_timeout
    }

    /// Returns a new builder, initialized with the defaults.
    pub fn builder() -> (builder: ConfigBuilder)
        ensures
            builder.level == GelfLevel::Alert,
            builder.hostname@ == "127.0.0.1"@,
            builder.port == 12202u16,
            builder.null_character == true,
            builder.use_tls == true,
            builder.async_buffer_size is None,
            builder.buffer_size is None,
            builder.buffer_duration is None,
            builder.full_buffer_policy == Some(FullBufferPolicy::Discard),
            builder.connect_timeout is None,
            builder.write_timeout is None,
    {
        ConfigBuilder::default()
    }
}

} // verus!
