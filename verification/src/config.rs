//! Configuration of the proxy server.

use vstd::prelude::*;

use crate::text::{decimal_text, join3};

verus! {

/// Server configuration.
#[derive(Debug)]
pub struct ServerConfig {
    /// Address on which the control server listens.
    pub grpc_listen_address: String,
    /// Port on which the control server listens.
    pub grpc_listen_port: u16,
}

/// The mathematical counterpart of [`ServerConfig`].
pub struct ServerConfigView {
    pub grpc_listen_address: Seq<char>,
    pub grpc_listen_port: u16,
}

impl View for ServerConfig {
    type V = ServerConfigView;

    open spec fn view(&self) -> ServerConfigView {
        ServerConfigView {
            grpc_listen_address: self.grpc_listen_address@,
            grpc_listen_port: self.grpc_listen_port,
        }
    }
}

impl ServerConfigView {
    /// The configuration that is used where none is given: port 50051 on all interfaces.
    pub open spec fn standard() -> ServerConfigView {
        ServerConfigView { grpc_listen_address: "[::]"@, grpc_listen_port: 50051 }
    }
}

impl Default for ServerConfig {
    fn default() -> (config: ServerConfig)
        ensures
            config@ == ServerConfigView::standard(),
    {
        ServerConfig { grpc_listen_address: "[::]".to_string(), grpc_listen_port: 50051 }
    }
}

/// Logging configuration.
#[derive(Debug)]
pub struct LoggingConfig {
    /// Whether to log to a file.
    pub file_enabled: bool,
    /// Log directory path.
    pub directory: String,
    /// Log file name prefix.
    pub file_prefix: String,
    /// Maximum log file size in MB.
    pub max_file_size: u64,
    /// Maximum number of log files to keep.
    pub max_log_files: usize,
}

/// The mathematical counterpart of [`LoggingConfig`].
pub struct LoggingConfigView {
    pub file_enabled: bool,
    pub directory: Seq<char>,
    pub file_prefix: Seq<char>,
    pub max_file_size: u64,
    pub max_log_files: usize,
}

impl View for LoggingConfig {
    type V = LoggingConfigView;

    open spec fn view(&self) -> LoggingConfigView {
        LoggingConfigView {
            file_enabled: self.file_enabled,
            directory: self.directory@,
            file_prefix: self.file_prefix@,
            max_file_size: self.max_file_size,
            max_log_files: self.max_log_files,
        }
    }
}

impl LoggingConfigView {
    /// The configuration that is used where none is given: five files of 100 MB.
    pub open spec fn standard() -> LoggingConfigView {
        LoggingConfigView {
            file_enabled: true,
            directory: "./logs"@,
            file_prefix: "rtpproxy"@,
            max_file_size: 100,
            max_log_files: 5,
        }
    }
}

impl Default for LoggingConfig {
    fn default() -> (config: LoggingConfig)
        ensures
            config@ == LoggingConfigView::standard(),
    {
        LoggingConfig {
            file_enabled: true,
            directory: "./logs".to_string(),
            file_prefix: "rtpproxy".to_string(),
            max_file_size: 100,
            max_log_files: 5,
        }
    }
}

/// Application configuration.
#[derive(Debug)]
pub struct Config {
    pub server: ServerConfig,
    pub logging: LoggingConfig,
}

/// The mathematical counterpart of [`Config`].
pub struct ConfigView {
    pub server: ServerConfigView,
    pub logging: LoggingConfigView,
}

impl View for Config {
    type V = ConfigView;

    open spec fn view(&self) -> ConfigView {
        ConfigView { server: self.server@, logging: self.logging@ }
    }
}

impl ConfigView {
    /// The configuration that is used where none is given.
    pub open spec fn standard() -> ConfigView {
        ConfigView {
            server: ServerConfigView::standard(),
            logging: LoggingConfigView::standard(),
        }
    }

    /// The address of the control server as text: address, colon, port.
    pub open spec fn grpc_address(self) -> Seq<char> {
        self.server.grpc_listen_address + ":"@ + crate::text::decimal(
            self.server.grpc_listen_port as nat,
        )
    }
}

impl Default for Config {
    fn default() -> (config: Config)
        ensures
            config@ == ConfigView::standard(),
    {
        Config { server: ServerConfig::default(), logging: LoggingConfig::default() }
    }
}

impl Config {
    /// The configuration to run with: what was read from the configuration file, or the
    /// standard configuration where reading it failed with the given error.
    pub fn load(read: Result<Config, String>) -> (config: Config)
        ensures
            config@ == match read {
                Ok(c) => c@,
                Err(_) => ConfigView::standard(),
            },
    {
        match read {
            Ok(config) => config,
            Err(_) => Config::default(),
        }
    }

    /// The socket address of the control server as text.
    pub fn grpc_address(&self) -> (text: String)
        ensures
            text@ == self@.grpc_address(),
    {
        let port: String = decimal_text(self.server.grpc_listen_port as u32);
        join3(self.server.grpc_listen_address.as_str(), ":", port.as_str())
    }
}

} // verus!
