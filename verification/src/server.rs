//! The UDP server.

use crate::endpoint::Endpoint;
use crate::net::SocketAddr;
use vstd::prelude::*;

verus! {

/// How the server is connected.
#[derive(Debug)]
pub enum ConnectionConfig {
    /// Sends, at this address.
    Sender { address: SocketAddr },
    /// Receives, for these endpoints.
    Receiver { endpoints: Vec<Endpoint> },
}

/// What the server is started with.
#[derive(Debug)]
pub struct ServerConfig {
    pub connections: ConnectionConfig,
}

/// The key-value pairs that go with everything that is logged.
#[derive(Debug)]
pub struct LogContext {
    pub pairs: Vec<(String, String)>,
}

/// Something that the server logs.
#[derive(Debug)]
pub enum LogRecord {
    Starting,
    Sender { address: SocketAddr },
    Receiver { endpoints: usize },
}

impl LogRecord {
    pub open spec fn spec_message(self) -> Seq<char> {
        match self {
            LogRecord::Starting => "Starting!"@,
            LogRecord::Sender { .. } => "Sender configuration"@,
            LogRecord::Receiver { .. } => "Receiver configuration"@,
        }
    }

    /// The text of the record.
    pub fn message(&self) -> (message: String)
        ensures
            message@ == self.spec_message(),
    {
        match self {
            LogRecord::Starting => "Starting!".to_string(),
            LogRecord::Sender { .. } => "Sender configuration".to_string(),
            LogRecord::Receiver { .. } => "Receiver configuration".to_string(),
        }
    }
}

/// What a run of the server logs, in order, and what goes with each record.
#[derive(Debug)]
pub struct RunLog {
    pub context: LogContext,
    pub records: Vec<LogRecord>,
}

/// Server is the UDP server main implementation
#[derive(Debug)]
pub struct Server {
    log: LogContext,
}

/// How a server describes its configuration.
pub open spec fn described(connections: ConnectionConfig) -> LogRecord {
    match connections {
        ConnectionConfig::Sender { address } => LogRecord::Sender { address },
        ConnectionConfig::Receiver { endpoints } => LogRecord::Receiver {
            endpoints: endpoints@.len() as usize,
        },
    }
}

impl Server {
    pub closed spec fn log(&self) -> Seq<(String, String)> {
        self.log.pairs@
    }

    /// A server that logs under `base`, and gives itself as the source.
    pub fn new(base: LogContext) -> (server: Self)
        ensures
            server.log().len() == base.pairs@.len() + 1,
            server.log().drop_last() == base.pairs@,
            server.log().last().0@ == "source"@,
            server.log().last().1@ == "server::Server"@,
    {
        let mut log = base;
        log.pairs.push(("source".to_string(), "server::Server".to_string()));
        Server { log }
    }

    /// Runs the server: says that it starts, and then how it is configured.
    pub fn run(self, config: ServerConfig) -> (log: RunLog)
        ensures
            log.context.pairs@ == self.log(),
            log.records@ == seq![LogRecord::Starting, described(config.connections)],
    {
        let Server { log } = self;
        let mut records = vec![LogRecord::Starting];
        match config.connections {
            ConnectionConfig::Sender { address, .. } => {
                records.push(LogRecord::Sender { address });
            },
            ConnectionConfig::Receiver { endpoints } => {
                records.push(LogRecord::Receiver { endpoints: endpoints.len() });
            },
        }
        RunLog { context: log, records }
    }
}

} // verus!
