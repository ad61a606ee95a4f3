//! Laws of the server: what a run logs.

use crate::server::{ConnectionConfig, LogContext, LogRecord, RunLog, Server, ServerConfig};
use vstd::prelude::*;

verus! {

/// A run of a server says first that it starts and then how it is configured, and
/// nothing else: a sender with its address, a receiver with how many endpoints it
/// has. With each record go the pairs that the server was given and its own name.
pub proof fn law_run_is_logged(
    base: LogContext,
    server: Server,
    config: ServerConfig,
    log: RunLog,
)
    requires
        call_ensures(Server::new, (base,), server),
        call_ensures(Server::run, (server, config), log),
    ensures
        log.records@.len() == 2,
        log.records@[0] is Starting,
        match config.connections {
            ConnectionConfig::Sender { address } => log.records@[1] == (LogRecord::Sender {
                address,
            }),
            ConnectionConfig::Receiver { endpoints } => {
                &&& log.records@[1] matches LogRecord::Receiver { endpoints: count }
                &&& count == endpoints@.len()
            },
        },
        log.context.pairs@.len() == base.pairs@.len() + 1,
        forall|i: int|
            0 <= i < base.pairs@.len() ==> #[trigger] log.context.pairs@[i] == base.pairs@[i],
        log.context.pairs@.last().0@ == "source"@,
        log.context.pairs@.last().1@ == "server::Server"@,
{
    assert forall|i: int| 0 <= i < base.pairs@.len() implies #[trigger] log.context.pairs@[i]
        == base.pairs@[i] by {
        assert(server.log().drop_last()[i] == base.pairs@[i]);
    }
    if let ConnectionConfig::Receiver { endpoints } = config.connections {
        assert(endpoints@.len() == vstd::std_specs::vec::spec_vec_len(&endpoints));
    }
}

/// Each kind of record has its own text.
pub proof fn law_messages(record: LogRecord, message: String)
    requires
        call_ensures(LogRecord::message, (&record,), message),
    ensures
        record is Starting ==> message@ == "Starting!"@,
        record is Sender ==> message@ == "Sender configuration"@,
        record is Receiver ==> message@ == "Receiver configuration"@,
{
}

} // verus!
