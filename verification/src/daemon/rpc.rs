//! The daemon's request/response protocol (one JSON document per line
//! over a local connection) and the decisions each side takes on it.
//!
//! Transport and serialization are the caller's; this module says what
//! the server answers to each request and what the client makes of each
//! answer.

use vstd::prelude::*;
use crate::cli::Commands;

verus! {

/// A request from a client.
#[derive(Clone, Debug)]
pub enum DaemonRequest {
    /// Execute a CLI command.
    Execute(Commands),
    /// Shut the daemon down.
    Shutdown,
    /// Report the daemon's status.
    Status,
    /// Liveness check.
    Ping,
}

/// The daemon's answer.
#[derive(Clone, Debug)]
pub enum DaemonResponse {
    /// The command ran; its output.
    Success(String),
    /// The command failed; the error's message.
    Error(String),
    /// Status report.
    Status(DaemonStatus),
    /// Answer to a ping.
    Pong,
}

/// What the daemon reports about itself.
#[derive(Clone, Debug)]
pub struct DaemonStatus {
    /// Number of queued commands.
    pub queue_depth: usize,
    /// Number of completed commands.
    pub completed_commands: usize,
    /// Seconds since the daemon started.
    pub uptime_seconds: u64,
    /// The project served.
    pub project_path: String,
}

/// What the server does with a request.
pub enum ServerStep {
    /// Submit the command to the queue and answer with
    /// [`execution_response`] of its outcome.
    Submit(Commands),
    /// Signal shutdown to the server loops, then send the reply.
    Shutdown(DaemonResponse),
    /// Answer with [`status_response`] of the uptime and project.
    ReportStatus,
    /// Send the reply.
    Reply(DaemonResponse),
}

impl DaemonRequest {
    /// The server's step for this request: a command goes to the queue,
    /// a shutdown request is acknowledged with `Daemon shutting down`, a
    /// status request is answered with the status, a ping with a pong.
    pub fn server_step(self) -> (r: ServerStep)
        ensures
            match self {
                DaemonRequest::Execute(c) => r == ServerStep::Submit(c),
                DaemonRequest::Shutdown => r matches ServerStep::Shutdown(DaemonResponse::Success(m))
                    && m@ == "Daemon shutting down"@,
                DaemonRequest::Status => r is ReportStatus,
                DaemonRequest::Ping => r == ServerStep::Reply(DaemonResponse::Pong),
            },
    {
        match self {
            DaemonRequest::Execute(c) => ServerStep::Submit(c),
            DaemonRequest::Shutdown => ServerStep::Shutdown(
                DaemonResponse::Success("Daemon shutting down".to_owned()),
            ),
            DaemonRequest::Status => ServerStep::ReportStatus,
            DaemonRequest::Ping => ServerStep::Reply(DaemonResponse::Pong),
        }
    }
}

/// The answer to an executed command: its output, or its error's
/// message.
pub fn execution_response(outcome: Result<String, String>) -> (r: DaemonResponse)
    ensures
        match outcome {
            Ok(out) => r == DaemonResponse::Success(out),
            Err(e) => r == DaemonResponse::Error(e),
        },
{
    match outcome {
        Ok(out) => DaemonResponse::Success(out),
        Err(e) => DaemonResponse::Error(e),
    }
}

/// The status answer. The queue depth and completed count are reported
/// as zero.
pub fn status_response(uptime_seconds: u64, project_path: String) -> (r: DaemonResponse)
    ensures
        r == DaemonResponse::Status(
            DaemonStatus { queue_depth: 0, completed_commands: 0, uptime_seconds, project_path },
        ),
{
    DaemonResponse::Status(
        DaemonStatus { queue_depth: 0, completed_commands: 0, uptime_seconds, project_path },
    )
}

/// Why a reply did not give what the client asked for.
#[derive(Clone, Debug)]
pub enum ClientError {
    /// The daemon reported an error with this message.
    Daemon(String),
    /// The reply was of another kind than the request calls for.
    UnexpectedResponse,
}

/// The outcome of an `Execute` request, from its reply.
pub fn execute_reply(reply: DaemonResponse) -> (r: Result<String, ClientError>)
    ensures
        match reply {
            DaemonResponse::Success(out) => r == Ok::<String, ClientError>(out),
            DaemonResponse::Error(e) => r == Err::<String, ClientError>(ClientError::Daemon(e)),
            _ => r == Err::<String, ClientError>(ClientError::UnexpectedResponse),
        },
{
    match reply {
        DaemonResponse::Success(out) => Ok(out),
        DaemonResponse::Error(e) => Err(ClientError::Daemon(e)),
        _ => Err(ClientError::UnexpectedResponse),
    }
}

/// The outcome of a `Status` request, from its reply.
pub fn status_reply(reply: DaemonResponse) -> (r: Result<DaemonStatus, ClientError>)
    ensures
        match reply {
            DaemonResponse::Status(s) => r == Ok::<DaemonStatus, ClientError>(s),
            _ => r == Err::<DaemonStatus, ClientError>(ClientError::UnexpectedResponse),
        },
{
    match reply {
        DaemonResponse::Status(s) => Ok(s),
        _ => Err(ClientError::UnexpectedResponse),
    }
}

/// The outcome of a `Ping` request, from its reply.
pub fn ping_reply(reply: &DaemonResponse) -> (r: Result<(), ClientError>)
    ensures
        r is Ok <==> reply is Pong,
        r matches Err(e) ==> e is UnexpectedResponse,
{
    match reply {
        DaemonResponse::Pong => Ok(()),
        _ => Err(ClientError::UnexpectedResponse),
    }
}

} // verus!
