use vstd::prelude::*;
use vstd::string::StringExecFns;
use crate::client::errors::ClientError;

verus! {

/// How the daemon's copy of the workspace manifest compares with the client's,
/// as reported in the handshake.
#[derive(PartialEq, Eq, Structural, Clone, Copy, Debug)]
pub enum WorkspaceState {
    Unspecified,
    InSync,
    OutOfSync,
    Unregistered,
}

/// A connected daemon whose workspace configuration is not loaded yet: the only
/// permitted action is to push the configuration.
pub struct UnsyncedHandle<C> {
    pub controller: C,
}

/// A session with the daemon after the handshake: ready for commands, or waiting for
/// the workspace configuration.
pub enum DaemonSession<C> {
    Ready(C),
    Unsynced(UnsyncedHandle<C>),
}

/// The error for a reply that breaks the protocol, with its message.
pub open spec fn is_contract_error(e: ClientError, msg: Seq<char>) -> bool {
    e matches ClientError::Contract(m) && m@ == msg
}

impl<C> DaemonSession<C> {
    /// The session a handshake reply leads to. `state` is the reported state, or nothing
    /// when the reply holds a value outside the known states. In sync gives a ready
    /// session, out of sync an unsynced one; an unregistered workspace or an unknown
    /// state is a contract error. The controller is handed over unchanged.
    pub fn from_handshake(controller: C, state: Option<WorkspaceState>) -> (r: Result<DaemonSession<C>, ClientError>)
        ensures
            match state {
                Some(WorkspaceState::InSync) => r == Ok::<DaemonSession<C>, ClientError>(DaemonSession::Ready(controller)),
                Some(WorkspaceState::OutOfSync) => r == Ok::<DaemonSession<C>, ClientError>(
                    DaemonSession::Unsynced(UnsyncedHandle { controller }),
                ),
                Some(WorkspaceState::Unregistered) => r matches Err(e) && is_contract_error(e, "workspace registration error"@),
                _ => r matches Err(e) && is_contract_error(e, "unknown workspace state"@),
            },
    {
        match state {
            Some(WorkspaceState::OutOfSync) => Ok(DaemonSession::Unsynced(UnsyncedHandle { controller })),
            Some(WorkspaceState::InSync) => Ok(DaemonSession::Ready(controller)),
            Some(WorkspaceState::Unregistered) => Err(
                ClientError::Contract(String::from_str("workspace registration error")),
            ),
            _ => Err(ClientError::Contract(String::from_str("unknown workspace state"))),
        }
    }
}

impl<C> UnsyncedHandle<C> {
    /// After the configuration was pushed: the controller, handed back for the next state.
    pub fn into_controller(self) -> (c: C)
        ensures
            c == self.controller,
    {
        self.controller
    }
}

/// The identifier of a command started on the daemon, taken from the value of the
/// `x-execution-id` reply header; a missing or unreadable header breaks the protocol.
pub fn execution_id(header: Option<&str>) -> (r: Result<String, ClientError>)
    ensures
        match header {
            Some(v) => r matches Ok(id) && id@ == v@,
            None => r matches Err(e) && is_contract_error(e, "daemon did not return an 'x-execution-id' header"@),
        },
{
    match header {
        Some(v) => Ok(String::from_str(v)),
        None => Err(ClientError::Contract(String::from_str("daemon did not return an 'x-execution-id' header"))),
    }
}

/// The identifier of a command started on the daemon, taken from the value of the
/// `x-command-id` reply header; a missing or unreadable header breaks the protocol.
pub fn command_id(header: Option<&str>) -> (r: Result<String, ClientError>)
    ensures
        match header {
            Some(v) => r matches Ok(id) && id@ == v@,
            None => r matches Err(e) && is_contract_error(e, "daemon did not return an 'x-command-id' header"@),
        },
{
    match header {
        Some(v) => Ok(String::from_str(v)),
        None => Err(ClientError::Contract(String::from_str("daemon did not return an 'x-command-id' header"))),
    }
}

} // verus!
