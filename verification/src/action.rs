//! Control messages that the child process sends to its supervisor.

use vstd::prelude::*;

verus! {

/// One decoded control message.
#[derive(Debug, PartialEq, Eq)]
pub enum Action {
    Reload,
    Stop,
    Transfer(TransferPayload),
    Kick(KickByIdPayload),
    GetPlayer(GetPlayerPayload),
    Execute(ExecuteCommandPayload),
    ExecuteShell(ExecuteShellCommandPayload),
}

/// Moves a player to another server.
#[derive(Debug, PartialEq, Eq)]
pub struct TransferPayload {
    pub player: String,
    pub host: String,
    pub port: u16,
}

/// Removes a player from the server.
#[derive(Debug, PartialEq, Eq)]
pub struct KickByIdPayload {
    pub player: String,
    pub reason: String,
}

/// Asks for what is known of a connected player.
#[derive(Debug, Hash, PartialEq, Eq)]
pub struct GetPlayerPayload {
    pub name: String,
}

/// Runs a server command, optionally asking for its output.
#[derive(Debug, PartialEq, Eq)]
pub struct ExecuteCommandPayload {
    pub command: String,
    pub result: bool,
}

/// Runs a program on the host, optionally asking for word of a failure.
#[derive(Debug, PartialEq, Eq)]
pub struct ExecuteShellCommandPayload {
    pub main_command: String,
    pub args: Vec<String>,
    pub result: bool,
}

} // verus!
