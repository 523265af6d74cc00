//! The two ways the server process can be hosted, and the fixed names each uses.
use vstd::prelude::*;

verus! {

/// How the server process is hosted.
#[derive(Clone, Copy, Debug, PartialEq, Eq, Structural)]
pub enum Platform {
    /// A named, detachable terminal-multiplexer session; commands are typed into it.
    Session,
    /// A detached child process whose handle is kept; it is stopped by killing it.
    Handle,
}

/// The name of the multiplexer session that hosts the server.
pub open spec fn session_name_spec() -> Seq<char> {
    "minecraft"@
}

/// The file name of the server executable inside the working directory.
pub open spec fn executable_name_spec(p: Platform) -> Seq<char> {
    match p {
        Platform::Session => "bedrock_server"@,
        Platform::Handle => "bedrock_server.exe"@,
    }
}

/// The file, relative to the working directory, that holds the console transcript.
pub open spec fn transcript_name_spec(p: Platform) -> Seq<char> {
    match p {
        Platform::Session => "latest.log"@,
        Platform::Handle => "server.log"@,
    }
}

/// The name of the multiplexer session that hosts the server.
pub fn session_name() -> (r: &'static str)
    ensures
        r@ == session_name_spec(),
{
    "minecraft"
}

impl Platform {
    /// The file name of the server executable.
    pub fn executable_name(&self) -> (r: &'static str)
        ensures
            r@ == executable_name_spec(*self),
    {
        match self {
            Platform::Session => "bedrock_server",
            Platform::Handle => "bedrock_server.exe",
        }
    }

    /// The file that holds the console transcript read back after a command.
    pub fn transcript_name(&self) -> (r: &'static str)
        ensures
            r@ == transcript_name_spec(*self),
    {
        match self {
            Platform::Session => "latest.log",
            Platform::Handle => "server.log",
        }
    }
}

} // verus!
