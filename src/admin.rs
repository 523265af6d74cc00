//! Administrative console commands sent to the running server.
use vstd::prelude::*;
use vstd::string::*;
use crate::platform::{
    Platform, session_name, session_name_spec, executable_name_spec, transcript_name_spec,
};
use crate::text::{decimal, push_decimal};

verus! {

/// How a command reaches the server process.
#[derive(Clone, Copy, Debug, PartialEq, Eq, Structural)]
pub enum Delivery {
    /// Typed into the named session, followed by a newline.
    TypeIntoSession,
    /// Passed as an argument to the server executable.
    PassToExecutable,
}

/// What to do to deliver one command and read the reply.
pub struct CommandPlan {
    pub delivery: Delivery,
    /// The session name, or the executable's file name.
    pub target: String,
    /// The text handed to the target.
    pub input: String,
    /// The file, relative to the working directory, read back as the reply.
    pub transcript: String,
}

/// `plan` delivers `command` as the platform `p` does.
pub open spec fn plans_command(p: Platform, plan: CommandPlan, command: Seq<char>) -> bool {
    &&& plan.transcript@ == transcript_name_spec(p)
    &&& match p {
        Platform::Session => {
            &&& plan.delivery == Delivery::TypeIntoSession
            &&& plan.target@ == session_name_spec()
            &&& plan.input@ == command + "\n"@
        },
        Platform::Handle => {
            &&& plan.delivery == Delivery::PassToExecutable
            &&& plan.target@ == executable_name_spec(p)
            &&& plan.input@ == command
        },
    }
}

pub open spec fn gamemode_command(player: Seq<char>, mode: Seq<char>) -> Seq<char> {
    "/gamemode "@ + mode + " "@ + player
}

pub open spec fn op_command(player: Seq<char>) -> Seq<char> {
    "/op "@ + player
}

pub open spec fn deop_command(player: Seq<char>) -> Seq<char> {
    "/deop "@ + player
}

pub open spec fn kick_command(player: Seq<char>, reason: Seq<char>) -> Seq<char> {
    "/kick "@ + player + " "@ + reason
}

pub open spec fn whitelist_add_command(player: Seq<char>) -> Seq<char> {
    "/whitelist add "@ + player
}

pub open spec fn whitelist_remove_command(player: Seq<char>) -> Seq<char> {
    "/whitelist remove "@ + player
}

pub open spec fn list_command() -> Seq<char> {
    "/list"@
}

pub open spec fn teleport_command(player: Seq<char>, target: Seq<char>) -> Seq<char> {
    "/tp "@ + player + " "@ + target
}

pub open spec fn give_command(player: Seq<char>, item: Seq<char>, amount: nat) -> Seq<char> {
    "/give "@ + player + " "@ + item + " "@ + decimal(amount)
}

/// Formats administrative commands for the server in a working directory.
///
/// Commands are planned whether or not a server is known to be running:
/// the plan is handed to the delivery side untouched, and a stopped server
/// simply produces no reply.
pub struct ServerAdmin {
    work_dir: String,
    platform: Platform,
}

impl ServerAdmin {
    pub closed spec fn platform_spec(&self) -> Platform {
        self.platform
    }

    pub closed spec fn work_dir_spec(&self) -> Seq<char> {
        self.work_dir@
    }

    pub fn new(work_dir: String, platform: Platform) -> (r: ServerAdmin)
        ensures
            r.work_dir_spec() == work_dir@,
            r.platform_spec() == platform,
    {
        ServerAdmin { work_dir, platform }
    }

    pub fn work_dir(&self) -> (r: &str)
        ensures
            r@ == self.work_dir_spec(),
    {
        self.work_dir.as_str()
    }

    pub fn platform(&self) -> (r: Platform)
        ensures
            r == self.platform_spec(),
    {
        self.platform
    }

    /// Plans the delivery of `command` and the read-back of the transcript.
    pub fn execute_command(&self, command: &str) -> (r: CommandPlan)
        ensures
            plans_command(self.platform_spec(), r, command@),
    {
        match self.platform {
            Platform::Session => {
                let mut input = String::from_str(command);
                input.append("\n");
                CommandPlan {
                    delivery: Delivery::TypeIntoSession,
                    target: String::from_str(session_name()),
                    input,
                    transcript: String::from_str(self.platform.transcript_name()),
                }
            },
            Platform::Handle => CommandPlan {
                delivery: Delivery::PassToExecutable,
                target: String::from_str(self.platform.executable_name()),
                input: String::from_str(command),
                transcript: String::from_str(self.platform.transcript_name()),
            },
        }
    }

    pub fn set_gamemode(&self, player: &str, mode: &str) -> (r: CommandPlan)
        ensures
            plans_command(self.platform_spec(), r, gamemode_command(player@, mode@)),
    {
        let mut c = String::from_str("/gamemode ");
        c.append(mode);
        c.append(" ");
        c.append(player);
        self.execute_command(c.as_str())
    }

    pub fn op_player(&self, player: &str) -> (r: CommandPlan)
        ensures
            plans_command(self.platform_spec(), r, op_command(player@)),
    {
        let mut c = String::from_str("/op ");
        c.append(player);
        self.execute_command(c.as_str())
    }

    pub fn deop_player(&self, player: &str) -> (r: CommandPlan)
        ensures
            plans_command(self.platform_spec(), r, deop_command(player@)),
    {
        let mut c = String::from_str("/deop ");
        c.append(player);
        self.execute_command(c.as_str())
    }

    pub fn kick_player(&self, player: &str, reason: &str) -> (r: CommandPlan)
        ensures
            plans_command(self.platform_spec(), r, kick_command(player@, reason@)),
    {
        let mut c = String::from_str("/kick ");
        c.append(player);
        c.append(" ");
        c.append(reason);
        self.execute_command(c.as_str())
    }

    pub fn whitelist_add(&self, player: &str) -> (r: CommandPlan)
        ensures
            plans_command(self.platform_spec(), r, whitelist_add_command(player@)),
    {
        let mut c = String::from_str("/whitelist add ");
        c.append(player);
        self.execute_command(c.as_str())
    }

    pub fn whitelist_remove(&self, player: &str) -> (r: CommandPlan)
        ensures
            plans_command(self.platform_spec(), r, whitelist_remove_command(player@)),
    {
        let mut c = String::from_str("/whitelist remove ");
        c.append(player);
        self.execute_command(c.as_str())
    }

    pub fn list_players(&self) -> (r: CommandPlan)
        ensures
            plans_command(self.platform_spec(), r, list_command()),
    {
        self.execute_command("/list")
    }

    pub fn teleport_player(&self, player: &str, target: &str) -> (r: CommandPlan)
        ensures
            plans_command(self.platform_spec(), r, teleport_command(player@, target@)),
    {
        let mut c = String::from_str("/tp ");
        c.append(player);
        c.append(" ");
        c.append(target);
        self.execute_command(c.as_str())
    }

    pub fn give_item(&self, player: &str, item: &str, amount: u32) -> (r: CommandPlan)
        ensures
            plans_command(self.platform_spec(), r, give_command(player@, item@, amount as nat)),
    {
        let mut c = String::from_str("/give ");
        c.append(player);
        c.append(" ");
        c.append(item);
        c.append(" ");
        push_decimal(&mut c, amount as u64);
        self.execute_command(c.as_str())
    }
}

} // verus!
