use vstd::prelude::*;
use crate::fccore::{FCCore, status_text};
use crate::log::{Log, dump_text};
use crate::motors::MotorID;
use crate::text::same_text;

verus! {

/// Tag of the messages that the command surface logs.
pub const TAG: &'static str = "webserve";

/// Number of steps of the motor test ramp.
pub const MOTOR_TEST_STEPS: usize = 5;

/// A request of the command surface, named by the first segment of its path.
#[derive(Clone, Copy, Debug, PartialEq, Eq, Structural)]
pub enum Command {
    Arm,
    Disarm,
    Kill,
    Log,
    Config,
    MotorTest,
    /// `status`, and any name that is not one of the above.
    Status,
    /// A request with an empty path.
    Unknown,
}

/// What the command surface sends back, or has still to do.
#[derive(Clone, Debug)]
pub enum Reply {
    /// The command was applied; the answer is `ok`.
    Done,
    /// A page of text to send.
    Page(String),
    /// The encoded configuration is to be sent.
    ConfigText,
    /// The motor test ramp is to be run, one step at a time.
    MotorTest,
    /// No command was named.
    NotFound,
}

/// The command named by the first segment of `path`. An empty path names
/// none; a name that is not known asks for the status page.
pub open spec fn command_of(path: Seq<String>) -> Command {
    if path.len() == 0 {
        Command::Unknown
    } else {
        let c = path[0]@;
        if c == "arm"@ {
            Command::Arm
        } else if c == "disarm"@ {
            Command::Disarm
        } else if c == "log"@ {
            Command::Log
        } else if c == "kill"@ {
            Command::Kill
        } else if c == "config"@ {
            Command::Config
        } else if c == "motor_test"@ {
            Command::MotorTest
        } else {
            Command::Status
        }
    }
}

/// The path as it is logged: each segment preceded by `/`.
pub open spec fn path_text(path: Seq<String>) -> Seq<char>
    decreases path.len(),
{
    if path.len() == 0 {
        Seq::empty()
    } else {
        path_text(path.drop_last()) + "/"@ + path.last()@
    }
}

/// The power level of the front-left motor at each step of the motor test.
pub open spec fn ramp_level(step: int) -> int {
    if step == 0 {
        25
    } else if step == 1 {
        50
    } else if step == 2 {
        75
    } else if step == 3 {
        100
    } else {
        0
    }
}

/// `after` is `before` with `message` logged under the command surface's tag
/// and nothing else changed.
pub open spec fn logged_only(before: FCCore, after: FCCore, message: Seq<char>) -> bool {
    &&& after == (FCCore { log: after.log, ..before })
    &&& Log::appended(before.log, after.log, TAG@, message)
}

/// What applying `cmd` to `before` gives: the state `after` and the reply `r`.
pub open spec fn handled(before: FCCore, after: FCCore, cmd: Command, r: Reply) -> bool {
    match cmd {
        Command::Arm => r is Done && logged_only(
            FCCore { armed_command: true, ..before },
            after,
            "arm core network request"@,
        ),
        Command::Disarm => r is Done && logged_only(
            FCCore { armed_command: false, ..before },
            after,
            "disarm core network request"@,
        ),
        Command::Kill => r is Done && logged_only(
            FCCore { alive: false, ..before },
            after,
            "kill core network request"@,
        ),
        Command::Log => r is Page && r->Page_0@ == dump_text(before.log.spec_entries())
            && after == before,
        Command::Config => r is ConfigText && logged_only(
            before,
            after,
            "serving get config request"@,
        ),
        Command::MotorTest => r is MotorTest && after == before,
        Command::Status => r is Page && r->Page_0@ == status_text(after)
            && logged_only(before, after, "serving status request"@),
        Command::Unknown => r is NotFound && after == before,
    }
}

pub fn parse_command(path: &Vec<String>) -> (r: Command)
    ensures
        r == command_of(path@),
{
    if path.len() == 0 {
        return Command::Unknown;
    }
    let c = path[0].as_str();
    if same_text(c, "arm") {
        Command::Arm
    } else if same_text(c, "disarm") {
        Command::Disarm
    } else if same_text(c, "log") {
        Command::Log
    } else if same_text(c, "kill") {
        Command::Kill
    } else if same_text(c, "config") {
        Command::Config
    } else if same_text(c, "motor_test") {
        Command::MotorTest
    } else {
        Command::Status
    }
}

/// The path as it is logged.
pub fn render_path(path: &Vec<String>) -> (r: String)
    ensures
        r@ == path_text(path@),
{
    let mut s = String::new();
    let mut i: usize = 0;
    while i < path.len()
        invariant
            i <= path@.len(),
            s@ == path_text(path@.take(i as int)),
        decreases path@.len() - i,
    {
        s.append("/");
        s.append(path[i].as_str());
        proof {
            assert(path@.take(i + 1).drop_last() =~= path@.take(i as int));
        }
        i = i + 1;
    }
    proof {
        assert(path@.take(i as int) =~= path@);
    }
    s
}

impl FCCore {
    /// Applies one command to the core.
    pub fn handle_command(&mut self, cmd: Command) -> (r: Reply)
        requires
            old(self).wf(),
        ensures
            final(self).wf(),
            handled(*old(self), *final(self), cmd, r),
    {
        match cmd {
            Command::Arm => {
                self.set_armed_command(true);
                self.log.add(TAG, "arm core network request");
                Reply::Done
            },
            Command::Disarm => {
                self.set_armed_command(false);
                self.log.add(TAG, "disarm core network request");
                Reply::Done
            },
            Command::Kill => {
                self.alive = false;
                self.log.add(TAG, "kill core network request");
                Reply::Done
            },
            Command::Log => Reply::Page(self.log.dump()),
            Command::Config => {
                self.log.add(TAG, "serving get config request");
                Reply::ConfigText
            },
            Command::MotorTest => Reply::MotorTest,
            Command::Status => {
                self.log.add(TAG, "serving status request");
                Reply::Page(self.status_report())
            },
            Command::Unknown => Reply::NotFound,
        }
    }

    /// Serves one request: logs its path, then applies the command that it
    /// names.
    pub fn page_handler(&mut self, path: &Vec<String>) -> (r: Reply)
        requires
            old(self).wf(),
        ensures
            final(self).wf(),
            exists|mid: FCCore| {
                &&& logged_only(*old(self), mid, "Request: "@ + path_text(path@))
                &&& #[trigger] handled(mid, *final(self), command_of(path@), r)
            },
    {
        let mut line = String::new();
        line.append("Request: ");
        let p = render_path(path);
        line.append(p.as_str());
        self.log.add(TAG, line.as_str());
        let ghost mid = *self;
        let cmd = parse_command(path);
        let r = self.handle_command(cmd);
        proof {
            assert(logged_only(*old(self), mid, "Request: "@ + path_text(path@)));
        }
        r
    }

    /// Sets the front-left motor to the level of step `step` of the motor
    /// test; nothing else changes.
    pub fn motor_test_step(&mut self, step: usize)
        requires
            old(self).wf(),
            step < MOTOR_TEST_STEPS,
        ensures
            final(self).wf(),
            final(self).motors.power(MotorID::FrontLeft) == ramp_level(step as int),
            *final(self) == (FCCore { motors: final(self).motors, ..*old(self) }),
            forall|o: MotorID| o != MotorID::FrontLeft ==> #[trigger] final(self).motors.spec_motor(o)
                == old(self).motors.spec_motor(o),
    {
        let level: u64 = if step == 0 {
            25
        } else if step == 1 {
            50
        } else if step == 2 {
            75
        } else if step == 3 {
            100
        } else {
            0
        };
        self.set_motor_power(MotorID::FrontLeft, level);
    }
}

} // verus!
