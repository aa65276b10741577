use vstd::prelude::*;

verus! {

/// The health flags of one status report; none set means the link is healthy.
#[derive(Clone, Copy, Debug, PartialEq, Eq, Structural)]
pub struct HealthFlags {
    pub connection_timeout: bool,
    pub connection_broken: bool,
    pub invalid_heartbeat: bool,
}

impl HealthFlags {
    /// Whether no flag is set.
    pub open spec fn spec_all_ok(self) -> bool {
        !self.connection_timeout && !self.connection_broken && !self.invalid_heartbeat
    }

    /// Flags with only the read timeout set.
    pub open spec fn timed_out() -> HealthFlags {
        HealthFlags { connection_timeout: true, connection_broken: false, invalid_heartbeat: false }
    }

    /// Flags with only the broken link set.
    pub open spec fn broken() -> HealthFlags {
        HealthFlags { connection_timeout: false, connection_broken: true, invalid_heartbeat: false }
    }

    /// Flags with only the malformed report set.
    pub open spec fn invalid() -> HealthFlags {
        HealthFlags { connection_timeout: false, connection_broken: false, invalid_heartbeat: true }
    }
}

/// A decoded status report of the controller, with the code scanned in this
/// cycle, if any.
pub struct Heartbeat {
    pub flags: HealthFlags,
    pub code: Option<String>,
}

impl Heartbeat {
    /// A healthy report that carries no code.
    pub fn new() -> (r: Heartbeat)
        ensures
            r.flags.spec_all_ok(),
            r.code is None,
    {
        Heartbeat {
            flags: HealthFlags {
                connection_timeout: false,
                connection_broken: false,
                invalid_heartbeat: false,
            },
            code: None,
        }
    }

    /// The same report with the read timeout flag set.
    pub fn set_connection_timeout(self) -> (r: Heartbeat)
        ensures
            r.flags == (HealthFlags { connection_timeout: true, ..self.flags }),
            r.code == self.code,
    {
        Heartbeat { flags: HealthFlags { connection_timeout: true, ..self.flags }, code: self.code }
    }

    /// The same report with the broken link flag set.
    pub fn set_connection_broken(self) -> (r: Heartbeat)
        ensures
            r.flags == (HealthFlags { connection_broken: true, ..self.flags }),
            r.code == self.code,
    {
        Heartbeat { flags: HealthFlags { connection_broken: true, ..self.flags }, code: self.code }
    }

    /// The same report with the malformed report flag set.
    pub fn set_invalid_heartbeat(self) -> (r: Heartbeat)
        ensures
            r.flags == (HealthFlags { invalid_heartbeat: true, ..self.flags }),
            r.code == self.code,
    {
        Heartbeat { flags: HealthFlags { invalid_heartbeat: true, ..self.flags }, code: self.code }
    }

    /// The same report carrying a scanned code.
    pub fn with_code(self, code: String) -> (r: Heartbeat)
        ensures
            r.flags == self.flags,
            r.code == Some(code),
    {
        Heartbeat { flags: self.flags, code: Some(code) }
    }

    /// Whether no health flag is set.
    pub fn all_ok(&self) -> (r: bool)
        ensures
            r == self.flags.spec_all_ok(),
    {
        !self.flags.connection_timeout && !self.flags.connection_broken
            && !self.flags.invalid_heartbeat
    }
}

/// The line with which the controller announces that it has just started.
pub const INIT_ANNOUNCEMENT: &'static str = "System initialized";

/// Whether a line read from the controller is its start-up announcement.
pub open spec fn spec_is_init_announcement(line: Seq<char>) -> bool {
    INIT_ANNOUNCEMENT@.len() <= line.len() && line.subrange(0, INIT_ANNOUNCEMENT@.len() as int)
        == INIT_ANNOUNCEMENT@
}

/// Tells the controller's start-up announcement apart from status reports: the
/// line begins with the announcement's text.
pub fn is_init_announcement(line: &str) -> (r: bool)
    ensures
        r == spec_is_init_announcement(line@),
{
    let prefix = INIT_ANNOUNCEMENT;
    let n = prefix.unicode_len();
    let m = line.unicode_len();
    if m < n {
        return false;
    }
    let mut i: usize = 0;
    while i < n
        invariant
            n == prefix@.len(),
            prefix@ == INIT_ANNOUNCEMENT@,
            n <= m == line@.len(),
            i <= n,
            forall|j: int| 0 <= j < i ==> line@[j] == prefix@[j],
        decreases n - i,
    {
        if line.get_char(i) != prefix.get_char(i) {
            return false;
        }
        i = i + 1;
    }
    proof {
        assert(line@.subrange(0, n as int) =~= INIT_ANNOUNCEMENT@);
    }
    true
}

/// The kinds of failure that a read from the link can end in.
#[derive(Clone, Copy, Debug, PartialEq, Eq, Structural)]
pub enum ReadErrorKind {
    /// No data came within the link's timeout.
    TimedOut,
    /// The link was cut.
    BrokenPipe,
    /// Any other failure of the transport.
    Other,
}

} // verus!
