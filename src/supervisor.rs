//! The supervisor of the single auxiliary server process: where its
//! executable is looked for, how it is started, and the decisions of start,
//! stop and status over the one slot that holds it.
use vstd::prelude::*;

use crate::launch::joined;
use crate::launch::join_path;

verus! {

/// What the supervisor reports of the server.
#[derive(Debug, Clone, Copy, PartialEq, Eq)]
pub struct McpStatus {
    pub running: bool,
    pub pid: Option<u32>,
}

/// Why a supervisor operation failed.
#[derive(Debug, Clone, PartialEq, Eq)]
pub enum SupervisorError {
    /// No acceptable executable was found.
    ResourceUnavailable(String),
    /// An operation of the OS failed; its description.
    IoFailure(String),
}

/// What a non-blocking poll of the held process found.
#[derive(Debug, Clone, PartialEq, Eq)]
pub enum Liveness {
    Running,
    Exited,
    /// The poll itself failed; its description.
    Unknown(String),
}

/// What `start` does after looking at the slot.
#[derive(Debug, Clone, PartialEq, Eq)]
pub enum StartStep {
    /// A live server is held: report it and start nothing.
    Ready(McpStatus),
    /// The slot is empty: find the executable and start it.
    Launch,
    /// The held process could not be polled.
    Failed(SupervisorError),
}

/// The report for a running server.
pub open spec fn running_status(pid: u32) -> McpStatus {
    McpStatus { running: true, pid: Some(pid) }
}

/// The report for a stopped server.
pub open spec fn stopped_status() -> McpStatus {
    McpStatus { running: false, pid: None }
}

/// `start`'s decision and the slot after it, from the slot (the pid of the
/// held process, if any) and the poll of that process (`None` if it was not
/// polled).
pub open spec fn start_outcome(held: Option<u32>, poll: Option<Liveness>) -> (StartStep, Option<u32>) {
    match held {
        None => (StartStep::Launch, None),
        Some(pid) => match poll {
            Some(Liveness::Running) => (StartStep::Ready(running_status(pid)), held),
            Some(Liveness::Unknown(e)) => (StartStep::Failed(SupervisorError::IoFailure(e)), held),
            _ => (StartStep::Launch, None),
        },
    }
}

/// `stop`'s result and the slot after it, from the slot and the outcome of
/// the termination request (`None` if none was made).
pub open spec fn stop_outcome(held: Option<u32>, kill: Option<Result<(), String>>) -> (Result<McpStatus, SupervisorError>, Option<u32>) {
    match held {
        None => (Ok(stopped_status()), None),
        Some(_) => match kill {
            Some(Err(e)) => (Err(SupervisorError::IoFailure(e)), held),
            _ => (Ok(stopped_status()), None),
        },
    }
}

/// `status`'s result and the slot after it.
pub open spec fn status_outcome(held: Option<u32>, poll: Option<Liveness>) -> (Result<McpStatus, SupervisorError>, Option<u32>) {
    match held {
        None => (Ok(stopped_status()), None),
        Some(pid) => match poll {
            Some(Liveness::Running) => (Ok(running_status(pid)), held),
            Some(Liveness::Unknown(e)) => (Err(SupervisorError::IoFailure(e)), held),
            _ => (Ok(stopped_status()), None),
        },
    }
}

/// The supervisor's slot: the pid of the held server process, if any. The
/// process handle itself lives beside it, with whoever runs the process.
pub struct McpState {
    pid: Option<u32>,
}

impl View for McpState {
    type V = Option<u32>;

    closed spec fn view(&self) -> Option<u32> {
        self.pid
    }
}

impl Default for McpState {
    /// An empty slot.
    fn default() -> (r: Self)
        ensures
            r@ is None,
    {
        McpState { pid: None }
    }
}

impl McpState {
    /// An empty slot.
    pub fn new() -> (r: Self)
        ensures
            r@ is None,
    {
        McpState { pid: None }
    }

    /// The pid of the held process, if any.
    pub fn held(&self) -> (r: Option<u32>)
        ensures
            r == self@,
    {
        self.pid
    }

    /// The first step of `start`, given the poll of the held process.
    pub fn start_step(&mut self, poll: Option<Liveness>) -> (r: StartStep)
        ensures
            (r, final(self)@) == start_outcome(old(self)@, poll),
    {
        match self.pid {
            None => StartStep::Launch,
            Some(pid) => match poll {
                Some(Liveness::Running) => StartStep::Ready(McpStatus { running: true, pid: Some(pid) }),
                Some(Liveness::Unknown(e)) => StartStep::Failed(SupervisorError::IoFailure(e)),
                _ => {
                    self.pid = None;
                    StartStep::Launch
                },
            },
        }
    }

    /// Records the process that `start` launched.
    pub fn launched(&mut self, pid: u32) -> (r: McpStatus)
        ensures
            final(self)@ == Some(pid),
            r == running_status(pid),
    {
        self.pid = Some(pid);
        McpStatus { running: true, pid: Some(pid) }
    }

    /// `stop`, given the outcome of the termination request; the caller has
    /// waited for the process to end when the request succeeded.
    pub fn stop_step(&mut self, kill: Option<Result<(), String>>) -> (r: Result<McpStatus, SupervisorError>)
        ensures
            (r, final(self)@) == stop_outcome(old(self)@, kill),
    {
        match self.pid {
            None => Ok(McpStatus { running: false, pid: None }),
            Some(_) => match kill {
                Some(Err(e)) => Err(SupervisorError::IoFailure(e)),
                _ => {
                    self.pid = None;
                    Ok(McpStatus { running: false, pid: None })
                },
            },
        }
    }

    /// `status`, given the poll of the held process.
    pub fn status_step(&mut self, poll: Option<Liveness>) -> (r: Result<McpStatus, SupervisorError>)
        ensures
            (r, final(self)@) == status_outcome(old(self)@, poll),
    {
        match self.pid {
            None => Ok(McpStatus { running: false, pid: None }),
            Some(pid) => match poll {
                Some(Liveness::Running) => Ok(McpStatus { running: true, pid: Some(pid) }),
                Some(Liveness::Unknown(e)) => Err(SupervisorError::IoFailure(e)),
                _ => {
                    self.pid = None;
                    Ok(McpStatus { running: false, pid: None })
                },
            },
        }
    }
}

/// While the server lives, starting it again starts nothing and reports the
/// same pid, and so does a status poll: whether the first start found it
/// running or launched it.
pub proof fn lemma_start_idempotent(held: Option<u32>, poll: Option<Liveness>, pid: u32)
    ensures
        start_outcome(Some(pid), Some(Liveness::Running)) == (StartStep::Ready(running_status(pid)), Some(pid)),
        status_outcome(Some(pid), Some(Liveness::Running)) == (Ok::<McpStatus, SupervisorError>(running_status(pid)), Some(pid)),
        start_outcome(held, poll).0 is Ready ==> start_outcome(start_outcome(held, poll).1, Some(Liveness::Running))
            == start_outcome(held, poll),
{
}

/// Stopping when nothing was started reports a stopped server and no error.
pub proof fn lemma_stop_when_idle(kill: Option<Result<(), String>>)
    ensures
        stop_outcome(None, kill) == (Ok::<McpStatus, SupervisorError>(stopped_status()), None::<u32>),
{
}

/// Where the server's executable may be, and how it runs.
#[derive(Debug, Clone, PartialEq, Eq)]
pub enum McpServerPath {
    /// A native executable, run directly.
    Binary(String),
    /// A script, run through the `node` interpreter.
    JavaScript(String),
}

/// The kind and text of a server path.
pub open spec fn server_view(p: McpServerPath) -> (bool, Seq<char>) {
    match p {
        McpServerPath::Binary(s) => (true, s@),
        McpServerPath::JavaScript(s) => (false, s@),
    }
}

/// A place the server may be, and whether something exists there.
#[derive(Debug, Clone)]
pub struct ServerCandidate {
    pub path: McpServerPath,
    pub exists: bool,
}

/// Candidate `i` is the first one that exists.
pub open spec fn first_existing(c: Seq<ServerCandidate>, i: int) -> bool {
    &&& 0 <= i < c.len()
    &&& c[i].exists
    &&& forall|j: int| 0 <= j < i ==> !(#[trigger] c[j]).exists
}

/// The first candidate that exists, in the order given.
pub fn resolve_server(candidates: &Vec<ServerCandidate>) -> (r: Result<McpServerPath, SupervisorError>)
    ensures
        r is Ok <==> exists|i: int| 0 <= i < candidates@.len() && (#[trigger] candidates@[i]).exists,
        r matches Ok(p) ==> exists|i: int| first_existing(candidates@, i)
            && server_view(p) == server_view(#[trigger] candidates@[i].path),
        r matches Err(e) ==> e is ResourceUnavailable,
{
    let mut looked = String::from_str("MCP server not found. Looked for: ");
    let mut i: usize = 0;
    while i < candidates.len()
        invariant
            i <= candidates@.len(),
            forall|j: int| 0 <= j < i ==> !(#[trigger] candidates@[j]).exists,
        decreases candidates@.len() - i,
    {
        if candidates[i].exists {
            let p = match &candidates[i].path {
                McpServerPath::Binary(s) => McpServerPath::Binary(s.clone()),
                McpServerPath::JavaScript(s) => McpServerPath::JavaScript(s.clone()),
            };
            assert(first_existing(candidates@, i as int));
            return Ok(p);
        }
        if i > 0 {
            looked.append(", ");
        }
        match &candidates[i].path {
            McpServerPath::Binary(s) => looked.append(s.as_str()),
            McpServerPath::JavaScript(s) => looked.append(s.as_str()),
        }
        i = i + 1;
    }
    Err(SupervisorError::ResourceUnavailable(looked))
}

/// A program and its arguments.
pub struct LaunchCommand {
    pub program: String,
    pub args: Vec<String>,
}

/// How the server at `server` is started: a binary directly, a script
/// through `node`.
pub fn launch_command(server: &McpServerPath) -> (r: LaunchCommand)
    ensures
        match server {
            McpServerPath::Binary(p) => r.program@ == p@ && r.args@.len() == 0,
            McpServerPath::JavaScript(p) => r.program@ == "node"@ && r.args@.len() == 1 && r.args@[0]@ == p@,
        },
{
    match server {
        McpServerPath::Binary(p) => LaunchCommand { program: p.clone(), args: Vec::new() },
        McpServerPath::JavaScript(p) => {
            let mut args: Vec<String> = Vec::new();
            args.push(p.clone());
            LaunchCommand { program: String::from_str("node"), args }
        },
    }
}

/// The vendor and system part of a target triple, by operating system name.
pub open spec fn os_suffix(os: Seq<char>) -> Seq<char> {
    if os == "macos"@ {
        "apple-darwin"@
    } else if os == "windows"@ {
        "pc-windows-msvc"@
    } else if os == "linux"@ {
        "unknown-linux-gnu"@
    } else {
        os
    }
}

/// The target triple that bundled binaries are named with.
pub fn target_triple(arch: &str, os: &str) -> (r: String)
    ensures
        r@ == arch@ + seq!['-'] + os_suffix(os@),
{
    proof {
        reveal_strlit("-");
    }
    let o = os.to_string();
    let suffix = if o == String::from_str("macos") {
        String::from_str("apple-darwin")
    } else if o == String::from_str("windows") {
        String::from_str("pc-windows-msvc")
    } else if o == String::from_str("linux") {
        String::from_str("unknown-linux-gnu")
    } else {
        o
    };
    let mut r = arch.to_string();
    r.append("-");
    r.append(suffix.as_str());
    r
}

/// The places the server is looked for, in order: the development tree's
/// binary and script under `project_root` (if known), then the bundled
/// binary named with the target triple next to the application, then the
/// bundled binary without it. `exe_suffix` ends executable names (".exe" on
/// Windows, else empty).
pub fn server_candidates(project_root: Option<&str>, exe_dir: &str, triple: &str, exe_suffix: &str) -> (r: Vec<McpServerPath>)
    ensures
        ({
            let tail = seq![
                (true, joined(exe_dir@, "mcp-server-"@ + triple@ + exe_suffix@)),
                (true, joined(exe_dir@, "mcp-server"@ + exe_suffix@)),
            ];
            let want = match project_root {
                Some(root) => {
                    let dist = joined(joined(root@, "mcp-server"@), "dist"@);
                    seq![(true, joined(dist, "mcp-server"@)), (false, joined(dist, "index.js"@))] + tail
                },
                None => tail,
            };
            r@.map_values(|p: McpServerPath| server_view(p)) == want
        }),
{
    let mut r: Vec<McpServerPath> = Vec::new();
    if let Some(root) = project_root {
        let server_dir = join_path(root, "mcp-server");
        let dist = join_path(server_dir.as_str(), "dist");
        r.push(McpServerPath::Binary(join_path(dist.as_str(), "mcp-server")));
        r.push(McpServerPath::JavaScript(join_path(dist.as_str(), "index.js")));
    }
    let mut qualified = String::from_str("mcp-server-");
    qualified.append(triple);
    qualified.append(exe_suffix);
    r.push(McpServerPath::Binary(join_path(exe_dir, qualified.as_str())));
    let mut plain = String::from_str("mcp-server");
    plain.append(exe_suffix);
    r.push(McpServerPath::Binary(join_path(exe_dir, plain.as_str())));
    proof {
        let tail = seq![
            (true, joined(exe_dir@, "mcp-server-"@ + triple@ + exe_suffix@)),
            (true, joined(exe_dir@, "mcp-server"@ + exe_suffix@)),
        ];
        let want = match project_root {
            Some(root) => {
                let dist = joined(joined(root@, "mcp-server"@), "dist"@);
                seq![(true, joined(dist, "mcp-server"@)), (false, joined(dist, "index.js"@))] + tail
            },
            None => tail,
        };
        assert(r@.map_values(|p: McpServerPath| server_view(p)) =~= want);
    }
    r
}

} // verus!
