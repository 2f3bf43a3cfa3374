//! Commands that the supervisor asks its caller to run.

use crate::text::rows;
use vstd::prelude::*;
use vstd::slice::slice_to_vec;

verus! {

/// What becomes of one of a child process's output streams.
#[derive(Clone, Copy, Debug, PartialEq, Eq, Structural)]
pub enum StreamMode {
    /// Shared with the supervisor's own stream.
    Inherit,
    /// Thrown away.
    Discard,
    /// Captured for the supervisor to read.
    Capture,
}

/// One environment variable set for a child process.
#[derive(Clone, Debug, PartialEq, Eq)]
pub struct EnvVar {
    pub name: Vec<u8>,
    pub value: Vec<u8>,
}

/// A command line with everything needed to start it.
#[derive(Clone, Debug, PartialEq, Eq)]
pub struct Invocation {
    pub program: Vec<u8>,
    pub args: Vec<Vec<u8>>,
    pub env: Vec<EnvVar>,
    pub working_dir: Option<Vec<u8>>,
    /// Start the process without a console window of its own.
    pub hide_console: bool,
    /// Start the process as the leader of a new process group, so that it
    /// and everything it spawns can be signalled together.
    pub own_process_group: bool,
    pub stdout: StreamMode,
    pub stderr: StreamMode,
}

/// The mathematical value of an [`Invocation`].
pub struct InvocationView {
    pub program: Seq<u8>,
    pub args: Seq<Seq<u8>>,
    pub env: Seq<(Seq<u8>, Seq<u8>)>,
    pub working_dir: Option<Seq<u8>>,
    pub hide_console: bool,
    pub own_process_group: bool,
    pub stdout: StreamMode,
    pub stderr: StreamMode,
}

/// The names and values of a list of environment variables.
pub open spec fn env_views(env: Seq<EnvVar>) -> Seq<(Seq<u8>, Seq<u8>)> {
    Seq::new(env.len(), |i: int| (env[i].name@, env[i].value@))
}

/// The bytes of an optional byte string.
pub open spec fn optional_bytes(v: Option<Vec<u8>>) -> Option<Seq<u8>> {
    match v {
        Some(b) => Some(b@),
        None => None,
    }
}

impl View for Invocation {
    type V = InvocationView;

    open spec fn view(&self) -> InvocationView {
        InvocationView {
            program: self.program@,
            args: rows(self.args@),
            env: env_views(self.env@),
            working_dir: optional_bytes(self.working_dir),
            hide_console: self.hide_console,
            own_process_group: self.own_process_group,
            stdout: self.stdout,
            stderr: self.stderr,
        }
    }
}

/// The values of a list of invocations, in order.
pub open spec fn invocation_views(list: Seq<Invocation>) -> Seq<InvocationView> {
    Seq::new(list.len(), |i: int| list[i]@)
}

/// A command with no arguments, no environment of its own, the caller's
/// working directory and process group, a visible console and inherited
/// streams.
pub open spec fn plain_command(program: Seq<u8>) -> InvocationView {
    InvocationView {
        program,
        args: Seq::empty(),
        env: Seq::empty(),
        working_dir: None,
        hide_console: false,
        own_process_group: false,
        stdout: StreamMode::Inherit,
        stderr: StreamMode::Inherit,
    }
}

impl InvocationView {
    /// The same command with one more argument.
    pub open spec fn with_arg(self, arg: Seq<u8>) -> InvocationView {
        InvocationView { args: self.args.push(arg), ..self }
    }

    /// The same command with one more environment variable.
    pub open spec fn with_env(self, name: Seq<u8>, value: Seq<u8>) -> InvocationView {
        InvocationView { env: self.env.push((name, value)), ..self }
    }

    /// The same command started in `dir`.
    pub open spec fn in_dir(self, dir: Seq<u8>) -> InvocationView {
        InvocationView { working_dir: Some(dir), ..self }
    }

    /// The same command with its console hidden or shown.
    pub open spec fn with_console_hidden(self, hidden: bool) -> InvocationView {
        InvocationView { hide_console: hidden, ..self }
    }

    /// The same command started as the leader of a new process group, or
    /// in the caller's group.
    pub open spec fn with_own_group(self, leader: bool) -> InvocationView {
        InvocationView { own_process_group: leader, ..self }
    }

    /// The same command with both output streams handled as given.
    pub open spec fn with_output(self, stdout: StreamMode, stderr: StreamMode) -> InvocationView {
        InvocationView { stdout, stderr, ..self }
    }
}

impl Invocation {
    /// A command with no arguments yet.
    pub fn new(program: &[u8]) -> (r: Invocation)
        ensures
            r@ == plain_command(program@),
    {
        let r = Invocation {
            program: slice_to_vec(program),
            args: Vec::new(),
            env: Vec::new(),
            working_dir: None,
            hide_console: false,
            own_process_group: false,
            stdout: StreamMode::Inherit,
            stderr: StreamMode::Inherit,
        };
        proof {
            assert(rows(r.args@) =~= Seq::<Seq<u8>>::empty());
            assert(env_views(r.env@) =~= Seq::<(Seq<u8>, Seq<u8>)>::empty());
        }
        r
    }

    /// Adds one argument at the end.
    pub fn arg(&mut self, arg: &[u8])
        ensures
            final(self)@ == old(self)@.with_arg(arg@),
    {
        self.args.push(slice_to_vec(arg));
        proof {
            assert(rows(self.args@) =~= rows(old(self).args@).push(arg@));
        }
    }

    /// Adds one environment variable at the end.
    pub fn env(&mut self, name: &[u8], value: &[u8])
        ensures
            final(self)@ == old(self)@.with_env(name@, value@),
    {
        self.env.push(EnvVar { name: slice_to_vec(name), value: slice_to_vec(value) });
        proof {
            assert(env_views(self.env@) =~= env_views(old(self).env@).push((name@, value@)));
        }
    }

    /// Sets the directory the command starts in.
    pub fn current_dir(&mut self, dir: &[u8])
        ensures
            final(self)@ == old(self)@.in_dir(dir@),
    {
        self.working_dir = Some(slice_to_vec(dir));
    }

    /// Hides or shows the command's console window.
    pub fn console_hidden(&mut self, hidden: bool)
        ensures
            final(self)@ == old(self)@.with_console_hidden(hidden),
    {
        self.hide_console = hidden;
    }

    /// Says whether the command starts as the leader of a new process
    /// group.
    pub fn process_group_leader(&mut self, leader: bool)
        ensures
            final(self)@ == old(self)@.with_own_group(leader),
    {
        self.own_process_group = leader;
    }

    /// Says what becomes of the command's two output streams.
    pub fn output(&mut self, stdout: StreamMode, stderr: StreamMode)
        ensures
            final(self)@ == old(self)@.with_output(stdout, stderr),
    {
        self.stdout = stdout;
        self.stderr = stderr;
    }
}

} // verus!
