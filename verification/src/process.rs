//! Spawning programs: building a command, preparing the values that
//! `spawn_realm` takes, and following a spawned program to its exit.
use vstd::prelude::*;
use crate::command_env::{CommandEnv, spec_capture};
use crate::env::{EQUALS, has_equals, lemma_env_entry_roundtrip, pair_views, parse_env};
use crate::error::{Error, ErrorKind};
use crate::fd::FileDesc;
use crate::fs::{File, OpenOptions};
use crate::paths::views;
use crate::util::{c_string_of, copy_bytes, has_nul, to_c_string};

verus! {

/// The signal `kill` sends.
pub const SIGKILL: i32 = 9;

/// A realm identifier.
pub type RealmID = u64;

/// What a standard stream of a spawned program is connected to.
#[derive(Debug)]
pub enum Stdio {
    Inherit,
    Null,
    MakePipe,
    ParentStdout,
    ParentStderr,
    Pipe(FileDesc),
    InheritFile(File),
}

/// How a standard stream of a spawned program is to be set up.
#[derive(Debug)]
pub enum StdioPlan {
    /// The program inherits the parent's stream (handle 0 in the request).
    Inherit,
    /// Open `/dev/null` for reading and writing and hand that over.
    OpenNull,
    /// Create a pipe and share it as `share_pipe` says.
    MakePipe,
    /// Hand over this handle, which the parent keeps until the spawn.
    Existing(FileDesc),
    /// Hand over the parent's standard output.
    ParentStdout,
    /// Hand over the parent's standard error.
    ParentStderr,
}

/// How a pipe made for a standard stream of a spawned program is shared,
/// from its ends as `pipe` gives them (read end, write end): the program is
/// handed the second end, which the parent keeps open until the spawn, and
/// the parent keeps the first; the same for every stream.
pub fn share_pipe(ends: (FileDesc, FileDesc)) -> (r: (u64, FileDesc, FileDesc))
    ensures
        r.0 == ends.1.spec_handle(),
        r.1.spec_handle() == ends.0.spec_handle(),
        r.2.spec_handle() == ends.1.spec_handle(),
{
    let (ours, theirs) = ends;
    let handle = theirs.as_raw_handle();
    (handle, ours, theirs)
}

/// How a stream slot of a command is set up: an unset slot and `Inherit`
/// inherit, `Null` opens the null device, `MakePipe` creates a pipe, a pipe
/// end or a file is handed over as it is, and the parent's standard output
/// and error are handed over as such.
pub fn resolve_stdio(slot: Option<Stdio>) -> (r: StdioPlan)
    ensures
        (slot is None || slot matches Some(Stdio::Inherit)) ==> r is Inherit,
        slot matches Some(Stdio::Null) ==> r is OpenNull,
        slot matches Some(Stdio::MakePipe) ==> r is MakePipe,
        slot matches Some(Stdio::ParentStdout) ==> r is ParentStdout,
        slot matches Some(Stdio::ParentStderr) ==> r is ParentStderr,
        slot matches Some(Stdio::Pipe(p)) ==> (r matches StdioPlan::Existing(fd)
            && fd.spec_handle() == p.spec_handle()),
        slot matches Some(Stdio::InheritFile(f)) ==> (r matches StdioPlan::Existing(fd)
            && fd.spec_handle() == f.spec_handle()),
{
    match slot {
        None => StdioPlan::Inherit,
        Some(Stdio::Inherit) => StdioPlan::Inherit,
        Some(Stdio::Null) => StdioPlan::OpenNull,
        Some(Stdio::MakePipe) => StdioPlan::MakePipe,
        Some(Stdio::Pipe(p)) => StdioPlan::Existing(p),
        Some(Stdio::ParentStdout) => StdioPlan::ParentStdout,
        Some(Stdio::ParentStderr) => StdioPlan::ParentStderr,
        Some(Stdio::InheritFile(f)) => StdioPlan::Existing(FileDesc::from_raw_handle(f.as_raw_handle())),
    }
}

/// The options the null device is opened with for a stream: reading and
/// writing.
pub fn null_device_options() -> (o: OpenOptions)
    ensures
        o.read && o.write && !o.append && !o.truncate && !o.create && !o.create_new,
{
    let mut o = OpenOptions::new();
    o.read(true);
    o.write(true);
    o
}

/// Whether `e` is the error for a NUL byte in a program name, an argument,
/// an environment entry or a directory.
pub open spec fn is_nul_data_error(e: Error) -> bool {
    e.is_simple(ErrorKind::InvalidInput, "nul byte found in provided data"@)
}

fn nul_data_error() -> (e: Error)
    ensures
        is_nul_data_error(e),
{
    let message = "nul byte found in provided data";
    proof {
        reveal_strlit("nul byte found in provided data");
    }
    Error::Simple { kind: ErrorKind::InvalidInput, message }
}

/// The bytes of an environment entry `KEY=VALUE`.
pub open spec fn env_entry(kv: (Seq<u8>, Seq<u8>)) -> Seq<u8> {
    kv.0.push(EQUALS) + kv.1
}

/// Whether some argument holds a NUL byte.
pub open spec fn any_has_nul(s: Seq<Seq<u8>>) -> bool {
    exists|i: int| 0 <= i < s.len() && has_nul(#[trigger] s[i])
}

/// The environment entries of a capture, as C strings.
pub open spec fn envp_of(cap: Seq<(Seq<u8>, Seq<u8>)>) -> Seq<Seq<u8>> {
    cap.map_values(|kv: (Seq<u8>, Seq<u8>)| c_string_of(env_entry(kv)))
}

/// Whether some entry of a capture holds a NUL byte.
pub open spec fn capture_has_nul(cap: Seq<(Seq<u8>, Seq<u8>)>) -> bool {
    exists|i: int| 0 <= i < cap.len() && has_nul(#[trigger] env_entry(cap[i]))
}

/// The environment a spawned program is handed reads back as the captured
/// variables: parsing the entries `KEY=VALUE` (each read as the C string's
/// bytes before its NUL) gives the pairs back, when no key holds a `=`.
pub proof fn lemma_envp_parses_back(cap: Seq<(Seq<u8>, Seq<u8>)>)
    requires
        forall|i: int| 0 <= i < cap.len() ==> !has_equals(#[trigger] cap[i].0),
    ensures
        parse_env(cap.map_values(|kv: (Seq<u8>, Seq<u8>)| env_entry(kv))) == cap,
    decreases cap.len(),
{
    let entries = cap.map_values(|kv: (Seq<u8>, Seq<u8>)| env_entry(kv));
    if cap.len() > 0 {
        let init = cap.drop_last();
        assert forall|i: int| 0 <= i < init.len() implies !has_equals(#[trigger] init[i].0) by {
            assert(init[i] == cap[i]);
        }
        lemma_envp_parses_back(init);
        assert(entries.drop_last() =~= init.map_values(|kv: (Seq<u8>, Seq<u8>)| env_entry(kv)));
        let last = cap.last();
        assert(!has_equals(cap[cap.len() - 1].0));
        lemma_env_entry_roundtrip(last.0, last.1);
        assert(entries.last() == env_entry(last));
        assert(parse_env(entries) =~= init.push(last));
        assert(init.push(last) =~= cap);
    } else {
        assert(entries.len() == 0);
        assert(parse_env(entries) =~= cap);
    }
}

/// What `spawn_realm` is handed, apart from the streams' handles and the
/// working directory (the streams are set up one after the other from the
/// slots taken out of the command, and the working directory after them).
#[derive(Debug)]
pub struct SpawnRequest {
    /// The program, as a C string.
    pub program: Vec<u8>,
    /// The arguments (the program name first), as C strings.
    pub argv: Vec<Vec<u8>>,
    /// The environment entries, as C strings, or `None` to inherit the
    /// parent's environment unchanged.
    pub envp: Option<Vec<Vec<u8>>>,
    pub uid: u32,
    pub gid: u32,
}

/// A program to be spawned.
pub struct Command {
    program: Vec<u8>,
    args: Vec<Vec<u8>>,
    env: CommandEnv,
    cwd: Option<Vec<u8>>,
    uid: Option<u32>,
    gid: Option<u32>,
    stdin: Option<Stdio>,
    stdout: Option<Stdio>,
    stderr: Option<Stdio>,
}

/// The arguments of a command after the program name.
pub struct CommandArgs {
    args: Vec<Vec<u8>>,
    pos: usize,
}

impl CommandArgs {
    pub closed spec fn wf(&self) -> bool {
        self.pos <= self.args@.len()
    }

    /// The arguments not yet handed out.
    pub closed spec fn remaining(&self) -> Seq<Seq<u8>> {
        views(self.args@).skip(self.pos as int)
    }

    /// The next argument.
    pub fn next(&mut self) -> (r: Option<Vec<u8>>)
        requires
            old(self).wf(),
        ensures
            final(self).wf(),
            old(self).remaining().len() == 0 ==> r is None && final(self).remaining()
                == old(self).remaining(),
            old(self).remaining().len() > 0 ==> (r matches Some(a) && a@ == old(self).remaining()[0]) && final(self).remaining() == old(self).remaining().skip(1),
    {
        if self.pos >= self.args.len() {
            return None;
        }
        let a = copy_bytes(self.args[self.pos].as_slice());
        proof {
            assert(views(self.args@)[self.pos as int] == self.args@[self.pos as int]@);
        }
        self.pos = self.pos + 1;
        proof {
            assert(self.remaining() =~= old(self).remaining().skip(1));
        }
        Some(a)
    }

    /// How many arguments are still to come.
    pub fn len(&self) -> (n: usize)
        requires
            self.wf(),
        ensures
            n == self.remaining().len(),
    {
        self.args.len() - self.pos
    }

    /// The arguments still to come, in order (what the `Debug` output of
    /// the arguments lists).
    pub fn to_vec(&self) -> (r: Vec<Vec<u8>>)
        requires
            self.wf(),
        ensures
            views(r@) == self.remaining(),
    {
        let mut r: Vec<Vec<u8>> = Vec::new();
        let mut i: usize = self.pos;
        while i < self.args.len()
            invariant
                self.wf(),
                self.pos <= i <= self.args@.len(),
                views(r@) == views(self.args@).subrange(self.pos as int, i as int),
            decreases self.args@.len() - i,
        {
            let v = copy_bytes(self.args[i].as_slice());
            let ghost before = r@;
            r.push(v);
            proof {
                assert(views(self.args@)[i as int] == self.args@[i as int]@);
                assert(views(r@) =~= views(before).push(v@));
                assert(views(r@) =~= views(self.args@).subrange(self.pos as int, i + 1));
            }
            i = i + 1;
        }
        proof {
            assert(self.remaining() =~= views(self.args@).subrange(
                self.pos as int,
                self.args@.len() as int,
            ));
        }
        r
    }

    /// Whether no argument is left.
    pub fn is_empty(&self) -> (r: bool)
        requires
            self.wf(),
        ensures
            r == (self.remaining().len() == 0),
    {
        self.pos >= self.args.len()
    }
}

impl Command {
    /// The program.
    pub closed spec fn spec_program(&self) -> Seq<u8> {
        self.program@
    }

    /// The arguments, the program name first.
    pub closed spec fn spec_args(&self) -> Seq<Seq<u8>> {
        views(self.args@)
    }

    /// The environment changes.
    pub closed spec fn spec_env(&self) -> CommandEnv {
        self.env
    }

    /// The working directory, when one is set.
    pub closed spec fn spec_cwd(&self) -> Option<Seq<u8>> {
        match self.cwd {
            Some(c) => Some(c@),
            None => None,
        }
    }

    /// The user id, when one is set.
    pub closed spec fn spec_uid(&self) -> Option<u32> {
        self.uid
    }

    /// The group id, when one is set.
    pub closed spec fn spec_gid(&self) -> Option<u32> {
        self.gid
    }

    /// The standard input slot.
    pub closed spec fn spec_stdin(&self) -> Option<Stdio> {
        self.stdin
    }

    /// The standard output slot.
    pub closed spec fn spec_stdout(&self) -> Option<Stdio> {
        self.stdout
    }

    /// The standard error slot.
    pub closed spec fn spec_stderr(&self) -> Option<Stdio> {
        self.stderr
    }

    /// Whether the command is well formed: there is a program-name
    /// argument and the environment changes are sorted.
    pub open spec fn wf(&self) -> bool {
        &&& self.spec_args().len() >= 1
        &&& self.spec_env().wf()
    }

    /// A command running `program` with no further arguments, the program
    /// name as its first argument, no environment changes and nothing else
    /// set.
    pub fn new(program: &[u8]) -> (c: Command)
        ensures
            c.wf(),
            c.spec_program() == program@,
            c.spec_args() == seq![program@],
            !c.spec_env().spec_clear(),
            c.spec_env().spec_vars().len() == 0,
            c.spec_cwd() is None,
            c.spec_uid() is None,
            c.spec_gid() is None,
            c.spec_stdin() is None,
            c.spec_stdout() is None,
            c.spec_stderr() is None,
    {
        let mut args: Vec<Vec<u8>> = Vec::new();
        args.push(copy_bytes(program));
        let c = Command {
            program: copy_bytes(program),
            args,
            env: CommandEnv::new(),
            cwd: None,
            uid: None,
            gid: None,
            stdin: None,
            stdout: None,
            stderr: None,
        };
        proof {
            assert(c.spec_args() =~= seq![program@]);
        }
        c
    }

    /// Appends an argument.
    pub fn arg(&mut self, arg: &[u8])
        requires
            old(self).wf(),
        ensures
            final(self).wf(),
            final(self).spec_args() == old(self).spec_args().push(arg@),
            final(self).spec_program() == old(self).spec_program(),
            final(self).spec_env() == old(self).spec_env(),
            final(self).spec_cwd() == old(self).spec_cwd(),
            final(self).spec_uid() == old(self).spec_uid(),
            final(self).spec_gid() == old(self).spec_gid(),
            final(self).spec_stdin() == old(self).spec_stdin(),
            final(self).spec_stdout() == old(self).spec_stdout(),
            final(self).spec_stderr() == old(self).spec_stderr(),
    {
        let ghost before = self.args@;
        self.args.push(copy_bytes(arg));
        proof {
            assert(views(self.args@) =~= views(before).push(arg@));
        }
    }

    /// The environment changes, to be modified.
    pub fn env_mut(&mut self) -> (r: &mut CommandEnv)
        ensures
            *r == old(self).spec_env(),
            final(self).spec_env() == *final(r),
            final(self).spec_program() == old(self).spec_program(),
            final(self).spec_args() == old(self).spec_args(),
            final(self).spec_cwd() == old(self).spec_cwd(),
            final(self).spec_uid() == old(self).spec_uid(),
            final(self).spec_gid() == old(self).spec_gid(),
            final(self).spec_stdin() == old(self).spec_stdin(),
            final(self).spec_stdout() == old(self).spec_stdout(),
            final(self).spec_stderr() == old(self).spec_stderr(),
    {
        &mut self.env
    }

    /// Sets the working directory of the program.
    pub fn cwd(&mut self, dir: &[u8])
        ensures
            final(self).spec_cwd() == Some(dir@),
            final(self).spec_program() == old(self).spec_program(),
            final(self).spec_args() == old(self).spec_args(),
            final(self).spec_env() == old(self).spec_env(),
            final(self).spec_uid() == old(self).spec_uid(),
            final(self).spec_gid() == old(self).spec_gid(),
            final(self).spec_stdin() == old(self).spec_stdin(),
            final(self).spec_stdout() == old(self).spec_stdout(),
            final(self).spec_stderr() == old(self).spec_stderr(),
    {
        self.cwd = Some(copy_bytes(dir));
    }

    /// Sets the user id of the program.
    pub fn uid(&mut self, uid: u32)
        ensures
            final(self).spec_uid() == Some(uid),
            final(self).spec_program() == old(self).spec_program(),
            final(self).spec_args() == old(self).spec_args(),
            final(self).spec_env() == old(self).spec_env(),
            final(self).spec_cwd() == old(self).spec_cwd(),
            final(self).spec_gid() == old(self).spec_gid(),
            final(self).spec_stdin() == old(self).spec_stdin(),
            final(self).spec_stdout() == old(self).spec_stdout(),
            final(self).spec_stderr() == old(self).spec_stderr(),
    {
        self.uid = Some(uid);
    }

    /// Sets the group id of the program.
    pub fn gid(&mut self, gid: u32)
        ensures
            final(self).spec_gid() == Some(gid),
            final(self).spec_program() == old(self).spec_program(),
            final(self).spec_args() == old(self).spec_args(),
            final(self).spec_env() == old(self).spec_env(),
            final(self).spec_cwd() == old(self).spec_cwd(),
            final(self).spec_uid() == old(self).spec_uid(),
            final(self).spec_stdin() == old(self).spec_stdin(),
            final(self).spec_stdout() == old(self).spec_stdout(),
            final(self).spec_stderr() == old(self).spec_stderr(),
    {
        self.gid = Some(gid);
    }

    /// Sets what the program's standard input is connected to.
    pub fn stdin(&mut self, stdin: Stdio)
        ensures
            final(self).spec_stdin() == Some(stdin),
            final(self).spec_program() == old(self).spec_program(),
            final(self).spec_args() == old(self).spec_args(),
            final(self).spec_env() == old(self).spec_env(),
            final(self).spec_cwd() == old(self).spec_cwd(),
            final(self).spec_uid() == old(self).spec_uid(),
            final(self).spec_gid() == old(self).spec_gid(),
            final(self).spec_stdout() == old(self).spec_stdout(),
            final(self).spec_stderr() == old(self).spec_stderr(),
    {
        self.stdin = Some(stdin);
    }

    /// Sets what the program's standard output is connected to.
    pub fn stdout(&mut self, stdout: Stdio)
        ensures
            final(self).spec_stdout() == Some(stdout),
            final(self).spec_program() == old(self).spec_program(),
            final(self).spec_args() == old(self).spec_args(),
            final(self).spec_env() == old(self).spec_env(),
            final(self).spec_cwd() == old(self).spec_cwd(),
            final(self).spec_uid() == old(self).spec_uid(),
            final(self).spec_gid() == old(self).spec_gid(),
            final(self).spec_stdin() == old(self).spec_stdin(),
            final(self).spec_stderr() == old(self).spec_stderr(),
    {
        self.stdout = Some(stdout);
    }

    /// Sets what the program's standard error is connected to.
    pub fn stderr(&mut self, stderr: Stdio)
        ensures
            final(self).spec_stderr() == Some(stderr),
            final(self).spec_program() == old(self).spec_program(),
            final(self).spec_args() == old(self).spec_args(),
            final(self).spec_env() == old(self).spec_env(),
            final(self).spec_cwd() == old(self).spec_cwd(),
            final(self).spec_uid() == old(self).spec_uid(),
            final(self).spec_gid() == old(self).spec_gid(),
            final(self).spec_stdin() == old(self).spec_stdin(),
            final(self).spec_stdout() == old(self).spec_stdout(),
    {
        self.stderr = Some(stderr);
    }

    /// The program.
    pub fn get_program(&self) -> (p: &Vec<u8>)
        ensures
            p@ == self.spec_program(),
    {
        &self.program
    }

    /// The arguments after the program name.
    pub fn get_args(&self) -> (r: CommandArgs)
        requires
            self.wf(),
        ensures
            r.wf(),
            r.remaining() == self.spec_args().skip(1),
    {
        let mut args: Vec<Vec<u8>> = Vec::new();
        let mut i: usize = 0;
        while i < self.args.len()
            invariant
                i <= self.args@.len(),
                views(args@) =~= self.spec_args().take(i as int),
            decreases self.args.len() - i,
        {
            let ghost before = args@;
            args.push(copy_bytes(self.args[i].as_slice()));
            proof {
                assert(views(args@) =~= views(before).push(self.args@[i as int]@));
                assert(self.spec_args()[i as int] == self.args@[i as int]@);
            }
            i = i + 1;
        }
        let r = CommandArgs { args, pos: 1 };
        proof {
            assert(self.spec_args().take(self.args@.len() as int) =~= self.spec_args());
        }
        r
    }

    /// The standard input slot.
    pub fn get_stdin(&self) -> (r: &Option<Stdio>)
        ensures
            *r == self.spec_stdin(),
    {
        &self.stdin
    }

    /// The standard output slot.
    pub fn get_stdout(&self) -> (r: &Option<Stdio>)
        ensures
            *r == self.spec_stdout(),
    {
        &self.stdout
    }

    /// The standard error slot.
    pub fn get_stderr(&self) -> (r: &Option<Stdio>)
        ensures
            *r == self.spec_stderr(),
    {
        &self.stderr
    }

    /// The environment changes, sorted by key.
    pub fn get_envs(&self) -> (r: Vec<(Vec<u8>, Option<Vec<u8>>)>)
        ensures
            r@.map_values(|e: (Vec<u8>, Option<Vec<u8>>)| crate::keys::entry_view(e))
                == self.spec_env().spec_vars(),
    {
        self.env.iter()
    }

    /// Whether the inherited environment is cleared.
    pub fn get_env_clear(&self) -> (r: bool)
        ensures
            r == self.spec_env().spec_clear(),
    {
        self.env.does_clear()
    }

    /// The environment the program would get, given the parent's
    /// environment `base`.
    pub fn get_resolved_envs(&self, base: &Vec<(Vec<u8>, Vec<u8>)>) -> (r: Vec<(Vec<u8>, Vec<u8>)>)
        requires
            self.wf(),
        ensures
            pair_views(r@) == spec_capture(
                self.spec_env().spec_clear(),
                self.spec_env().spec_vars(),
                pair_views(base@),
            ),
    {
        self.env.capture(base)
    }

    /// The working directory, when one is set.
    pub fn get_current_dir(&self) -> (r: Option<Vec<u8>>)
        ensures
            match r {
                Some(d) => self.spec_cwd() == Some(d@),
                None => self.spec_cwd() is None,
            },
    {
        match &self.cwd {
            Some(c) => Some(copy_bytes(c.as_slice())),
            None => None,
        }
    }

    /// Whether the program name or an argument holds a NUL byte.
    pub fn saw_nul(&self) -> (r: bool)
        ensures
            r == (has_nul(self.spec_program()) || any_has_nul(self.spec_args())),
    {
        if to_c_string(self.program.as_slice()).is_none() {
            return true;
        }
        let mut i: usize = 0;
        while i < self.args.len()
            invariant
                i <= self.args@.len(),
                forall|j: int| 0 <= j < i ==> !has_nul(#[trigger] self.spec_args()[j]),
                !has_nul(self.spec_program()),
            decreases self.args.len() - i,
        {
            proof {
                assert(self.spec_args()[i as int] == self.args@[i as int]@);
            }
            if to_c_string(self.args[i].as_slice()).is_none() {
                return true;
            }
            i = i + 1;
        }
        false
    }

    /// The program and the arguments as C strings; fails with
    /// `InvalidInput` when one holds a NUL byte.
    pub fn cstring_args(&self) -> (r: Result<(Vec<u8>, Vec<Vec<u8>>), Error>)
        ensures
            (has_nul(self.spec_program()) || any_has_nul(self.spec_args())) ==> (r matches Err(e)
                && is_nul_data_error(e)),
            !(has_nul(self.spec_program()) || any_has_nul(self.spec_args())) ==> (r matches Ok(pa)
                && pa.0@ == c_string_of(self.spec_program()) && views(pa.1@) == self.spec_args().map_values(
                |a: Seq<u8>| c_string_of(a),
            )),
    {
        let program = match to_c_string(self.program.as_slice()) {
            Some(p) => p,
            None => return Err(nul_data_error()),
        };
        let mut args: Vec<Vec<u8>> = Vec::new();
        let mut i: usize = 0;
        while i < self.args.len()
            invariant
                i <= self.args@.len(),
                forall|j: int| 0 <= j < i ==> !has_nul(#[trigger] self.spec_args()[j]),
                views(args@) =~= self.spec_args().take(i as int).map_values(
                    |a: Seq<u8>| c_string_of(a),
                ),
            decreases self.args.len() - i,
        {
            proof {
                assert(self.spec_args()[i as int] == self.args@[i as int]@);
            }
            let a = match to_c_string(self.args[i].as_slice()) {
                Some(a) => a,
                None => return Err(nul_data_error()),
            };
            let ghost before = args@;
            args.push(a);
            proof {
                assert(views(args@) =~= views(before).push(a@));
                assert(self.spec_args().take(i as int + 1) =~= self.spec_args().take(i as int).push(
                    self.spec_args()[i as int],
                ));
            }
            i = i + 1;
        }
        proof {
            assert(self.spec_args().take(self.args@.len() as int) =~= self.spec_args());
        }
        Ok((program, args))
    }

    /// The environment entries `KEY=VALUE` of the program as C strings, in
    /// key order, given the parent's environment `base`; `None` when there
    /// are no changes (the program inherits the environment as it is).
    /// Fails with `InvalidInput` when an entry holds a NUL byte.
    pub fn capture_envp(&self, base: &Vec<(Vec<u8>, Vec<u8>)>) -> (r: Result<
        Option<Vec<Vec<u8>>>,
        Error,
    >)
        requires
            self.wf(),
        ensures
            ({
                let cap = spec_capture(
                    self.spec_env().spec_clear(),
                    self.spec_env().spec_vars(),
                    pair_views(base@),
                );
                let unchanged = !self.spec_env().spec_clear() && self.spec_env().spec_vars().len() == 0;
                &&& unchanged ==> (r matches Ok(None))
                &&& !unchanged && capture_has_nul(cap) ==> (r matches Err(e) && is_nul_data_error(e))
                &&& !unchanged && !capture_has_nul(cap) ==> (r matches Ok(Some(list))
                    && views(list@) == envp_of(cap))
            }),
    {
        let env = self.env.capture(base);
        if self.env.is_unchanged() {
            return Ok(None);
        }
        let ghost cap = pair_views(env@);
        let mut result: Vec<Vec<u8>> = Vec::new();
        let mut i: usize = 0;
        while i < env.len()
            invariant
                i <= env@.len(),
                cap == pair_views(env@),
                cap == spec_capture(
                    self.spec_env().spec_clear(),
                    self.spec_env().spec_vars(),
                    pair_views(base@),
                ),
                self.spec_env().spec_clear() || self.spec_env().spec_vars().len() > 0,
                forall|j: int| 0 <= j < i ==> !has_nul(#[trigger] env_entry(cap[j])),
                views(result@) =~= envp_of(cap.take(i as int)),
            decreases env.len() - i,
        {
            let mut entry = copy_bytes(env[i].0.as_slice());
            entry.push(EQUALS);
            crate::util::append_bytes(&mut entry, env[i].1.as_slice());
            proof {
                assert(cap[i as int] == (env@[i as int].0@, env@[i as int].1@));
                assert(entry@ == env_entry(cap[i as int]));
            }
            let c = match to_c_string(entry.as_slice()) {
                Some(c) => c,
                None => {
                    proof {
                        assert(has_nul(env_entry(cap[i as int])));
                        assert(capture_has_nul(cap));
                    }
                    return Err(nul_data_error());
                },
            };
            let ghost before = result@;
            result.push(c);
            proof {
                assert(views(result@) =~= views(before).push(c@));
                assert(cap.take(i as int + 1) =~= cap.take(i as int).push(cap[i as int]));
            }
            i = i + 1;
        }
        proof {
            assert(cap.take(env@.len() as int) =~= cap);
        }
        Ok(Some(result))
    }

    /// Everything `spawn_realm` is handed except the streams' handles and
    /// the working directory: fails with `InvalidInput` when the program
    /// name, an argument or an environment entry holds a NUL byte; unset
    /// ids default to zero.
    pub fn prepare_spawn(&self, base: &Vec<(Vec<u8>, Vec<u8>)>) -> (r: Result<SpawnRequest, Error>)
        requires
            self.wf(),
        ensures
            ({
                let cap = spec_capture(
                    self.spec_env().spec_clear(),
                    self.spec_env().spec_vars(),
                    pair_views(base@),
                );
                let unchanged = !self.spec_env().spec_clear() && self.spec_env().spec_vars().len() == 0;
                let bad_args = has_nul(self.spec_program()) || any_has_nul(self.spec_args());
                &&& bad_args ==> (r matches Err(e) && is_nul_data_error(e))
                &&& !bad_args && !unchanged && capture_has_nul(cap) ==> (r matches Err(e)
                    && is_nul_data_error(e))
                &&& !bad_args && (unchanged || !capture_has_nul(cap)) ==> (r matches Ok(req)
                    && req.program@ == c_string_of(self.spec_program())
                    && views(req.argv@) == self.spec_args().map_values(|a: Seq<u8>| c_string_of(a))
                    && (unchanged ==> req.envp is None)
                    && (!unchanged ==> (req.envp matches Some(e) && views(e@) == envp_of(cap)))
                    && req.uid == (match self.spec_uid() { Some(u) => u, None => 0u32 })
                    && req.gid == (match self.spec_gid() { Some(g) => g, None => 0u32 }))
            }),
    {
        if self.saw_nul() {
            return Err(nul_data_error());
        }
        let (program, argv) = match self.cstring_args() {
            Ok(pa) => pa,
            Err(e) => return Err(e),
        };
        let envp = match self.capture_envp(base) {
            Ok(e) => e,
            Err(e) => return Err(e),
        };
        let uid = match self.uid {
            Some(u) => u,
            None => 0,
        };
        let gid = match self.gid {
            Some(g) => g,
            None => 0,
        };
        Ok(SpawnRequest { program, argv, envp, uid, gid })
    }

    /// Takes the standard input slot out of the command for a spawn.
    pub fn take_stdin(&mut self) -> (r: Option<Stdio>)
        ensures
            r == old(self).spec_stdin(),
            final(self).spec_stdin() is None,
            final(self).spec_program() == old(self).spec_program(),
            final(self).spec_args() == old(self).spec_args(),
            final(self).spec_env() == old(self).spec_env(),
            final(self).spec_cwd() == old(self).spec_cwd(),
            final(self).spec_uid() == old(self).spec_uid(),
            final(self).spec_gid() == old(self).spec_gid(),
            final(self).spec_stdout() == old(self).spec_stdout(),
            final(self).spec_stderr() == old(self).spec_stderr(),
    {
        self.stdin.take()
    }

    /// Takes the standard output slot out of the command for a spawn.
    pub fn take_stdout(&mut self) -> (r: Option<Stdio>)
        ensures
            r == old(self).spec_stdout(),
            final(self).spec_stdout() is None,
            final(self).spec_program() == old(self).spec_program(),
            final(self).spec_args() == old(self).spec_args(),
            final(self).spec_env() == old(self).spec_env(),
            final(self).spec_cwd() == old(self).spec_cwd(),
            final(self).spec_uid() == old(self).spec_uid(),
            final(self).spec_gid() == old(self).spec_gid(),
            final(self).spec_stdin() == old(self).spec_stdin(),
            final(self).spec_stderr() == old(self).spec_stderr(),
    {
        self.stdout.take()
    }

    /// Takes the standard error slot out of the command for a spawn.
    pub fn take_stderr(&mut self) -> (r: Option<Stdio>)
        ensures
            r == old(self).spec_stderr(),
            final(self).spec_stderr() is None,
            final(self).spec_program() == old(self).spec_program(),
            final(self).spec_args() == old(self).spec_args(),
            final(self).spec_env() == old(self).spec_env(),
            final(self).spec_cwd() == old(self).spec_cwd(),
            final(self).spec_uid() == old(self).spec_uid(),
            final(self).spec_gid() == old(self).spec_gid(),
            final(self).spec_stdin() == old(self).spec_stdin(),
            final(self).spec_stdout() == old(self).spec_stdout(),
    {
        self.stderr.take()
    }

    /// The working directory handed to `spawn_realm`, as a C string, or
    /// `None` when none is set; fails with `InvalidInput` when it holds a
    /// NUL byte.
    pub fn spawn_cwd(&self) -> (r: Result<Option<Vec<u8>>, Error>)
        ensures
            self.spec_cwd() is None ==> r matches Ok(None),
            self.spec_cwd() matches Some(d) ==> (has_nul(d) ==> (r matches Err(e)
                && is_nul_data_error(e))),
            self.spec_cwd() matches Some(d) ==> (!has_nul(d) ==> (r matches Ok(Some(c))
                && c@ == c_string_of(d))),
    {
        match &self.cwd {
            None => Ok(None),
            Some(d) => match to_c_string(d.as_slice()) {
                Some(c) => Ok(Some(c)),
                None => Err(nul_data_error()),
            },
        }
    }
}

/// A piece of the shell-like description of a command, as its `Debug`
/// output shows it.
#[derive(Debug)]
pub enum CommandDebugPart {
    /// `cd <dir> && `
    Cd(Vec<u8>),
    /// `env -i `
    EnvClear,
    /// `env `, before the removed variables
    EnvPrefix,
    /// `-u <key> `
    Unset(Vec<u8>),
    /// `<key>=<value> `
    Assign(Vec<u8>, Vec<u8>),
    /// `[<program>] `, when the program differs from the first argument
    Program(Vec<u8>),
    /// `<first argument>`
    FirstArg(Vec<u8>),
    /// ` <argument>`
    Arg(Vec<u8>),
}

/// The view of a piece: a tag for its kind and its byte strings.
pub open spec fn part_view(p: CommandDebugPart) -> (int, Seq<u8>, Seq<u8>) {
    match p {
        CommandDebugPart::Cd(d) => (0, d@, Seq::empty()),
        CommandDebugPart::EnvClear => (1, Seq::empty(), Seq::empty()),
        CommandDebugPart::EnvPrefix => (2, Seq::empty(), Seq::empty()),
        CommandDebugPart::Unset(k) => (3, k@, Seq::empty()),
        CommandDebugPart::Assign(k, v) => (4, k@, v@),
        CommandDebugPart::Program(p) => (5, p@, Seq::empty()),
        CommandDebugPart::FirstArg(a) => (6, a@, Seq::empty()),
        CommandDebugPart::Arg(a) => (7, a@, Seq::empty()),
    }
}

/// The views of a sequence of pieces.
pub open spec fn parts_view(v: Seq<CommandDebugPart>) -> Seq<(int, Seq<u8>, Seq<u8>)> {
    v.map_values(|p: CommandDebugPart| part_view(p))
}

/// The `-u <key>` pieces for the removed variables, in key order.
pub open spec fn unset_parts(vars: Seq<(Seq<u8>, Option<Seq<u8>>)>) -> Seq<(int, Seq<u8>, Seq<u8>)>
    decreases vars.len(),
{
    if vars.len() == 0 {
        Seq::empty()
    } else {
        let init = unset_parts(vars.drop_last());
        if vars.last().1 is None {
            init.push((3, vars.last().0, Seq::empty()))
        } else {
            init
        }
    }
}

/// The `<key>=<value>` pieces for the variables set, in key order.
pub open spec fn assign_parts(vars: Seq<(Seq<u8>, Option<Seq<u8>>)>) -> Seq<(int, Seq<u8>, Seq<u8>)>
    decreases vars.len(),
{
    if vars.len() == 0 {
        Seq::empty()
    } else {
        let init = assign_parts(vars.drop_last());
        match vars.last().1 {
            Some(v) => init.push((4, vars.last().0, v)),
            None => init,
        }
    }
}

/// The argument pieces: the first argument, then each further one.
pub open spec fn arg_parts(args: Seq<Seq<u8>>) -> Seq<(int, Seq<u8>, Seq<u8>)> {
    seq![(6, args[0], Seq::<u8>::empty())] + args.skip(1).map_values(
        |a: Seq<u8>| (7, a, Seq::<u8>::empty()),
    )
}

/// The shell-like description of a command: `cd <dir> && ` when a working
/// directory is set; `env -i ` when the environment is cleared, otherwise
/// `env ` and a `-u <key> ` for each removed variable when any is removed;
/// `<key>=<value> ` for each variable set; `[<program>] ` when the program
/// differs from the first argument; and the arguments.
pub open spec fn spec_debug_parts(
    cwd: Option<Seq<u8>>,
    clear: bool,
    vars: Seq<(Seq<u8>, Option<Seq<u8>>)>,
    program: Seq<u8>,
    args: Seq<Seq<u8>>,
) -> Seq<(int, Seq<u8>, Seq<u8>)> {
    let cd = match cwd {
        Some(d) => seq![(0, d, Seq::<u8>::empty())],
        None => Seq::empty(),
    };
    let env = if clear {
        seq![(1, Seq::<u8>::empty(), Seq::<u8>::empty())]
    } else if unset_parts(vars).len() > 0 {
        seq![(2, Seq::<u8>::empty(), Seq::<u8>::empty())] + unset_parts(vars)
    } else {
        Seq::empty()
    };
    let prog = if program != args[0] {
        seq![(5, program, Seq::<u8>::empty())]
    } else {
        Seq::empty()
    };
    cd + env + assign_parts(vars) + prog + arg_parts(args)
}

/// Which optional fields the detailed (`{:#?}`) description of a command
/// shows: the environment changes when there are any, and each of the
/// working directory and the three stream slots when it is set.
#[derive(Debug, Clone, Copy, PartialEq, Eq, Structural)]
pub struct DebugFields {
    pub env: bool,
    pub cwd: bool,
    pub stdin: bool,
    pub stdout: bool,
    pub stderr: bool,
}

fn equal_bytes(a: &[u8], b: &[u8]) -> (r: bool)
    ensures
        r == (a@ == b@),
{
    match crate::keys::order_keys(a, b) {
        crate::keys::KeyOrder::Equal => true,
        _ => false,
    }
}

impl Command {
    /// The pieces of the shell-like description of the command, in order.
    pub fn debug_parts(&self) -> (r: Vec<CommandDebugPart>)
        requires
            self.wf(),
        ensures
            parts_view(r@) == spec_debug_parts(
                self.spec_cwd(),
                self.spec_env().spec_clear(),
                self.spec_env().spec_vars(),
                self.spec_program(),
                self.spec_args(),
            ),
    {
        let ghost vars = self.spec_env().spec_vars();
        let mut out: Vec<CommandDebugPart> = Vec::new();
        match &self.cwd {
            Some(d) => {
                out.push(CommandDebugPart::Cd(copy_bytes(d.as_slice())));
            },
            None => {},
        }
        let ghost cd = parts_view(out@);
        proof {
            assert(cd =~= match self.spec_cwd() {
                Some(d) => seq![(0, d, Seq::<u8>::empty())],
                None => Seq::<(int, Seq<u8>, Seq<u8>)>::empty(),
            });
        }
        let envs = self.env.iter();
        let ghost ev = envs@.map_values(|e: (Vec<u8>, Option<Vec<u8>>)| crate::keys::entry_view(e));
        if self.env.does_clear() {
            out.push(CommandDebugPart::EnvClear);
            proof {
                assert(parts_view(out@) =~= cd + seq![(1, Seq::<u8>::empty(), Seq::<u8>::empty())]);
            }
        } else {
            let mut unsets: Vec<CommandDebugPart> = Vec::new();
            let mut i: usize = 0;
            while i < envs.len()
                invariant
                    i <= envs@.len(),
                    ev == envs@.map_values(|e: (Vec<u8>, Option<Vec<u8>>)| crate::keys::entry_view(e)),
                    parts_view(unsets@) == unset_parts(ev.take(i as int)),
                decreases envs.len() - i,
            {
                proof {
                    let t = ev.take(i as int + 1);
                    assert(t.drop_last() =~= ev.take(i as int));
                    assert(t.last() == crate::keys::entry_view(envs@[i as int]));
                }
                let ghost before = unsets@;
                match &envs[i].1 {
                    None => {
                        unsets.push(CommandDebugPart::Unset(copy_bytes(envs[i].0.as_slice())));
                        proof {
                            assert(parts_view(unsets@) =~= parts_view(before).push(
                                (3, envs@[i as int].0@, Seq::<u8>::empty()),
                            ));
                        }
                    },
                    Some(_) => {},
                }
                i = i + 1;
            }
            proof {
                assert(ev.take(envs@.len() as int) =~= ev);
            }
            if unsets.len() > 0 {
                let ghost before = parts_view(out@);
                out.push(CommandDebugPart::EnvPrefix);
                let ghost mid = parts_view(out@);
                proof {
                    assert(mid =~= before.push((2, Seq::<u8>::empty(), Seq::<u8>::empty())));
                }
                let ghost un = parts_view(unsets@);
                out.append(&mut unsets);
                proof {
                    assert(parts_view(out@) =~= mid + un);
                }
            }
        }
        let ghost env_done = parts_view(out@);
        let mut i: usize = 0;
        while i < envs.len()
            invariant
                i <= envs@.len(),
                ev == envs@.map_values(|e: (Vec<u8>, Option<Vec<u8>>)| crate::keys::entry_view(e)),
                parts_view(out@) =~= env_done + assign_parts(ev.take(i as int)),
            decreases envs.len() - i,
        {
            proof {
                let t = ev.take(i as int + 1);
                assert(t.drop_last() =~= ev.take(i as int));
                assert(t.last() == crate::keys::entry_view(envs@[i as int]));
            }
            let ghost before = out@;
            match &envs[i].1 {
                Some(v) => {
                    out.push(CommandDebugPart::Assign(copy_bytes(envs[i].0.as_slice()), copy_bytes(v.as_slice())));
                    proof {
                        assert(parts_view(out@) =~= parts_view(before).push(
                            (4, envs@[i as int].0@, v@),
                        ));
                    }
                },
                None => {},
            }
            i = i + 1;
        }
        proof {
            assert(ev.take(envs@.len() as int) =~= ev);
        }
        let ghost assigns_done = parts_view(out@);
        if !equal_bytes(self.program.as_slice(), self.args[0].as_slice()) {
            out.push(CommandDebugPart::Program(copy_bytes(self.program.as_slice())));
        }
        let ghost prog_done = parts_view(out@);
        proof {
            assert(self.spec_args()[0] == self.args@[0]@);
            assert(prog_done =~= assigns_done + if self.spec_program() != self.spec_args()[0] {
                seq![(5, self.spec_program(), Seq::<u8>::empty())]
            } else {
                Seq::<(int, Seq<u8>, Seq<u8>)>::empty()
            });
        }
        out.push(CommandDebugPart::FirstArg(copy_bytes(self.args[0].as_slice())));
        let ghost args = self.spec_args();
        let mut a: usize = 1;
        while a < self.args.len()
            invariant
                1 <= a <= self.args@.len(),
                args == self.spec_args(),
                args == views(self.args@),
                parts_view(out@) =~= prog_done + arg_parts(args.take(a as int)),
            decreases self.args.len() - a,
        {
            let ghost before = out@;
            out.push(CommandDebugPart::Arg(copy_bytes(self.args[a].as_slice())));
            proof {
                assert(args[a as int] == self.args@[a as int]@);
                assert(parts_view(out@) =~= parts_view(before).push((7, args[a as int], Seq::<u8>::empty())));
                assert(arg_parts(args.take(a as int + 1)) =~= arg_parts(args.take(a as int)).push(
                    (7, args[a as int], Seq::<u8>::empty()),
                ));
            }
            a = a + 1;
        }
        proof {
            assert(args.take(args.len() as int) =~= args);
        }
        out
    }

    /// Which optional fields the detailed description shows.
    pub fn debug_fields(&self) -> (r: DebugFields)
        ensures
            r.env == (self.spec_env().spec_clear() || self.spec_env().spec_vars().len() > 0),
            r.cwd == self.spec_cwd() is Some,
            r.stdin == self.spec_stdin() is Some,
            r.stdout == self.spec_stdout() is Some,
            r.stderr == self.spec_stderr() is Some,
    {
        DebugFields {
            env: !self.env.is_unchanged(),
            cwd: self.cwd.is_some(),
            stdin: self.stdin.is_some(),
            stdout: self.stdout.is_some(),
            stderr: self.stderr.is_some(),
        }
    }
}

/// The outcome of `spawn_realm`: a realm id that is negative as a signed
/// number is a negated error number; any other is the running program.
pub fn spawn_result(rid: RealmID) -> (r: Result<Process, Error>)
    requires
        rid as i64 > i64::MIN,
    ensures
        (rid as i64) < 0 ==> r == Err::<Process, Error>(Error::Os((-(rid as i64)) as i32)),
        (rid as i64) >= 0 ==> (r matches Ok(p) && p.spec_rid() == rid && p.spec_status() is None),
{
    let signed = rid as i64;
    if signed < 0 {
        return Err(Error::from_raw_os_error((-signed) as i32));
    }
    Ok(Process { rid, status: None })
}

/// A spawned program.
pub struct Process {
    rid: RealmID,
    status: Option<ExitStatus>,
}

impl Process {
    /// The realm of the program.
    pub closed spec fn spec_rid(&self) -> RealmID {
        self.rid
    }

    /// The exit status, once it has been collected.
    pub closed spec fn spec_status(&self) -> Option<ExitStatus> {
        self.status
    }

    /// The identifier of the program: the low 32 bits of its realm id.
    pub fn id(&self) -> (r: u32)
        ensures
            r == self.spec_rid() as u32,
    {
        self.rid as u32
    }

    /// The realm of the program.
    pub fn realm_id(&self) -> (r: RealmID)
        ensures
            r == self.spec_rid(),
    {
        self.rid
    }

    /// The signal to send to the program to kill it, or `None` when its
    /// exit has already been collected (there is nothing left to kill).
    pub fn kill(&self) -> (r: Option<i32>)
        ensures
            self.spec_status() is Some ==> r is None,
            self.spec_status() is None ==> r == Some(SIGKILL),
    {
        self.send_signal(SIGKILL)
    }

    /// The signal to send, or `None` when the exit has been collected.
    pub fn send_signal(&self, signal: i32) -> (r: Option<i32>)
        ensures
            self.spec_status() is Some ==> r is None,
            self.spec_status() is None ==> r == Some(signal),
    {
        if self.status.is_some() {
            None
        } else {
            Some(signal)
        }
    }

    /// The outcome of `kill`: `0` is success, anything else failure with
    /// the error left in `errno`.
    pub fn signal_result(ret: i32, errno: i32) -> (r: Result<(), Error>)
        ensures
            ret == 0 ==> r == Ok::<(), Error>(()),
            ret != 0 ==> r == Err::<(), Error>(Error::Os(errno)),
    {
        crate::error::cvt_status(ret, errno)
    }

    /// The exit status already collected, if any; waiting needs no call
    /// then.
    pub fn cached_status(&self) -> (r: Option<ExitStatus>)
        ensures
            r == self.spec_status(),
    {
        self.status
    }

    /// Records the outcome of a blocking `wait_realm`: a negative return
    /// value is a negated error number (nothing is recorded); otherwise the
    /// raw status is the exit status, which is kept for later waits.
    pub fn finish_wait(&mut self, ret: i32, raw_status: i32) -> (r: Result<ExitStatus, Error>)
        requires
            ret > i32::MIN,
        ensures
            final(self).spec_rid() == old(self).spec_rid(),
            ret < 0 ==> r == Err::<ExitStatus, Error>(Error::Os((-ret) as i32)) && final(self).spec_status()
                == old(self).spec_status(),
            ret >= 0 ==> r == Ok::<ExitStatus, Error>(ExitStatus(raw_status)) && final(self).spec_status() == Some(ExitStatus(raw_status)),
    {
        if ret < 0 {
            return Err(Error::from_raw_os_error(-ret));
        }
        let status = ExitStatus::new(raw_status);
        self.status = Some(status);
        Ok(status)
    }

    /// Records the outcome of a non-blocking `wait_realm`: a negative
    /// return value is a negated error number, zero means the program is
    /// still running, and any other value that it exited with the raw
    /// status, which is kept for later waits.
    pub fn finish_try_wait(&mut self, ret: i32, raw_status: i32) -> (r: Result<
        Option<ExitStatus>,
        Error,
    >)
        requires
            ret > i32::MIN,
        ensures
            final(self).spec_rid() == old(self).spec_rid(),
            ret < 0 ==> r == Err::<Option<ExitStatus>, Error>(Error::Os((-ret) as i32)) && final(self).spec_status() == old(self).spec_status(),
            ret == 0 ==> r == Ok::<Option<ExitStatus>, Error>(None) && final(self).spec_status()
                == old(self).spec_status(),
            ret > 0 ==> r == Ok::<Option<ExitStatus>, Error>(Some(ExitStatus(raw_status))) && final(self).spec_status() == Some(ExitStatus(raw_status)),
    {
        if ret < 0 {
            return Err(Error::from_raw_os_error(-ret));
        }
        if ret == 0 {
            return Ok(None);
        }
        let status = ExitStatus::new(raw_status);
        self.status = Some(status);
        Ok(Some(status))
    }
}

/// How a program ended: the exit code it reported.
#[derive(PartialEq, Eq, Clone, Copy, Default, Structural)]
pub struct ExitStatus(pub i32);

impl ExitStatus {
    /// The status with the raw value `status`.
    pub fn new(status: i32) -> (s: ExitStatus)
        ensures
            s == ExitStatus(status),
    {
        ExitStatus(status)
    }

    /// What `exit_ok` gives: success for exit code zero, otherwise the
    /// error carrying the code.
    pub closed spec fn spec_exit_ok(self) -> Result<(), ExitStatusError> {
        if self.0 == 0 {
            Ok(())
        } else {
            Err(ExitStatusError { code: self.0 })
        }
    }

    /// Success for exit code zero; any other code is the error.
    pub fn exit_ok(&self) -> (r: Result<(), ExitStatusError>)
        ensures
            r == self.spec_exit_ok(),
            self.0 == 0 ==> r is Ok,
            self.0 != 0 ==> (r matches Err(e) && e.spec_code() == self.0),
    {
        if self.0 == 0 {
            Ok(())
        } else {
            Err(ExitStatusError { code: self.0 })
        }
    }

    /// The exit code; VesperaOS always reports one.
    pub fn code(&self) -> (r: Option<i32>)
        ensures
            r == Some(self.0),
    {
        Some(self.0)
    }

    /// The signal that ended the program; VesperaOS reports none.
    pub fn signal(&self) -> (r: Option<i32>)
        ensures
            r is None,
    {
        None
    }

    /// The description of the status: `exit status: ` and the code.
    pub fn to_string(&self) -> (r: String)
        ensures
            r@ == "exit status: "@ + crate::decimal::decimal(self.0 as int),
    {
        let mut s = "exit status: ".to_owned();
        crate::decimal::push_decimal(&mut s, self.0 as i64);
        s
    }

    /// The status as its `Debug` output shows it on one line:
    /// `vespera_exit_status(` and the code, then `)`.
    pub fn debug_string(&self) -> (r: String)
        ensures
            r@ == "vespera_exit_status("@ + crate::decimal::decimal(self.0 as int) + ")"@,
    {
        let mut s = "vespera_exit_status(".to_owned();
        crate::decimal::push_decimal(&mut s, self.0 as i64);
        proof {
            reveal_strlit(")");
        }
        s.append(")");
        s
    }
}

/// A failed exit: its nonzero exit code.
#[derive(PartialEq, Eq, Clone, Copy, Structural)]
pub struct ExitStatusError {
    code: i32,
}

impl ExitStatusError {
    /// The exit code.
    pub closed spec fn spec_code(&self) -> i32 {
        self.code
    }

    /// The (nonzero) exit code.
    pub fn code(self) -> (r: Option<i32>)
        ensures
            r == Some(self.spec_code()),
    {
        Some(self.code)
    }

    /// The exit status this error stands for.
    pub fn into_status(self) -> (s: ExitStatus)
        ensures
            s == ExitStatus(self.spec_code()),
    {
        ExitStatus(self.code)
    }

    /// The error as its `Debug` output shows it on one line:
    /// `vespera_exit_status_error(` and the code, then `)`.
    pub fn debug_string(&self) -> (r: String)
        ensures
            r@ == "vespera_exit_status_error("@ + crate::decimal::decimal(self.spec_code() as int)
                + ")"@,
    {
        let mut s = "vespera_exit_status_error(".to_owned();
        crate::decimal::push_decimal(&mut s, self.code as i64);
        proof {
            reveal_strlit(")");
        }
        s.append(")");
        s
    }
}

/// `exit_ok` fails exactly for a nonzero code, and the error it gives
/// converts with `into_status` back into the status it came from.
pub proof fn lemma_exit_ok_roundtrip(s: ExitStatus)
    ensures
        s.spec_exit_ok() is Ok <==> s.0 == 0,
        s.spec_exit_ok() matches Err(e) ==> ExitStatus(e.spec_code()) == s,
{
}

/// The code a program exits with.
#[derive(PartialEq, Eq, Clone, Copy, Debug, Structural)]
pub struct ExitCode(pub u8);

impl ExitCode {
    /// Exit code zero.
    pub fn success() -> (c: ExitCode)
        ensures
            c == ExitCode(0),
    {
        ExitCode(0)
    }

    /// Exit code one.
    pub fn failure() -> (c: ExitCode)
        ensures
            c == ExitCode(1),
    {
        ExitCode(1)
    }

    /// The exit code with the given value.
    pub fn from_u8(code: u8) -> (c: ExitCode)
        ensures
            c == ExitCode(code),
    {
        ExitCode(code)
    }

    /// The exit code as a signed number.
    pub fn as_i32(&self) -> (r: i32)
        ensures
            r == self.0,
    {
        self.0 as i32
    }
}

/// The code the current program exits with after running a program in
/// its place: that program's exit code, or one when it has none.
pub fn exec_exit_code(status: ExitStatus) -> (r: i32)
    ensures
        r == status.0,
{
    match status.code() {
        Some(c) => c,
        None => 1,
    }
}

} // verus!
