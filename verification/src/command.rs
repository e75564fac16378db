//! The generated builder protocol, expanded for a `Command` structure.
//!
//! `Command` has three required fields — `executable`, `args`, `env` — and
//! one optional field, `current_dir`.  [`CommandBuilder`] is exactly what
//! the generator emits for that shape: every field stored behind the
//! optionality wrapper (one level, also for the already-optional
//! `current_dir`), one overwriting setter per field over the unwrapped
//! type, a factory with every field unset, and the fallible [`build`]
//! finalization.  Each setter consumes the builder and returns the updated
//! one, so calls chain by ownership transfer.
//!
//! [`build`]: CommandBuilder::build

use vstd::prelude::*;

use crate::assemble::AssemblyError;

verus! {

/// The target structure: a command line to run.
pub struct Command {
    pub executable: String,
    pub args: Vec<String>,
    pub env: Vec<String>,
    pub current_dir: Option<String>,
}

/// The builder for [`Command`]: every field optionally stored, absent
/// until its setter runs.
pub struct CommandBuilder {
    pub executable: Option<String>,
    pub args: Option<Vec<String>>,
    pub env: Option<Vec<String>>,
    pub current_dir: Option<String>,
}

/// The builder the factory returns: every field absent.
pub open spec fn empty_command_builder() -> CommandBuilder {
    CommandBuilder { executable: None, args: None, env: None, current_dir: None }
}

/// The builder after its `executable` setter ran with `v`.
pub open spec fn with_executable(b: CommandBuilder, v: String) -> CommandBuilder {
    CommandBuilder { executable: Some(v), args: b.args, env: b.env, current_dir: b.current_dir }
}

/// The builder after its `args` setter ran with `v`.
pub open spec fn with_args(b: CommandBuilder, v: Vec<String>) -> CommandBuilder {
    CommandBuilder { executable: b.executable, args: Some(v), env: b.env, current_dir: b.current_dir }
}

/// The builder after its `env` setter ran with `v`.
pub open spec fn with_env(b: CommandBuilder, v: Vec<String>) -> CommandBuilder {
    CommandBuilder { executable: b.executable, args: b.args, env: Some(v), current_dir: b.current_dir }
}

/// The builder after its `current_dir` setter ran with `v`: the bare inner
/// value is recorded as present.
pub open spec fn with_current_dir(b: CommandBuilder, v: String) -> CommandBuilder {
    CommandBuilder { executable: b.executable, args: b.args, env: b.env, current_dir: Some(v) }
}

/// Every required field of the builder is present, so finalization
/// succeeds.
pub open spec fn command_complete(b: CommandBuilder) -> bool {
    &&& b.executable is Some
    &&& b.args is Some
    &&& b.env is Some
}

/// The command a complete builder assembles: required fields unwrapped,
/// the optional field passed through unchanged.
pub open spec fn assembled_command(b: CommandBuilder) -> Command
    recommends
        command_complete(b),
{
    Command {
        executable: b.executable->0,
        args: b.args->0,
        env: b.env->0,
        current_dir: b.current_dir,
    }
}

/// The name of the first required field, in declaration order, that is
/// absent from an incomplete builder.
pub open spec fn first_missing_command_field(b: CommandBuilder) -> Seq<char> {
    if b.executable is None {
        "executable"@
    } else if b.args is None {
        "args"@
    } else {
        "env"@
    }
}

impl CommandBuilder {
    /// Records `executable` as present, overwriting any earlier value.
    pub fn executable(self, executable: String) -> (r: Self)
        ensures
            r == with_executable(self, executable),
    {
        CommandBuilder {
            executable: Some(executable),
            args: self.args,
            env: self.env,
            current_dir: self.current_dir,
        }
    }

    /// Records `args` as present, overwriting any earlier value.
    pub fn args(self, args: Vec<String>) -> (r: Self)
        ensures
            r == with_args(self, args),
    {
        CommandBuilder {
            executable: self.executable,
            args: Some(args),
            env: self.env,
            current_dir: self.current_dir,
        }
    }

    /// Records `env` as present, overwriting any earlier value.
    pub fn env(self, env: Vec<String>) -> (r: Self)
        ensures
            r == with_env(self, env),
    {
        CommandBuilder {
            executable: self.executable,
            args: self.args,
            env: Some(env),
            current_dir: self.current_dir,
        }
    }

    /// Records `current_dir` as present, overwriting any earlier value.
    /// The parameter is the bare inner type of the optional field.
    pub fn current_dir(self, current_dir: String) -> (r: Self)
        ensures
            r == with_current_dir(self, current_dir),
    {
        CommandBuilder {
            executable: self.executable,
            args: self.args,
            env: self.env,
            current_dir: Some(current_dir),
        }
    }

    /// Finalization: assembles the [`Command`] when every required field is
    /// present, and otherwise fails with [`AssemblyError::MissingField`]
    /// naming the first absent required field in declaration order.  The
    /// optional `current_dir` passes through unchanged; its absence is a
    /// legitimate final value.
    pub fn build(self) -> (r: Result<Command, AssemblyError>)
        ensures
            r is Ok <==> command_complete(self),
            r matches Ok(c) ==> c == assembled_command(self),
            r matches Err(e) ==> (e matches AssemblyError::MissingField(n)
                && n@ == first_missing_command_field(self)),
    {
        let CommandBuilder { executable, args, env, current_dir } = self;
        let executable = match executable {
            Some(v) => v,
            None => {
                return Err(AssemblyError::MissingField(String::from_str("executable")));
            },
        };
        let args = match args {
            Some(v) => v,
            None => {
                return Err(AssemblyError::MissingField(String::from_str("args")));
            },
        };
        let env = match env {
            Some(v) => v,
            None => {
                return Err(AssemblyError::MissingField(String::from_str("env")));
            },
        };
        Ok(Command { executable, args, env, current_dir })
    }
}

impl Command {
    /// The factory: a fresh builder with every field absent.
    pub fn builder() -> (r: CommandBuilder)
        ensures
            r == empty_command_builder(),
    {
        CommandBuilder { executable: None, args: None, env: None, current_dir: None }
    }
}

/// Round-trip completeness: from any starting builder, setting every
/// required field once makes finalization succeed, and each required field
/// of the result holds exactly the value its setter was given, while the
/// optional field passes through whatever the starting builder held.
pub proof fn lemma_command_round_trip(b0: CommandBuilder, e: String, a: Vec<String>, v: Vec<String>)
    ensures
        ({
            let b = with_env(with_args(with_executable(b0, e), a), v);
            &&& command_complete(b)
            &&& assembled_command(b).executable == e
            &&& assembled_command(b).args == a
            &&& assembled_command(b).env == v
            &&& assembled_command(b).current_dir == b0.current_dir
        }),
{
}

/// Missing-required-field failure: a builder whose first absent required
/// field, in declaration order, is `executable`, `args` or `env` is not
/// complete, and finalization reports exactly that field's name.  In
/// particular, starting from the empty builder and never running the
/// `executable` setter leaves `executable` the reported field.
pub proof fn lemma_command_missing_field(b: CommandBuilder, a: Vec<String>, v: Vec<String>)
    ensures
        b.executable is None ==> !command_complete(b) && first_missing_command_field(b)
            == "executable"@,
        b.executable is Some && b.args is None ==> !command_complete(b)
            && first_missing_command_field(b) == "args"@,
        b.executable is Some && b.args is Some && b.env is None ==> !command_complete(b)
            && first_missing_command_field(b) == "env"@,
        ({
            let never_set = with_env(with_args(empty_command_builder(), a), v);
            !command_complete(never_set) && first_missing_command_field(never_set)
                == "executable"@
        }),
{
}

/// Optional-field pass-through: an optional field never set stays absent in
/// the finalized result, and once set to an inner value the result holds
/// exactly that value as present.
pub proof fn lemma_command_optional_pass_through(
    e: String,
    a: Vec<String>,
    v: Vec<String>,
    d: String,
)
    ensures
        ({
            let b = with_env(with_args(with_executable(empty_command_builder(), e), a), v);
            &&& command_complete(b)
            &&& assembled_command(b).current_dir is None
            &&& command_complete(with_current_dir(b, d))
            &&& assembled_command(with_current_dir(b, d)).current_dir == Some(d)
        }),
{
}

/// Overwrite semantics: running a setter twice leaves exactly the second
/// value, with no trace of the first — the builder after two calls equals
/// the builder after the second call alone.
pub proof fn lemma_command_overwrite(b: CommandBuilder, v1: String, v2: String)
    ensures
        with_executable(with_executable(b, v1), v2) == with_executable(b, v2),
        with_executable(with_executable(b, v1), v2).executable == Some(v2),
        with_current_dir(with_current_dir(b, v1), v2) == with_current_dir(b, v2),
        with_current_dir(with_current_dir(b, v1), v2).current_dir == Some(v2),
{
}

} // verus!
