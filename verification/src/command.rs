//! Command descriptors: an immutable-after-build description of one process
//! to run (name, program, arguments, working directory), and construction
//! from a shell-style command string through the tokenizer collaborator.

use vstd::prelude::*;

verus! {

/// Configuration-time failures, reported to the caller before any process is
/// spawned.
#[derive(Debug)]
pub enum CommandError {
    /// The parsed command string contained no tokens.
    EmptyCommand,
    /// Tokenizing the command string failed (unbalanced quoting); carries the
    /// offending string.
    ParseError(String),
    /// A run was requested with an empty descriptor set.
    NoCommands,
    /// Two descriptors registered under one name; carries the name.
    DuplicateName(String),
}

/// The error type shell_words::split reports unbalanced quoting with.
#[verifier::external_type_specification]
#[verifier::external_body]
pub struct ExShellParseError(shell_words::ParseError);

/// What shell_words::split returns for a command line: its words under
/// POSIX shell word-splitting rules, or nothing where quoting is
/// unbalanced. The result depends on the characters alone.
pub uninterp spec fn split_words(s: Seq<char>) -> Option<Seq<Seq<char>>>;

/// Blank characters are exactly the word delimiters the tokenizer skips.
pub open spec fn blank_only(s: Seq<char>) -> bool {
    forall|i: int| 0 <= i < s.len() ==> (s[i] == ' ' || s[i] == '\t' || s[i] == '\n')
}

/// Relies on shell_words::split: deterministic POSIX-style word splitting,
/// where the only failure is an unmatched quote and an input of only
/// delimiter characters yields no words.
#[verifier::external_body]
fn shell_split(s: &str) -> (r: Result<Vec<String>, shell_words::ParseError>)
    ensures
        r is Ok <==> split_words(s@) is Some,
        r is Ok ==> r->Ok_0.deep_view() == split_words(s@)->Some_0,
        blank_only(s@) ==> r is Ok && r->Ok_0@.len() == 0,
{
    shell_words::split(s)
}

/// Splits a shell-style command string into a program and its arguments.
/// Fails with `EmptyCommand` when the string holds no tokens and with
/// `ParseError` when tokenization fails.
pub fn parse_command_string(command: &str) -> (r: Result<(String, Vec<String>), CommandError>)
    ensures
        ({
            let w = split_words(command@);
            match r {
                Ok(pair) => {
                    &&& w is Some
                    &&& w->Some_0.len() > 0
                    &&& pair.0@ == w->Some_0[0]
                    &&& pair.1.deep_view() == w->Some_0.skip(1)
                },
                Err(CommandError::EmptyCommand) => w is Some && w->Some_0.len() == 0,
                Err(CommandError::ParseError(orig)) => w is None && orig@ == command@,
                Err(_) => false,
            }
        }),
        blank_only(command@) ==> r matches Err(CommandError::EmptyCommand),
{
    let words = shell_split(command);
    match words {
        Err(_) => Err(CommandError::ParseError(command.to_owned())),
        Ok(mut words) => {
            if words.len() == 0 {
                Err(CommandError::EmptyCommand)
            } else {
                let program = words.remove(0);
                proof {
                    let w = split_words(command@)->Some_0;
                    assert(words.deep_view() =~= w.skip(1));
                }
                Ok((program, words))
            }
        },
    }
}

/// One process to run: a unique name, the program, its arguments and an
/// optional working directory. Built once; never mutated after the run
/// starts (the supervisor clones it into each worker at spawn time).
pub struct Command {
    pub name: String,
    pub program: String,
    pub args: Vec<String>,
    pub cur_dir: Option<String>,
}

impl Clone for Command {
    fn clone(&self) -> (r: Command)
        ensures
            r.name == self.name,
            r.program == self.program,
            r.args@ == self.args@,
            r.cur_dir == self.cur_dir,
    {
        let args = self.args.clone();
        proof {
            assert forall|i: int| 0 <= i < self.args@.len() implies self.args@[i]
                == args@[i] by {
                assert(cloned::<String>(self.args@[i], args@[i]));
            }
            assert(args@ =~= self.args@);
        }
        Command {
            name: self.name.clone(),
            program: self.program.clone(),
            args,
            cur_dir: match &self.cur_dir {
                Some(d) => Some(d.clone()),
                None => None,
            },
        }
    }
}

/// A display color for one worker's output, chosen by the caller or drawn
/// from a pool when left as `Random`.
#[derive(Clone, Copy, Debug, PartialEq, Eq, Structural)]
pub enum Color {
    Black,
    Red,
    Green,
    Yellow,
    Blue,
    Magenta,
    Cyan,
    White,
    Random,
}

/// What every supervisable descriptor offers: a plain `Command` inside,
/// reachable for reading and replacement. Frontends wrap `Command` with
/// their own presentation data and implement this to plug into the
/// supervisor.
pub trait CommandLike: Sized {
    /// The descriptor's command, for contracts.
    spec fn command_model(&self) -> Command;

    /// Wraps a command in this descriptor type with default presentation.
    fn insert_command(cmd: Command) -> (r: Self)
        ensures
            r.command_model() == cmd,
    ;

    /// The descriptor's command.
    fn get_command(&self) -> (r: &Command)
        ensures
            *r == self.command_model(),
    ;

    /// Replaces the descriptor's command.
    fn set_command(&mut self, cmd: Command)
        ensures
            final(self).command_model() == cmd,
    ;
}

/// Descriptor construction shared by every `CommandLike` type: building from
/// a name and a shell-style command string, and adjusting the working
/// directory before the run starts.
pub trait CommandOperations: CommandLike {
    /// Builds a descriptor from a name and a shell-style command string. The
    /// string's first word is the program, the rest its arguments. Fails
    /// with `EmptyCommand` on a string of no tokens and with `ParseError`
    /// when tokenization fails.
    fn full_cmd(name: &str, command: &str) -> (r: Result<Self, CommandError>)
        ensures
            ({
                let w = split_words(command@);
                match r {
                    Ok(c) => {
                        &&& w is Some
                        &&& w->Some_0.len() > 0
                        &&& c.command_model().name@ == name@
                        &&& c.command_model().program@ == w->Some_0[0]
                        &&& c.command_model().args.deep_view() == w->Some_0.skip(1)
                        &&& c.command_model().cur_dir is None
                    },
                    Err(CommandError::EmptyCommand) => w is Some && w->Some_0.len() == 0,
                    Err(CommandError::ParseError(orig)) => w is None && orig@ == command@,
                    Err(_) => false,
                }
            }),
            blank_only(command@) ==> r matches Err(CommandError::EmptyCommand),
    ;

    /// Sets the working directory the process will be spawned in. Only
    /// effective before the run starts: descriptors are cloned into workers
    /// at spawn time.
    fn cur_dir(&mut self, dir: &str)
        ensures
            final(self).command_model().name == old(self).command_model().name,
            final(self).command_model().program == old(self).command_model().program,
            final(self).command_model().args@ == old(self).command_model().args@,
            final(self).command_model().cur_dir matches Some(d) && d@ == dir@,
    ;
}

impl<C: CommandLike> CommandOperations for C {
    fn full_cmd(name: &str, command: &str) -> (r: Result<Self, CommandError>) {
        match parse_command_string(command) {
            Err(e) => Err(e),
            Ok((program, args)) => Ok(Self::insert_command(
                Command { name: name.to_owned(), program, args, cur_dir: None },
            )),
        }
    }

    fn cur_dir(&mut self, dir: &str) {
        let mut cmd = self.get_command().clone();
        cmd.cur_dir = Some(dir.to_owned());
        self.set_command(cmd);
    }
}

} // verus!
