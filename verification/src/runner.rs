//! The supervisor's configuration: accumulates command descriptors in
//! registration order, carries the restart policy and display options, and
//! checks — before any process is spawned — that a run makes sense: at
//! least one descriptor, and no two descriptors under one name, since
//! duplicate names would make output attribution ambiguous.

use vstd::prelude::*;
use crate::command::Command;
use crate::command::CommandError;
use crate::command::CommandLike;
use crate::engine::RestartOptions;

verus! {

/// The options a run is performed under, derived once from the supervisor's
/// configuration at run start and immutable for the run's lifetime.
#[derive(Clone, Copy, Debug)]
pub struct RunOptions {
    /// Announce starts and exits on the feed's rendering.
    pub verbose: bool,
    /// Annotate each chunk with the stream it came from.
    pub file_handle_flags: bool,
    /// The cross-worker policy on termination events.
    pub restart: RestartOptions,
}

/// The names of a descriptor sequence, in registration order.
pub open spec fn names_of<C: CommandLike>(cmds: Seq<C>) -> Seq<Seq<char>> {
    cmds.map_values(|c: C| c.command_model().name@)
}

/// No two names alike.
pub open spec fn unique_names(names: Seq<Seq<char>>) -> bool {
    forall|i: int, j: int| 0 <= i < j < names.len() ==> names[i] != names[j]
}

/// The name at `j` repeats one that stands earlier.
pub open spec fn repeats_earlier_name(names: Seq<Seq<char>>, j: int) -> bool {
    exists|i: int| 0 <= i < j && names[i] == names[j]
}

/// `j` is the first position whose name repeats an earlier one.
pub open spec fn first_repeated_at(names: Seq<Seq<char>>, j: int) -> bool {
    &&& 0 < j < names.len()
    &&& repeats_earlier_name(names, j)
    &&& forall|k: int| 0 < k < j ==> !repeats_earlier_name(names, k)
}

/// Accumulates command descriptors and a restart policy, and hands a run its
/// options. Order of addition is preserved; it fixes each worker's
/// registration index.
pub struct Runner<C: CommandLike> {
    commands: Vec<C>,
    restart: RestartOptions,
    verbose: bool,
    file_handle_flags: bool,
}

impl<C: CommandLike> Runner<C> {
    /// The registered descriptors, in registration order.
    pub closed spec fn commands_model(&self) -> Seq<C> {
        self.commands@
    }

    /// The configured restart policy.
    pub closed spec fn restart_model(&self) -> RestartOptions {
        self.restart
    }

    /// The configured verbosity.
    pub closed spec fn verbose_model(&self) -> bool {
        self.verbose
    }

    /// Whether chunks are annotated with their stream.
    pub closed spec fn file_handle_flags_model(&self) -> bool {
        self.file_handle_flags
    }

    /// An empty supervisor: no descriptors, others left running on a
    /// termination, nothing announced or annotated.
    pub fn new() -> (r: Runner<C>)
        ensures
            r.commands_model() == Seq::<C>::empty(),
            r.restart_model() == RestartOptions::Continue,
            !r.verbose_model(),
            !r.file_handle_flags_model(),
    {
        Runner {
            commands: Vec::new(),
            restart: RestartOptions::Continue,
            verbose: false,
            file_handle_flags: false,
        }
    }

    /// Registers one more descriptor, after all earlier ones.
    pub fn command(self, cmd: C) -> (r: Runner<C>)
        ensures
            r.commands_model() == self.commands_model().push(cmd),
            r.restart_model() == self.restart_model(),
            r.verbose_model() == self.verbose_model(),
            r.file_handle_flags_model() == self.file_handle_flags_model(),
    {
        let mut commands = self.commands;
        commands.push(cmd);
        Runner { commands, ..self }
    }

    /// Sets the restart policy.
    pub fn restart(self, restart: RestartOptions) -> (r: Runner<C>)
        ensures
            r.commands_model() == self.commands_model(),
            r.restart_model() == restart,
            r.verbose_model() == self.verbose_model(),
            r.file_handle_flags_model() == self.file_handle_flags_model(),
    {
        Runner { restart, ..self }
    }

    /// Sets the verbosity.
    pub fn verbose(self, verbose: bool) -> (r: Runner<C>)
        ensures
            r.commands_model() == self.commands_model(),
            r.restart_model() == self.restart_model(),
            r.verbose_model() == verbose,
            r.file_handle_flags_model() == self.file_handle_flags_model(),
    {
        Runner { verbose, ..self }
    }

    /// Sets whether chunks are annotated with their stream.
    pub fn file_handle_flags(self, file_handle_flags: bool) -> (r: Runner<C>)
        ensures
            r.commands_model() == self.commands_model(),
            r.restart_model() == self.restart_model(),
            r.verbose_model() == self.verbose_model(),
            r.file_handle_flags_model() == file_handle_flags,
    {
        Runner { file_handle_flags, ..self }
    }

    /// The registered descriptors, for the runtime that spawns them.
    pub fn commands(&self) -> (r: &Vec<C>)
        ensures
            r@ == self.commands_model(),
    {
        &self.commands
    }

    /// The run's options, derived from this configuration.
    pub fn to_options(&self) -> (r: RunOptions)
        ensures
            r.verbose == self.verbose_model(),
            r.file_handle_flags == self.file_handle_flags_model(),
            r.restart == self.restart_model(),
    {
        RunOptions {
            verbose: self.verbose,
            file_handle_flags: self.file_handle_flags,
            restart: self.restart,
        }
    }

    /// Checks the descriptor set at run start, before any process is
    /// spawned: a run needs at least one descriptor, and no name may repeat.
    /// On a repeat the reported name is the first name that repeats an
    /// earlier one.
    pub fn validate(&self) -> (r: Result<(), CommandError>)
        ensures
            r is Ok <==> (self.commands_model().len() > 0 && unique_names(
                names_of(self.commands_model()),
            )),
            r matches Err(CommandError::NoCommands) <==> self.commands_model().len() == 0,
            r matches Err(CommandError::DuplicateName(n)) ==> exists|j: int|
                #[trigger] first_repeated_at(names_of(self.commands_model()), j) && n@ == names_of(
                    self.commands_model(),
                )[j],
            r matches Err(e) ==> (e is NoCommands || e is DuplicateName),
    {
        let ghost names = names_of(self.commands_model());
        let n = self.commands.len();
        if n == 0 {
            return Err(CommandError::NoCommands);
        }
        let mut j: usize = 1;
        while j < n
            invariant
                1 <= j <= n,
                n == self.commands@.len(),
                names == names_of(self.commands@),
                forall|k: int| 0 < k < j ==> !repeats_earlier_name(names, k),
            decreases n - j,
        {
            let mut i: usize = 0;
            while i < j
                invariant
                    0 <= i <= j < n,
                    n == self.commands@.len(),
                    names == names_of(self.commands@),
                    forall|k: int| 0 < k < j ==> !repeats_earlier_name(names, k),
                    forall|k: int| 0 <= k < i ==> names[k] != names[j as int],
                decreases j - i,
            {
                if self.commands[i].get_command().name == self.commands[j].get_command().name {
                    let dup = self.commands[j].get_command().name.clone();
                    proof {
                        let jj = j as int;
                        assert(names[i as int] == names[jj]);
                        assert(repeats_earlier_name(names, jj));
                        assert(dup@ == names[jj]);
                        assert(first_repeated_at(names, jj));
                        assert(exists|j2: int|
                            #[trigger] first_repeated_at(names, j2) && dup@ == names[j2]);
                    }
                    return Err(CommandError::DuplicateName(dup));
                }
                i = i + 1;
            }
            j = j + 1;
        }
        proof {
            assert forall|a: int, b: int| 0 <= a < b < names.len() implies names[a]
                != names[b] by {
                assert(!repeats_earlier_name(names, b));
            }
        }
        Ok(())
    }
}

} // verus!
