//! The definition of one named executable unit.

use vstd::prelude::*;

verus! {

/// Mathematical image of a process definition.
pub ghost struct ProcessView {
    pub command: Seq<char>,
    pub cwd: Seq<char>,
    pub log_monitors: Seq<Seq<char>>,
    pub name: Seq<char>,
    pub onfail: Option<Seq<char>>,
    pub onsucceed: Option<Seq<char>>,
}

/// One named executable unit: the command string handed to the runtime's
/// `BinCommand`, the directory to run it in, the log monitors attached to
/// its output, and the actions to take when it exits.
///
/// A definition is immutable once compiled; running it spawns a child,
/// multiplexes its output, and dispatches `onsucceed` or `onfail` on exit.
#[derive(Clone, Debug, PartialEq, Eq)]
pub struct Process {
    pub command: String,
    pub cwd: String,
    pub log_monitors: Vec<String>,
    pub name: String,
    pub onfail: Option<String>,
    pub onsucceed: Option<String>,
}

impl View for Process {
    type V = ProcessView;

    open spec fn view(&self) -> ProcessView {
        ProcessView {
            command: self.command@,
            cwd: self.cwd@,
            log_monitors: self.log_monitors.deep_view(),
            name: self.name@,
            onfail: self.onfail.deep_view(),
            onsucceed: self.onsucceed.deep_view(),
        }
    }
}

impl DeepView for Process {
    type V = ProcessView;

    open spec fn deep_view(&self) -> ProcessView {
        self.view()
    }
}

impl Process {
    /// Constructs a new, empty `Process` running in the current directory.
    pub fn new(name: String) -> (r: Self)
        ensures
            r@ == (ProcessView {
                command: Seq::<char>::empty(),
                cwd: "."@,
                log_monitors: Seq::<Seq<char>>::empty(),
                name: name@,
                onfail: None,
                onsucceed: None,
            }),
    {
        let r = Process {
            command: String::new(),
            cwd: ".".to_owned(),
            log_monitors: Vec::new(),
            name,
            onfail: None,
            onsucceed: None,
        };
        proof {
            assert(r.log_monitors.deep_view() =~= Seq::<Seq<char>>::empty());
        }
        r
    }

    /// Builds `Process` with the specified command.
    pub fn command(self, c: String) -> (r: Self)
        ensures
            r@ == (ProcessView { command: c@, ..self@ }),
    {
        Process { command: c, ..self }
    }

    /// Builds `Process` with the directory the command runs in.
    pub fn cwd(self, d: String) -> (r: Self)
        ensures
            r@ == (ProcessView { cwd: d@, ..self@ }),
    {
        Process { cwd: d, ..self }
    }

    /// Builds `Process` with the specified log monitors.
    pub fn log_monitors(self, m: Vec<String>) -> (r: Self)
        ensures
            r@ == (ProcessView { log_monitors: m.deep_view(), ..self@ }),
    {
        Process { log_monitors: m, ..self }
    }

    /// Builds `Process` with the action to run if the command fails.
    pub fn onfail(self, f: Option<String>) -> (r: Self)
        ensures
            r@ == (ProcessView { onfail: f.deep_view(), ..self@ }),
    {
        Process { onfail: f, ..self }
    }

    /// Builds `Process` with the action to run if the command succeeds.
    pub fn onsucceed(self, s: Option<String>) -> (r: Self)
        ensures
            r@ == (ProcessView { onsucceed: s.deep_view(), ..self@ }),
    {
        Process { onsucceed: s, ..self }
    }

    /// An equal copy of the definition, character for character.
    pub fn clone_definition(&self) -> (r: Self)
        ensures
            r@ == self@,
    {
        Process {
            command: self.command.clone(),
            cwd: self.cwd.clone(),
            log_monitors: crate::util::clone_string_vec(&self.log_monitors),
            name: self.name.clone(),
            onfail: crate::util::clone_opt_string(&self.onfail),
            onsucceed: crate::util::clone_opt_string(&self.onsucceed),
        }
    }

    /// The action name dispatched for the given exit outcome: `onsucceed`
    /// on success, `onfail` on failure.
    pub open spec fn spec_action_name(p: ProcessView, success: bool) -> Option<Seq<char>> {
        if success {
            p.onsucceed
        } else {
            p.onfail
        }
    }

    /// Picks the action name owed after the child exits.
    pub fn action_name_after_exit(&self, success: bool) -> (r: &Option<String>)
        ensures
            r.deep_view() == Self::spec_action_name(self@, success),
    {
        if success {
            &self.onsucceed
        } else {
            &self.onfail
        }
    }

    /// The argv with which the child is spawned: the shell binary's fixed
    /// arguments followed by this process's command string.
    pub fn shell_args(&self, bin_command: &crate::local_bin::BinCommand) -> (r: Vec<String>)
        ensures
            r.deep_view() == bin_command.args.deep_view().push(self@.command),
    {
        let mut args: Vec<String> = Vec::new();
        let mut i: usize = 0;
        while i < bin_command.args.len()
            invariant
                i <= bin_command.args@.len(),
                args@.len() == i,
                forall|k: int| 0 <= k < i ==> args@[k]@ == bin_command.args@[k]@,
            decreases bin_command.args@.len() - i,
        {
            args.push(bin_command.args[i].clone());
            i = i + 1;
        }
        args.push(self.command.clone());
        proof {
            assert(args.deep_view() =~= bin_command.args.deep_view().push(self@.command));
        }
        args
    }
}

} // verus!
