//! Resolution of action names into runnable actions, and the action chain
//! a process follows after it exits.

use crate::ctx::spec_find_process;
use crate::ctx::Ctx;
use crate::process::Process;
use crate::process::ProcessView;
use vstd::prelude::*;

verus! {

/// A builtin action tag: terminate the whole runtime with the matching
/// exit code.
#[derive(Clone, Copy, Debug, PartialEq, Eq, Structural)]
pub enum BuiltinAction {
    Exit,
    ExitError,
}

/// Mathematical image of a resolved action.
pub ghost enum ActionView {
    Builtin(BuiltinAction),
    Run(ProcessView),
}

/// A resolved action: either a builtin runtime-termination tag or a process
/// definition to run on the resolving thread. Resolution happens once, when
/// the action is prepared, not when it fires.
#[derive(Clone, Debug)]
pub enum Action {
    Builtin(BuiltinAction),
    Run(Process),
}

impl View for Action {
    type V = ActionView;

    open spec fn view(&self) -> ActionView {
        match self {
            Action::Builtin(b) => ActionView::Builtin(*b),
            Action::Run(p) => ActionView::Run(p@),
        }
    }
}

/// The prepared `onfail` and `onsucceed` actions of one process, resolved
/// against the runtime context before the process runs.
pub struct ProcessActions {
    pub onfail: Option<Action>,
    pub onsucceed: Option<Action>,
}

/// Whether a name denotes a builtin action tag.
pub open spec fn spec_is_builtin(name: Seq<char>) -> bool {
    name == "arpx_exit"@ || name == "arpx_exit_error"@
}

/// The builtin action a builtin name denotes.
pub open spec fn spec_builtin(name: Seq<char>) -> BuiltinAction {
    if name == "arpx_exit"@ {
        BuiltinAction::Exit
    } else {
        BuiltinAction::ExitError
    }
}

/// What an action name resolves to against a process registry: a builtin
/// tag, a registered process, or nothing.
pub open spec fn spec_resolve(procs: Seq<ProcessView>, name: Seq<char>) -> Option<ActionView> {
    if spec_is_builtin(name) {
        Some(ActionView::Builtin(spec_builtin(name)))
    } else {
        match spec_find_process(procs, name) {
            Some(p) => Some(ActionView::Run(p)),
            None => None,
        }
    }
}

/// Whether a name is a builtin action tag.
pub fn is_builtin_action(name: &str) -> (r: bool)
    ensures
        r == spec_is_builtin(name@),
{
    proof {
        reveal_strlit("arpx_exit");
        reveal_strlit("arpx_exit_error");
    }
    crate::util::str_eq(name, "arpx_exit") || crate::util::str_eq(
        name,
        "arpx_exit_error",
    )
}

/// Resolves an action name: a builtin tag wins, otherwise the registry is
/// consulted, and an unknown name resolves to no action at all.
pub fn get_optional_action(name: &str, ctx: &Ctx) -> (r: Option<Action>)
    ensures
        match r {
            Some(a) => spec_resolve(ctx.process_map.deep_view(), name@) == Some(a@),
            None => spec_resolve(ctx.process_map.deep_view(), name@) is None,
        },
{
    if is_builtin_action(name) {
        proof {
            reveal_strlit("arpx_exit");
            reveal_strlit("arpx_exit_error");
        }
        if crate::util::str_eq(name, "arpx_exit") {
            Some(Action::Builtin(BuiltinAction::Exit))
        } else {
            Some(Action::Builtin(BuiltinAction::ExitError))
        }
    } else {
        match ctx.find_process(name) {
            Some(process) => Some(Action::Run(process.clone_definition())),
            None => None,
        }
    }
}

/// Prepares both exit actions of a process against the runtime context.
/// An absent or unresolvable action name yields no action, never an error.
pub fn get_process_actions(process: &Process, ctx: &Ctx) -> (r: ProcessActions)
    ensures
        match process.onfail {
            Some(name) => match r.onfail {
                Some(a) => spec_resolve(ctx.process_map.deep_view(), name@) == Some(a@),
                None => spec_resolve(ctx.process_map.deep_view(), name@) is None,
            },
            None => r.onfail is None,
        },
        match process.onsucceed {
            Some(name) => match r.onsucceed {
                Some(a) => spec_resolve(ctx.process_map.deep_view(), name@) == Some(a@),
                None => spec_resolve(ctx.process_map.deep_view(), name@) is None,
            },
            None => r.onsucceed is None,
        },
{
    let onfail = match &process.onfail {
        Some(action_name) => get_optional_action(action_name.as_str(), ctx),
        None => None,
    };
    let onsucceed = match &process.onsucceed {
        Some(action_name) => get_optional_action(action_name.as_str(), ctx),
        None => None,
    };
    ProcessActions { onfail, onsucceed }
}

/// Prepares a log monitor's trigger action against the runtime context.
pub fn get_log_monitor_action(
    log_monitor: &crate::log_monitor::LogMonitor,
    ctx: &Ctx,
) -> (r: Option<Action>)
    ensures
        match r {
            Some(a) => spec_resolve(ctx.process_map.deep_view(), log_monitor@.ontrigger) == Some(
                a@,
            ),
            None => spec_resolve(ctx.process_map.deep_view(), log_monitor@.ontrigger) is None,
        },
{
    get_optional_action(log_monitor.ontrigger.as_str(), ctx)
}

/// The names visited along one action chain: the current process, then,
/// for each recorded exit outcome, whatever its dispatched action resolves
/// to. A builtin tag or an unresolvable name ends the chain, as does an
/// absent action. No cycle detection exists: a chain is as long as the
/// outcomes fed to it.
pub open spec fn spec_chain(
    procs: Seq<ProcessView>,
    current: ProcessView,
    outcomes: Seq<bool>,
) -> Seq<Seq<char>>
    decreases outcomes.len(),
{
    seq![current.name] + if outcomes.len() == 0 {
        Seq::<Seq<char>>::empty()
    } else {
        match Process::spec_action_name(current, outcomes[0]) {
            Some(name) => {
                if spec_is_builtin(name) {
                    Seq::<Seq<char>>::empty()
                } else {
                    match spec_find_process(procs, name) {
                        Some(next) => spec_chain(procs, next, outcomes.skip(1)),
                        None => Seq::<Seq<char>>::empty(),
                    }
                }
            },
            None => Seq::<Seq<char>>::empty(),
        }
    }
}

/// The names a chain of exit outcomes visits, starting from one process.
/// Each recorded outcome consumes one link; the walk runs on one logical
/// thread, exactly as the runtime dispatches chained actions.
pub fn action_chain(ctx: &Ctx, start: &Process, outcomes: &Vec<bool>) -> (r: Vec<String>)
    ensures
        r.deep_view() == spec_chain(ctx.process_map.deep_view(), start@, outcomes@),
{
    let names = chain_from(ctx, start, outcomes, 0);
    proof {
        assert(outcomes@.skip(0) =~= outcomes@);
    }
    names
}

/// The chain walk from `outcomes[i]` onward.
fn chain_from(ctx: &Ctx, current: &Process, outcomes: &Vec<bool>, i: usize) -> (r: Vec<String>)
    requires
        i <= outcomes@.len(),
    ensures
        r.deep_view() == spec_chain(
            ctx.process_map.deep_view(),
            current@,
            outcomes@.skip(i as int),
        ),
    decreases outcomes@.len() - i,
{
    let ghost remaining = outcomes@.skip(i as int);
    let mut names: Vec<String> = Vec::new();
    names.push(current.name.clone());
    if i < outcomes.len() {
        proof {
            assert(remaining[0] == outcomes@[i as int]);
        }
        let next_name = current.action_name_after_exit(outcomes[i]);
        match next_name {
            Some(name) => {
                if !is_builtin_action(name.as_str()) {
                    match ctx.find_process(name.as_str()) {
                        Some(next) => {
                            let next_process = next.clone_definition();
                            let mut rest = chain_from(ctx, &next_process, outcomes, i + 1);
                            proof {
                                assert(remaining.skip(1) =~= outcomes@.skip(i + 1));
                            }
                            names.append(&mut rest);
                        },
                        None => {},
                    }
                }
            },
            None => {},
        }
    }
    proof {
        assert(names.deep_view() =~= spec_chain(
            ctx.process_map.deep_view(),
            current@,
            remaining,
        ));
    }
    names
}

/// Chained actions run in strict succession: when one process's
/// `onsucceed` names a second registered process and the second's names a
/// third, two successful exits walk exactly the three processes, in order.
pub proof fn lemma_chain_of_three(
    procs: Seq<ProcessView>,
    first: ProcessView,
    second: ProcessView,
    third: ProcessView,
)
    requires
        first.onsucceed == Some(second.name),
        second.onsucceed == Some(third.name),
        !spec_is_builtin(second.name),
        !spec_is_builtin(third.name),
        spec_find_process(procs, second.name) == Some(second),
        spec_find_process(procs, third.name) == Some(third),
    ensures
        spec_chain(procs, first, seq![true, true]) == seq![first.name, second.name, third.name],
{
    let outcomes = seq![true, true];
    assert(outcomes.skip(1) =~= seq![true]);
    assert(outcomes.skip(1).skip(1) =~= Seq::<bool>::empty());
    assert(spec_chain(procs, third, Seq::<bool>::empty()) =~= seq![third.name]);
    assert(spec_chain(procs, second, seq![true]) =~= seq![second.name, third.name]);
    assert(spec_chain(procs, first, outcomes) =~= seq![first.name, second.name, third.name]);
}

} // verus!
