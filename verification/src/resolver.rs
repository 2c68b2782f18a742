//! Which steps a run performs.
//!
//! The steps are chosen from four lists: the steps that the command line asks
//! for alone, the steps that it disables, and the same two lists of the
//! resolved record. Only what the lists hold counts, not the order or the
//! number of times.

use crate::step::Step;
use vstd::prelude::*;

verus! {

/// The steps from which the run is chosen: all that either list of wanted
/// steps names, or every step where neither names any.
pub open spec fn enabled(cli_only: Seq<Step>, config_only: Seq<Step>) -> Seq<Step> {
    if cli_only.len() + config_only.len() == 0 {
        Step::universe()
    } else {
        cli_only + config_only
    }
}

/// Whether an enabled step stays in the run: it is not disabled, or the
/// command line asks for it, which outweighs every disabling.
pub open spec fn kept(step: Step, cli_only: Seq<Step>, disabled: Seq<Step>) -> bool {
    !disabled.contains(step) || cli_only.contains(step)
}

/// The steps of `steps` that stay in the run, in their order.
pub open spec fn retained(steps: Seq<Step>, cli_only: Seq<Step>, disabled: Seq<Step>) -> Seq<Step>
    decreases steps.len(),
{
    if steps.len() == 0 {
        Seq::empty()
    } else if kept(steps.last(), cli_only, disabled) {
        retained(steps.drop_last(), cli_only, disabled).push(steps.last())
    } else {
        retained(steps.drop_last(), cli_only, disabled)
    }
}

/// The steps of the run.
pub open spec fn resolved(
    cli_only: Seq<Step>,
    cli_disable: Seq<Step>,
    config_only: Seq<Step>,
    config_disable: Seq<Step>,
) -> Seq<Step> {
    retained(enabled(cli_only, config_only), cli_only, cli_disable + config_disable)
}

/// Whether a step is in a list.
pub fn holds(steps: &Vec<Step>, step: Step) -> (found: bool)
    ensures
        found == steps@.contains(step),
{
    let mut at: usize = 0;
    while at < steps.len()
        invariant
            at <= steps.len(),
            forall|k: int| 0 <= k < at ==> steps@[k] != step,
        decreases steps.len() - at,
    {
        if steps[at] == step {
            return true;
        }
        at += 1;
    }
    false
}

/// Resolves the steps of a run from the four lists.
pub fn resolve(cli_only: &Vec<Step>, cli_disable: &Vec<Step>, config_only: &Vec<Step>, config_disable: &Vec<
    Step,
>) -> (steps: Vec<Step>)
    ensures
        steps@ == resolved(cli_only@, cli_disable@, config_only@, config_disable@),
{
    let mut candidates: Vec<Step> = Vec::new();
    extend(&mut candidates, cli_only);
    extend(&mut candidates, config_only);
    if candidates.len() == 0 {
        candidates = Step::all();
    }
    assert(candidates@ =~= enabled(cli_only@, config_only@));
    let mut disabled: Vec<Step> = Vec::new();
    extend(&mut disabled, cli_disable);
    extend(&mut disabled, config_disable);
    assert(disabled@ =~= cli_disable@ + config_disable@);
    let mut steps: Vec<Step> = Vec::new();
    let mut at: usize = 0;
    while at < candidates.len()
        invariant
            at <= candidates.len(),
            steps@ == retained(candidates@.take(at as int), cli_only@, disabled@),
        decreases candidates.len() - at,
    {
        let step = candidates[at];
        proof {
            assert(candidates@.take(at + 1).drop_last() =~= candidates@.take(at as int));
            assert(candidates@.take(at + 1).last() == step);
        }
        if !holds(&disabled, step) || holds(cli_only, step) {
            steps.push(step);
        }
        at += 1;
    }
    proof {
        assert(candidates@.take(at as int) =~= candidates@);
    }
    steps
}

/// Puts the steps of `more` behind those of `steps`.
fn extend(steps: &mut Vec<Step>, more: &Vec<Step>)
    ensures
        final(steps)@ == old(steps)@ + more@,
{
    let mut at: usize = 0;
    while at < more.len()
        invariant
            at <= more.len(),
            steps@ == old(steps)@ + more@.take(at as int),
        decreases more.len() - at,
    {
        steps.push(more[at]);
        proof {
            assert(more@.take(at + 1) =~= more@.take(at as int).push(more@[at as int]));
        }
        at += 1;
    }
    proof {
        assert(more@.take(at as int) =~= more@);
    }
}

/// A step stays among the retained ones exactly if it is among the given
/// ones and is kept.
pub proof fn lemma_retained_contains(steps: Seq<Step>, cli_only: Seq<Step>, disabled: Seq<Step>, step: Step)
    ensures
        retained(steps, cli_only, disabled).contains(step) <==> steps.contains(step) && kept(
            step,
            cli_only,
            disabled,
        ),
    decreases steps.len(),
{
    if steps.len() > 0 {
        let rest = retained(steps.drop_last(), cli_only, disabled);
        lemma_retained_contains(steps.drop_last(), cli_only, disabled, step);
        assert(steps =~= steps.drop_last().push(steps.last()));
        if steps.contains(step) {
            let i = choose|i: int| 0 <= i < steps.len() && steps[i] == step;
            if i < steps.len() - 1 {
                assert(steps.drop_last()[i] == step);
            }
        }
        if steps.drop_last().contains(step) {
            let i = choose|i: int| 0 <= i < steps.drop_last().len() && steps.drop_last()[i] == step;
            assert(steps[i] == step);
        }
        if kept(steps.last(), cli_only, disabled) {
            let all = rest.push(steps.last());
            if rest.contains(step) {
                let i = choose|i: int| 0 <= i < rest.len() && rest[i] == step;
                assert(all[i] == step);
            }
            if step == steps.last() {
                assert(all[all.len() - 1] == step);
            }
        }
    }
}

/// The steps of a run as a set: the wanted steps of both sides, or all steps
/// where there are none; less the disabled steps of both sides, but for those
/// that the command line asks for.
pub proof fn law_resolved_set(
    cli_only: Seq<Step>,
    cli_disable: Seq<Step>,
    config_only: Seq<Step>,
    config_disable: Seq<Step>,
    step: Step,
)
    ensures
        resolved(cli_only, cli_disable, config_only, config_disable).contains(step) <==> {
            &&& cli_only.len() + config_only.len() == 0 || cli_only.contains(step) || config_only.contains(step)
            &&& cli_only.contains(step) || !(cli_disable.contains(step) || config_disable.contains(step))
        },
{
    let candidates = enabled(cli_only, config_only);
    let disabled = cli_disable + config_disable;
    lemma_retained_contains(candidates, cli_only, disabled, step);
    Step::lemma_universe_complete(step);
    lemma_concat_contains(cli_only, config_only, step);
    lemma_concat_contains(cli_disable, config_disable, step);
}

/// A step is in two lists put together exactly if it is in one of them.
pub proof fn lemma_concat_contains(a: Seq<Step>, b: Seq<Step>, step: Step)
    ensures
        (a + b).contains(step) <==> a.contains(step) || b.contains(step),
{
    if a.contains(step) {
        let i = choose|i: int| 0 <= i < a.len() && a[i] == step;
        assert((a + b)[i] == step);
    }
    if b.contains(step) {
        let i = choose|i: int| 0 <= i < b.len() && b[i] == step;
        assert((a + b)[a.len() + i] == step);
    }
    if (a + b).contains(step) {
        let i = choose|i: int| 0 <= i < (a + b).len() && (a + b)[i] == step;
        if i < a.len() {
            assert(a[i] == step);
        } else {
            assert(b[i - a.len()] == step);
        }
    }
}

/// With no list naming any step, the run performs every step.
pub proof fn law_all_steps_by_default()
    ensures
        resolved(Seq::empty(), Seq::empty(), Seq::empty(), Seq::empty()) == Step::universe(),
        forall|step: Step| resolved(Seq::empty(), Seq::empty(), Seq::empty(), Seq::empty()).contains(step),
{
    let none = Seq::<Step>::empty();
    assert(none + none =~= none);
    lemma_retained_all(Step::universe(), none, none);
    assert forall|step: Step| Step::universe().contains(step) by {
        Step::lemma_universe_complete(step);
    }
}

/// Where nothing is disabled, every step is retained.
pub proof fn lemma_retained_all(steps: Seq<Step>, cli_only: Seq<Step>, disabled: Seq<Step>)
    requires
        disabled.len() == 0,
    ensures
        retained(steps, cli_only, disabled) == steps,
    decreases steps.len(),
{
    if steps.len() > 0 {
        lemma_retained_all(steps.drop_last(), cli_only, disabled);
        assert(steps =~= steps.drop_last().push(steps.last()));
    }
}

/// A step that only the resolved record asks for, and that is disabled on
/// either side, is not performed.
pub proof fn law_disable_beats_config_only(
    cli_only: Seq<Step>,
    cli_disable: Seq<Step>,
    config_only: Seq<Step>,
    config_disable: Seq<Step>,
    step: Step,
)
    requires
        !cli_only.contains(step),
        cli_disable.contains(step) || config_disable.contains(step),
    ensures
        !resolved(cli_only, cli_disable, config_only, config_disable).contains(step),
{
    law_resolved_set(cli_only, cli_disable, config_only, config_disable, step);
}

/// A step that the command line asks for is performed, whoever disables it.
pub proof fn law_cli_only_beats_disable(
    cli_only: Seq<Step>,
    cli_disable: Seq<Step>,
    config_only: Seq<Step>,
    config_disable: Seq<Step>,
    step: Step,
)
    requires
        cli_only.contains(step),
    ensures
        resolved(cli_only, cli_disable, config_only, config_disable).contains(step),
{
    law_resolved_set(cli_only, cli_disable, config_only, config_disable, step);
}

} // verus!
