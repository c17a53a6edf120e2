//! From the user's intent and the lamps that were selected to the work that
//! is done: one task for each selected lamp, all of them the same.

use crate::common::Sig;
use crate::config_parse::{Config, GradientArgs};
use vstd::prelude::*;

verus! {

/// What is done for the user.
#[derive(Clone, Debug)]
pub enum Task {
    /// Print the names of the scenes; no lamp is touched.
    ListScenes,
    /// Run a transition on each selected lamp.
    Gradient(GradientArgs),
    /// Send one signal to each selected lamp.
    Apply(Sig),
}

/// The task that a `Config` asks for.
pub fn resolve(config: &Config) -> (task: Task)
    ensures
        match *config {
            Config::Gradient(args) => task == Task::Gradient(args),
            Config::On(signal) => task == Task::Apply(signal),
            Config::Off => task == Task::Apply(Sig::On(false)),
            Config::Scene(name, list) => if list {
                task is ListScenes
            } else {
                task matches Task::Apply(Sig::Scene(selected)) && selected@ == name@
            },
        },
{
    match config {
        Config::Gradient(args) => Task::Gradient(*args),
        Config::On(signal) => Task::Apply(signal.clone()),
        Config::Off => Task::Apply(Sig::On(false)),
        Config::Scene(name, list) => {
            if *list {
                Task::ListScenes
            } else {
                Task::Apply(Sig::Scene(name.clone()))
            }
        },
    }
}

/// Whether `id` is among `ids`.
fn is_among(ids: &Vec<usize>, id: usize) -> (found: bool)
    ensures
        found == ids@.contains(id),
{
    let mut i: usize = 0;
    while i < ids.len()
        invariant
            i <= ids.len(),
            forall|k: int| 0 <= k < i ==> ids@[k] != id,
        decreases ids.len() - i,
    {
        if ids[i] == id {
            return true;
        }
        i = i + 1;
    }
    false
}

/// Whether `lamps` are the lamps that get a task: of the `n_lamps` lamps,
/// numbered from zero, those whose number is among `selected`, each once and
/// in ascending order.
pub open spec fn selection(n_lamps: usize, selected: Seq<usize>, lamps: Seq<usize>) -> bool {
    &&& forall|id: usize| lamps.contains(id) <==> id < n_lamps && selected.contains(id)
    &&& forall|i: int, j: int| 0 <= i < j < lamps.len() ==> lamps[i] < lamps[j]
}

/// The lamps that get a task: of the `n_lamps` lamps, numbered from zero,
/// those whose number is among `selected_lamp_id`, each once and in
/// ascending order, however often and in whatever order it was named.
pub fn select_lamps(n_lamps: usize, selected_lamp_id: &Vec<usize>) -> (lamps: Vec<usize>)
    ensures
        selection(n_lamps, selected_lamp_id@, lamps@),
        lamps@.len() <= n_lamps,
{
    let mut lamps: Vec<usize> = Vec::new();
    let mut num: usize = 0;
    while num < n_lamps
        invariant
            num <= n_lamps,
            lamps@.len() <= num,
            forall|id: usize|
                lamps@.contains(id) <==> id < num && selected_lamp_id@.contains(id),
            forall|i: int, j: int| 0 <= i < j < lamps@.len() ==> lamps@[i] < lamps@[j],
        decreases n_lamps - num,
    {
        if is_among(selected_lamp_id, num) {
            let ghost before = lamps@;
            lamps.push(num);
            proof {
                assert forall|id: usize|
                    lamps@.contains(id) <==> id < num + 1 && selected_lamp_id@.contains(
                        id,
                    ) by {
                    if lamps@.contains(id) {
                        let k = choose|k: int| 0 <= k < lamps@.len() && lamps@[k] == id;
                        if k < before.len() {
                            assert(before[k] == id);
                            assert(before.contains(id));
                        }
                    }
                    if id < num + 1 && selected_lamp_id@.contains(id) {
                        if id == num {
                            assert(lamps@[lamps@.len() - 1] == id);
                        } else {
                            assert(before.contains(id));
                            let k = choose|k: int| 0 <= k < before.len() && before[k] == id;
                            assert(lamps@[k] == id);
                        }
                    }
                }
                assert forall|i: int, j: int| 0 <= i < j < lamps@.len() implies lamps@[i]
                    < lamps@[j] by {
                    if j == lamps@.len() - 1 {
                        assert(before[i] == lamps@[i]);
                        assert(before.contains(lamps@[i]));
                    } else {
                        assert(before[i] == lamps@[i] && before[j] == lamps@[j]);
                    }
                }
            }
        }
        num = num + 1;
    }
    lamps
}

/// Where `k` different lamps are selected, exactly `k` lamps get a task.
pub proof fn lemma_one_task_each(n_lamps: usize, selected: Seq<usize>, lamps: Seq<usize>)
    requires
        selection(n_lamps, selected, lamps),
        selected.no_duplicates(),
        forall|k: int| 0 <= k < selected.len() ==> selected[k] < n_lamps,
    ensures
        lamps.len() == selected.len(),
{
    assert(lamps.no_duplicates());
    assert(lamps.to_set() =~= selected.to_set()) by {
        assert forall|id: usize| lamps.to_set().contains(id) <==> selected.to_set().contains(
            id,
        ) by {
            if selected.contains(id) {
                let k = choose|k: int| 0 <= k < selected.len() && selected[k] == id;
                assert(id < n_lamps);
            }
        }
    }
    lamps.unique_seq_to_set();
    selected.unique_seq_to_set();
}

} // verus!
