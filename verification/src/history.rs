//! The history: the paths chosen so far, each once, in the order first chosen.

use vstd::prelude::*;

verus! {

/// A path as the contracts see it.
pub type Path = Seq<char>;

/// The paths that a vector of strings holds, in order.
pub open spec fn paths_of(strings: Seq<String>) -> Seq<Path> {
    Seq::new(strings.len(), |i: int| strings[i]@)
}

/// The history after `path` was chosen: a path already in it leaves it as it
/// is, a new one goes to its end.
pub open spec fn record(history: Seq<Path>, path: Path) -> Seq<Path> {
    if history.contains(path) {
        history
    } else {
        history.push(path)
    }
}

/// The history after each of `chosen` was chosen, one after the other.
pub open spec fn record_all(history: Seq<Path>, chosen: Seq<Path>) -> Seq<Path>
    decreases chosen.len(),
{
    if chosen.len() == 0 {
        history
    } else {
        record(record_all(history, chosen.drop_last()), chosen.last())
    }
}

/// `earlier` is chosen somewhere in `chosen` before `later` is chosen for the
/// first time, if it ever is.
pub open spec fn chosen_before(chosen: Seq<Path>, earlier: Path, later: Path) -> bool {
    exists|k: int|
        0 <= k < chosen.len() && #[trigger] chosen[k] == earlier && !chosen.subrange(
            0,
            k + 1,
        ).contains(later)
}

/// Tells whether `path` is one of `history`, by its characters.
pub fn contains_path(history: &Vec<String>, path: &String) -> (found: bool)
    ensures
        found == paths_of(history@).contains(path@),
{
    let mut i: usize = 0;
    while i < history.len()
        invariant
            i <= history.len(),
            forall|k: int| 0 <= k < i ==> paths_of(history@)[k] != path@,
        decreases history.len() - i,
    {
        if history[i] == *path {
            assert(paths_of(history@)[i as int] == path@);
            return true;
        }
        i += 1;
    }
    false
}

/// Records `path` in `history`: appended if it is new, else nothing changes.
pub fn remember(history: &mut Vec<String>, path: &String)
    ensures
        paths_of(final(history)@) == record(paths_of(old(history)@), path@),
        paths_of(old(history)@).contains(path@) ==> *final(history) == *old(history),
{
    if !contains_path(history, path) {
        history.push(path.clone());
    }
}

/// Choosing a path that was just chosen changes nothing: the history after the
/// second choice is the history after the first.
pub proof fn lemma_record_twice(history: Seq<Path>, path: Path)
    ensures
        record(history, path).contains(path),
        record(record(history, path), path) == record(history, path),
{
    if history.contains(path) {
    } else {
        assert(history.push(path)[history.len() as int] == path);
    }
}

/// Choosing a path keeps what the history held, in place, and adds at most the
/// chosen path; a history without repeats stays without repeats.
pub proof fn lemma_record_extends(history: Seq<Path>, path: Path)
    ensures
        history.is_prefix_of(record(history, path)),
        forall|p: Path|
            record(history, path).contains(p) <==> history.contains(p) || p == path,
        history.no_duplicates() ==> record(history, path).no_duplicates(),
{
    let after = record(history, path);
    if history.contains(path) {
    } else {
        assert(after[history.len() as int] == path);
        assert forall|p: Path| after.contains(p) implies history.contains(p) || p == path by {
            let i = choose|i: int| 0 <= i < after.len() && after[i] == p;
            if i < history.len() {
                assert(history[i] == p);
            }
        }
        assert forall|p: Path| history.contains(p) implies after.contains(p) by {
            let i = choose|i: int| 0 <= i < history.len() && history[i] == p;
            assert(after[i] == p);
        }
    }
}

/// Whatever paths are chosen, and in whatever order, the history holds each
/// distinct path exactly once, in the order in which each was first chosen:
/// nothing is repeated; what was there before stays in front, untouched; the
/// history holds the earlier paths and the chosen ones, and no others; and of
/// two paths that were added, the one that stands first was chosen before the
/// other was ever chosen.
pub proof fn lemma_record_all_first_seen(history: Seq<Path>, chosen: Seq<Path>)
    requires
        history.no_duplicates(),
    ensures
        record_all(history, chosen).no_duplicates(),
        history.is_prefix_of(record_all(history, chosen)),
        forall|p: Path|
            record_all(history, chosen).contains(p) <==> history.contains(p) || chosen.contains(p),
        forall|i: int, j: int|
            history.len() <= i < j < record_all(history, chosen).len() ==> chosen_before(
                chosen,
                #[trigger] record_all(history, chosen)[i],
                #[trigger] record_all(history, chosen)[j],
            ),
    decreases chosen.len(),
{
    let after = record_all(history, chosen);
    if chosen.len() == 0 {
        assert forall|p: Path| !chosen.contains(p) by {}
    } else {
        let front = chosen.drop_last();
        let path = chosen.last();
        let before = record_all(history, front);
        lemma_record_all_first_seen(history, front);
        lemma_record_extends(before, path);
        assert forall|p: Path| chosen.contains(p) <==> front.contains(p) || p == path by {
            if chosen.contains(p) {
                let k = choose|k: int| 0 <= k < chosen.len() && chosen[k] == p;
                if k < front.len() {
                    assert(front[k] == p);
                }
            }
            if front.contains(p) {
                let k = choose|k: int| 0 <= k < front.len() && front[k] == p;
                assert(chosen[k] == p);
            }
        }
        assert forall|i: int, j: int| history.len() <= i < j < after.len() implies chosen_before(
            chosen,
            #[trigger] after[i],
            #[trigger] after[j],
        ) by {
            if j < before.len() {
                // both were added by the earlier choices: the place that
                // witnesses their order there witnesses it here
                let k = choose|k: int|
                    0 <= k < front.len() && #[trigger] front[k] == before[i] && !front.subrange(
                        0,
                        k + 1,
                    ).contains(before[j]);
                assert(chosen.subrange(0, k + 1) =~= front.subrange(0, k + 1));
                assert(chosen[k] == after[i]);
            } else {
                // `after[j]` is the last choice, and it was new: it occurs
                // nowhere among the earlier choices, while `after[i]`, which
                // the earlier choices added, occurs among them
                assert(after[j] == path && !front.contains(path));
                assert(before.contains(before[i]));
                if history.contains(before[i]) {
                    let m = choose|m: int| 0 <= m < history.len() && history[m] == before[i];
                    assert(before[m] == before[i]);
                }
                let k = choose|k: int| 0 <= k < front.len() && front[k] == before[i];
                assert(chosen[k] == after[i]);
                assert(chosen.subrange(0, k + 1) =~= front.subrange(0, k + 1));
            }
        }
    }
}

} // verus!
