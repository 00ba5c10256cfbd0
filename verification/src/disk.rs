//! What an installation leaves of the files that were on the disk before it
//! began. The steps of a plan are followed on a set of paths, the files and
//! directories of before, under the reading of each step that its name
//! gives: removing a tree removes what lies below it, writing a file
//! replaces it, moving a directory moves what lies below it. What an
//! installation creates is not in the set.

use vstd::prelude::*;
use crate::agent_config::ScriptConfigView;
use crate::archive::{entry_steps, extraction, unpacking};
use crate::failure::{Arch, Platform, Runtime};
use crate::paths::{is_separator, joined, parent_of};
use crate::plan::StepView;
use crate::provision::{
    asset_of,
    binary_path,
    fetching,
    plan_of,
    preparation,
    settling,
    unpack_dir,
};

verus! {

/// True when `path` is `dir` or lies below it.
pub open spec fn is_below(dir: Seq<char>, path: Seq<char>) -> bool {
    path == dir || (dir.len() < path.len() && path.take(dir.len() as int) == dir && (is_separator(
        path[dir.len() as int],
    ) || (dir.len() > 0 && is_separator(dir.last()))))
}

/// True when nothing of `old` is `dir` or lies below it.
pub open spec fn none_below(dir: Seq<char>, old: Set<Seq<char>>) -> bool {
    forall|p: Seq<char>| #[trigger] old.contains(p) ==> !is_below(dir, p)
}

/// `old` without what lies below `dir`.
pub open spec fn without_tree(old: Set<Seq<char>>, dir: Seq<char>) -> Set<Seq<char>> {
    Set::new(|p: Seq<char>| old.contains(p) && !is_below(dir, p))
}

/// Where what lay below `from` is after `from` has become `to`.
pub open spec fn moved(old: Set<Seq<char>>, from: Seq<char>, to: Seq<char>) -> Set<Seq<char>> {
    Set::new(
        |p: Seq<char>|
            exists|tail: Seq<char>|
                p == to + tail && #[trigger] old.contains(from + tail) && is_below(
                    from,
                    from + tail,
                ),
    )
}

/// What is left of the files of before when a step has succeeded. A step
/// that may leave a file as it was counts as leaving it.
pub open spec fn left_by(step: StepView, old: Set<Seq<char>>) -> Set<Seq<char>> {
    match step {
        StepView::RemoveTree { path } => without_tree(old, path),
        StepView::ClearTree { path } => without_tree(old, path),
        StepView::WriteFile { path, data } => old.remove(path),
        StepView::CreateFile { path } => old.remove(path),
        StepView::SaveBody { path } => old.remove(path),
        StepView::Rename { from, to } => without_tree(old, from).union(moved(old, from, to)),
        _ => old,
    }
}

/// What is left of the files of before when all the steps have succeeded,
/// one after the other.
pub open spec fn left_after(steps: Seq<StepView>, old: Set<Seq<char>>) -> Set<Seq<char>>
    decreases steps.len(),
{
    if steps.len() == 0 {
        old
    } else {
        left_after(steps.drop_first(), left_by(steps[0], old))
    }
}

/// True when no step moves anything.
pub open spec fn moves_nothing(steps: Seq<StepView>) -> bool {
    forall|i: int| 0 <= i < steps.len() ==> !(#[trigger] steps[i] is Rename)
}

proof fn lemma_left_after_both(a: Seq<StepView>, b: Seq<StepView>, old: Set<Seq<char>>)
    ensures
        left_after(a + b, old) == left_after(b, left_after(a, old)),
    decreases a.len(),
{
    if a.len() == 0 {
        assert(a + b == b);
    } else {
        assert((a + b)[0] == a[0]);
        assert((a + b).drop_first() == a.drop_first() + b);
        lemma_left_after_both(a.drop_first(), b, left_by(a[0], old));
    }
}

proof fn lemma_left_after_one(step: StepView, old: Set<Seq<char>>)
    ensures
        left_after(seq![step], old) == left_by(step, old),
{
    let steps = seq![step];
    assert(steps[0] == step);
    assert(steps.drop_first() =~= Seq::<StepView>::empty());
    assert(left_after(steps.drop_first(), left_by(step, old)) == left_by(step, old));
}

/// A step that moves nothing leaves no more than there was.
proof fn lemma_step_only_removes(step: StepView, old: Set<Seq<char>>)
    requires
        !(step is Rename),
    ensures
        left_by(step, old).subset_of(old),
{
}

/// Steps that move nothing leave no more than there was.
pub proof fn lemma_steps_only_remove(steps: Seq<StepView>, old: Set<Seq<char>>)
    requires
        moves_nothing(steps),
    ensures
        left_after(steps, old).subset_of(old),
    decreases steps.len(),
{
    if steps.len() > 0 {
        let rest = steps.drop_first();
        assert(!(steps[0] is Rename));
        lemma_step_only_removes(steps[0], old);
        assert forall|i: int| 0 <= i < rest.len() implies !(#[trigger] rest[i] is Rename) by {
            assert(rest[i] == steps[i + 1]);
        }
        lemma_steps_only_remove(rest, left_by(steps[0], old));
    }
}

proof fn lemma_fewer_stay_clear(dir: Seq<char>, fewer: Set<Seq<char>>, old: Set<Seq<char>>)
    requires
        fewer.subset_of(old),
        none_below(dir, old),
    ensures
        none_below(dir, fewer),
{
    assert forall|p: Seq<char>| #[trigger] fewer.contains(p) implies !is_below(dir, p) by {
        assert(old.contains(p));
    }
}

/// Where nothing of before lies below `dir`, steps that move nothing leave
/// it so.
proof fn lemma_stays_clear(dir: Seq<char>, steps: Seq<StepView>, old: Set<Seq<char>>)
    requires
        moves_nothing(steps),
        none_below(dir, old),
    ensures
        none_below(dir, left_after(steps, old)),
{
    lemma_steps_only_remove(steps, old);
    lemma_fewer_stay_clear(dir, left_after(steps, old), old);
}

/// Unpacking an archive moves nothing, whatever the archive holds.
pub proof fn lemma_unpacking_moves_nothing(
    dest: Seq<char>,
    listing: Result<Seq<(Seq<char>, Result<Seq<u8>, Seq<char>>)>, Seq<char>>,
)
    ensures
        moves_nothing(unpacking(dest, listing)),
{
    match listing {
        Ok(entries) => lemma_extraction_moves_nothing(dest, entries),
        Err(message) => {},
    }
}

proof fn lemma_extraction_moves_nothing(
    dest: Seq<char>,
    entries: Seq<(Seq<char>, Result<Seq<u8>, Seq<char>>)>,
)
    ensures
        moves_nothing(extraction(dest, entries)),
    decreases entries.len(),
{
    if entries.len() > 0 {
        match entries[0].1 {
            Ok(data) => {
                let first = entry_steps(dest, entries[0].0, data);
                let more = extraction(dest, entries.drop_first());
                lemma_extraction_moves_nothing(dest, entries.drop_first());
                assert forall|i: int| 0 <= i < (first + more).len() implies !(#[trigger] (first
                    + more)[i] is Rename) by {
                    if i >= first.len() {
                        assert((first + more)[i] == more[i - first.len()]);
                    }
                }
            },
            Err(message) => {},
        }
    }
}

/// Unpacking an archive leaves no more of the files of before than there
/// were: to count the step that unpacks as leaving everything is to count
/// too much, never too little.
pub proof fn lemma_unpacking_only_removes(
    dest: Seq<char>,
    listing: Result<Seq<(Seq<char>, Result<Seq<u8>, Seq<char>>)>, Seq<char>>,
    old: Set<Seq<char>>,
)
    ensures
        left_after(unpacking(dest, listing), old).subset_of(old),
{
    lemma_unpacking_moves_nothing(dest, listing);
    lemma_steps_only_remove(unpacking(dest, listing), old);
}

proof fn lemma_tree_is_clear(dir: Seq<char>, old: Set<Seq<char>>)
    ensures
        none_below(dir, without_tree(old, dir)),
        without_tree(old, dir).subset_of(old),
{
}

/// Moving a directory below which nothing of before lies brings nothing
/// of before to where it is moved to.
proof fn lemma_move_brings_nothing(
    from: Seq<char>,
    to: Seq<char>,
    dir: Seq<char>,
    old: Set<Seq<char>>,
)
    requires
        none_below(from, old),
        none_below(dir, old),
    ensures
        none_below(dir, left_by(StepView::Rename { from, to }, old)),
{
    let left = left_by(StepView::Rename { from, to }, old);
    assert forall|p: Seq<char>| #[trigger] left.contains(p) implies !is_below(dir, p) by {
        if moved(old, from, to).contains(p) {
            let tail = choose|tail: Seq<char>|
                p == to + tail && #[trigger] old.contains(from + tail) && is_below(
                    from,
                    from + tail,
                );
            assert(old.contains(from + tail));
        } else {
            assert(old.contains(p));
        }
    }
}

/// A forced installation leaves nothing of an earlier one. When all the
/// steps of its plan have succeeded, whatever the archive held, none of the
/// files and directories that were there before lies in the directory of
/// the interpreter.
pub proof fn lemma_forced_install_leaves_nothing_old(
    runtime: Runtime,
    config: ScriptConfigView,
    platform: Platform,
    arch: Arch,
    delay: u64,
    old: Set<Seq<char>>,
)
    requires
        parent_of(binary_path(runtime, config)) is Some,
    ensures
        none_below(
            parent_of(binary_path(runtime, config))->Some_0,
            left_after(plan_of(runtime, config, true, platform, arch, delay), old),
        ),
{
    let install_dir = parent_of(binary_path(runtime, config))->Some_0;
    let steps = plan_of(runtime, config, true, platform, arch, delay);
    let removal = seq![StepView::ClearTree { path: install_dir }];
    let cleared = without_tree(old, install_dir);
    lemma_tree_is_clear(install_dir, old);
    lemma_left_after_one(StepView::ClearTree { path: install_dir }, old);
    match (parent_of(install_dir), asset_of(runtime, platform, arch)) {
        (Some(runtime_dir), Some(asset)) => {
            let waiting = seq![StepView::Pause { seconds: delay }];
            let preparing = preparation(runtime, config, true, install_dir, runtime_dir, asset);
            let fetched = fetching(
                asset.url,
                config.proxy,
                unpack_dir(install_dir, runtime_dir, asset),
                asset.file_name,
            );
            let settled = settling(install_dir, runtime_dir, asset);
            let checking = seq![StepView::Require { path: binary_path(runtime, config) }];
            assert(steps == removal + waiting + preparing + fetched + settled + checking);
            lemma_left_after_both(
                removal + waiting + preparing + fetched + settled,
                checking,
                old,
            );
            lemma_left_after_both(removal + waiting + preparing + fetched, settled, old);
            lemma_left_after_both(removal + waiting + preparing, fetched, old);
            lemma_left_after_both(removal + waiting, preparing, old);
            lemma_left_after_both(removal, waiting, old);
            let d1 = left_after(waiting, cleared);
            lemma_stays_clear(install_dir, waiting, cleared);
            let d2 = left_after(preparing, d1);
            lemma_stays_clear(install_dir, preparing, d1);
            let d3 = left_after(fetched, d2);
            lemma_stays_clear(install_dir, fetched, d2);
            match asset.top_dir {
                Some(top) => {
                    let staged = joined(runtime_dir, top);
                    let clearing = seq![StepView::ClearTree { path: staged }];
                    let making = seq![StepView::CreateDirs { path: runtime_dir }];
                    assert(preparing =~= clearing + making);
                    lemma_left_after_both(clearing, making, d1);
                    let c2 = without_tree(d1, staged);
                    lemma_tree_is_clear(staged, d1);
                    lemma_left_after_one(StepView::ClearTree { path: staged }, d1);
                    lemma_stays_clear(staged, making, c2);
                    assert(none_below(staged, d2));
                    lemma_stays_clear(staged, fetched, d2);
                    let s1 = without_tree(d3, install_dir);
                    lemma_tree_is_clear(install_dir, d3);
                    lemma_fewer_stay_clear(staged, s1, d3);
                    lemma_move_brings_nothing(staged, install_dir, install_dir, s1);
                    assert(left_after(settled, d3) == left_by(
                        StepView::Rename { from: staged, to: install_dir },
                        s1,
                    )) by {
                        let clear = seq![StepView::ClearTree { path: install_dir }];
                        let require = seq![StepView::Require { path: staged }];
                        let rename = seq![StepView::Rename { from: staged, to: install_dir }];
                        assert(settled =~= clear + (require + rename));
                        lemma_left_after_both(clear, require + rename, d3);
                        lemma_left_after_both(require, rename, s1);
                        lemma_left_after_one(StepView::ClearTree { path: install_dir }, d3);
                        lemma_left_after_one(StepView::Require { path: staged }, s1);
                        lemma_left_after_one(
                            StepView::Rename { from: staged, to: install_dir },
                            s1,
                        );
                    }
                },
                None => {
                    lemma_stays_clear(install_dir, settled, d3);
                },
            }
            lemma_stays_clear(install_dir, checking, left_after(settled, d3));
        },
        (Some(runtime_dir), None) => {
            let failing = steps.drop_first();
            assert(steps =~= removal + failing);
            lemma_left_after_both(removal, failing, old);
            lemma_stays_clear(install_dir, failing, cleared);
        },
        (None, _) => {
            let failing = steps.drop_first();
            assert(steps =~= removal + failing);
            lemma_left_after_both(removal, failing, old);
            lemma_stays_clear(install_dir, failing, cleared);
        },
    }
}

} // verus!
