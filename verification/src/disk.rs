//! What the launcher's own steps leave on disk.
//!
//! The model holds the directories that are known to exist, each by the
//! path it was asked for, and the files with their text. It follows the
//! steps as if each succeeded. A started program writes what it will; that
//! is its own doing and not part of the model.

use crate::command::{parsed, unsupported_text};
use crate::config_file::{config_file_name_text, config_text, standard_config};
use crate::image::canonical_image;
use crate::plan::{create_actions, planned, up_actions, vm_dir_of, ActionView};
use crate::platform::{config_root_of, joined, missing_home_text, Platform};
use crate::tool::tool_invocation;
use vstd::prelude::*;

verus! {

/// The directories known to exist, and the files with their text.
pub struct Disk {
    pub dirs: Set<Seq<char>>,
    pub files: Map<Seq<char>, Seq<char>>,
}

/// The disk after one step.
pub open spec fn after_action(disk: Disk, action: ActionView) -> Disk {
    match action {
        ActionView::EnsureDir { path } => Disk { dirs: disk.dirs.insert(path), files: disk.files },
        ActionView::WriteFile { path, text } => Disk {
            dirs: disk.dirs,
            files: disk.files.insert(path, text),
        },
        ActionView::Run { invocation } => disk,
        ActionView::Print { line } => disk,
    }
}

/// The disk after a sequence of steps, taken in order.
pub open spec fn after_actions(disk: Disk, actions: Seq<ActionView>) -> Disk
    decreases actions.len(),
{
    if actions.len() == 0 {
        disk
    } else {
        after_action(after_actions(disk, actions.drop_last()), actions.last())
    }
}

/// The disk after a single step is the disk after that step.
pub proof fn lemma_after_one(disk: Disk, a: ActionView)
    ensures
        after_actions(disk, seq![a]) == after_action(disk, a),
{
    reveal_with_fuel(after_actions, 2);
    assert(seq![a].drop_last() =~= Seq::<ActionView>::empty());
}

/// The disk after two steps is the disk after the first, then the second.
pub proof fn lemma_after_two(disk: Disk, a: ActionView, b: ActionView)
    ensures
        after_actions(disk, seq![a, b]) == after_action(after_action(disk, a), b),
{
    assert(seq![a, b].drop_last() =~= seq![a]);
    lemma_after_one(disk, a);
}

/// `create` twice is `create` once: taking its steps a second time, for
/// the same image and machine and in the same working directory, leaves
/// the disk as the first time left it. With a working directory, the
/// machine's configuration file then holds the text for the image that
/// the name stands for.
pub proof fn lemma_create_is_idempotent(
    platform: Platform,
    config_root: Seq<char>,
    image: Seq<char>,
    vm_id: Seq<char>,
    working_dir: Option<Seq<char>>,
    disk: Disk,
)
    ensures
        ({
            let steps = create_actions(platform, config_root, image, vm_id, working_dir);
            let once = after_actions(disk, steps);
            let vm_root = vm_dir_of(platform, config_root, vm_id);
            let path = joined(platform, vm_root, config_file_name_text());
            &&& after_actions(once, steps) == once
            &&& once.dirs == disk.dirs.insert(vm_root)
            &&& working_dir matches Some(dir) ==> once.files == disk.files.insert(
                path,
                config_text(standard_config(canonical_image(image), dir)),
            )
            &&& working_dir is None ==> once.files == disk.files
        }),
{
    let steps = create_actions(platform, config_root, image, vm_id, working_dir);
    let once = after_actions(disk, steps);
    let vm_root = vm_dir_of(platform, config_root, vm_id);
    match working_dir {
        Some(dir) => {
            lemma_after_two(disk, steps[0], steps[1]);
            lemma_after_two(once, steps[0], steps[1]);
            assert(steps =~= seq![steps[0], steps[1]]);
            let twice = after_actions(once, steps);
            assert(twice.dirs =~= once.dirs);
            assert(twice.files =~= once.files);
        },
        None => {
            lemma_after_one(disk, steps[0]);
            lemma_after_one(once, steps[0]);
            assert(steps =~= seq![steps[0]]);
            let twice = after_actions(once, steps);
            assert(twice.dirs =~= once.dirs);
        },
    }
}

/// `up` writes no file: it makes sure of the machine's directory and
/// starts the tool in it, also for a machine that was never created.
pub proof fn lemma_up_writes_no_file(
    platform: Platform,
    config_root: Seq<char>,
    vm_id: Seq<char>,
    disk: Disk,
)
    ensures
        ({
            let steps = up_actions(platform, config_root, vm_id);
            let vm_root = vm_dir_of(platform, config_root, vm_id);
            &&& after_actions(disk, steps).files == disk.files
            &&& after_actions(disk, steps).dirs == disk.dirs.insert(vm_root)
            &&& steps.len() == 2
            &&& steps[1] == ActionView::Run {
                invocation: tool_invocation(platform, "up"@, vm_root),
            }
        }),
{
    let steps = up_actions(platform, config_root, vm_id);
    lemma_after_two(disk, steps[0], steps[1]);
    assert(steps =~= seq![steps[0], steps[1]]);
}

/// An unknown subcommand is reported and nothing more: once the
/// configuration root is made sure of, the launcher prints the
/// subcommand's name and ends with status 0. No file is written and no
/// other directory asked for.
pub proof fn lemma_unsupported_only_reports(
    platform: Platform,
    home: Seq<char>,
    args: Seq<Seq<char>>,
    working_dir: Option<Seq<char>>,
    disk: Disk,
)
    requires
        parsed(args) is Ok,
        parsed(args)->Ok_0 is Unsupported,
    ensures
        ({
            let plan = planned(platform, Some(home), args, working_dir);
            let root = config_root_of(platform, home);
            &&& plan.exit_code == 0
            &&& plan.actions == seq![
                ActionView::EnsureDir { path: root },
                ActionView::Print { line: unsupported_text(args[1]) },
            ]
            &&& after_actions(disk, plan.actions).files == disk.files
            &&& after_actions(disk, plan.actions).dirs == disk.dirs.insert(root)
        }),
{
    let plan = planned(platform, Some(home), args, working_dir);
    let root = config_root_of(platform, home);
    let a = ActionView::EnsureDir { path: root };
    let b = ActionView::Print { line: unsupported_text(args[1]) };
    assert(plan.actions =~= seq![a, b]);
    lemma_after_two(disk, a, b);
}

/// Without a base directory nothing is done: the launcher prints which
/// variable is missing and ends with status 1, and the disk is as it was.
pub proof fn lemma_missing_home_changes_nothing(
    platform: Platform,
    args: Seq<Seq<char>>,
    working_dir: Option<Seq<char>>,
    disk: Disk,
)
    ensures
        ({
            let plan = planned(platform, None, args, working_dir);
            &&& plan.exit_code == 1
            &&& plan.actions == seq![ActionView::Print { line: missing_home_text(platform) }]
            &&& after_actions(disk, plan.actions) == disk
        }),
{
    lemma_after_one(disk, ActionView::Print { line: missing_home_text(platform) });
}

} // verus!
