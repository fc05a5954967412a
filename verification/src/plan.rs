//! What the launcher does for a command line: the steps, in order, and the
//! status it ends with. The steps are values; carrying them out is the
//! caller's part.

use crate::command::{
    parse_command, parsed, unsupported_message, unsupported_text, usage_text, Command,
    CommandView,
};
use crate::config_file::{
    config_file_name, config_file_name_text, config_text, standard_config, standard_config_text,
};
use crate::image::{canonical_image, resolve_image};
use crate::platform::{config_root_of, joined, missing_home_text, Platform};
use crate::text::{text_of, texts};
use crate::tool::{tool_invocation, vagrant, Invocation, InvocationView};
use vstd::prelude::*;
use vstd::string::*;

verus! {

/// One step of the launcher.
#[derive(Clone, Debug, PartialEq, Eq)]
pub enum Action {
    /// Make the directory, and the directories above it, unless they exist.
    EnsureDir { path: String },
    /// Write the file, in place of whatever it held.
    WriteFile { path: String, text: String },
    /// Start the program, wait for it, then pass on what it wrote: first
    /// its standard output, then its standard error.
    Run { invocation: Invocation },
    /// Print the line on standard output.
    Print { line: String },
}

/// The mathematical content of an [`Action`].
pub enum ActionView {
    EnsureDir { path: Seq<char> },
    WriteFile { path: Seq<char>, text: Seq<char> },
    Run { invocation: InvocationView },
    Print { line: Seq<char> },
}

impl View for Action {
    type V = ActionView;

    open spec fn view(&self) -> ActionView {
        match self {
            Action::EnsureDir { path } => ActionView::EnsureDir { path: path@ },
            Action::WriteFile { path, text } => ActionView::WriteFile { path: path@, text: text@ },
            Action::Run { invocation } => ActionView::Run { invocation: invocation@ },
            Action::Print { line } => ActionView::Print { line: line@ },
        }
    }
}

/// The contents of a sequence of actions.
pub open spec fn action_views(actions: Seq<Action>) -> Seq<ActionView> {
    actions.map_values(|a: Action| a@)
}

/// The steps of one run of the launcher, and the status it exits with.
#[derive(Clone, Debug, PartialEq, Eq)]
pub struct Plan {
    pub actions: Vec<Action>,
    pub exit_code: i32,
}

/// The mathematical content of a [`Plan`].
pub struct PlanView {
    pub actions: Seq<ActionView>,
    pub exit_code: int,
}

impl View for Plan {
    type V = PlanView;

    open spec fn view(&self) -> PlanView {
        PlanView { actions: action_views(self.actions@), exit_code: self.exit_code as int }
    }
}

/// The directory of the machine `vm_id` below the configuration root.
pub open spec fn vm_dir_of(
    platform: Platform,
    config_root: Seq<char>,
    vm_id: Seq<char>,
) -> Seq<char> {
    joined(platform, config_root, vm_id)
}

/// The step that writes a machine's configuration file.
pub open spec fn vagrantfile_action(
    platform: Platform,
    vm_root: Seq<char>,
    image: Seq<char>,
    working_dir: Seq<char>,
) -> ActionView {
    ActionView::WriteFile {
        path: joined(platform, vm_root, config_file_name_text()),
        text: config_text(standard_config(image, working_dir)),
    }
}

/// The steps of `create`: the machine's directory, then its configuration
/// file with the image that `image` stands for. Without a working
/// directory there is nothing to share with the guest, and no file is
/// written.
pub open spec fn create_actions(
    platform: Platform,
    config_root: Seq<char>,
    image: Seq<char>,
    vm_id: Seq<char>,
    working_dir: Option<Seq<char>>,
) -> Seq<ActionView> {
    let vm_root = vm_dir_of(platform, config_root, vm_id);
    match working_dir {
        Some(dir) => seq![
            ActionView::EnsureDir { path: vm_root },
            vagrantfile_action(platform, vm_root, canonical_image(image), dir),
        ],
        None => seq![ActionView::EnsureDir { path: vm_root }],
    }
}

/// The steps of `up`: the machine's directory, then the tool, started in
/// it. The configuration file is left as it is.
pub open spec fn up_actions(
    platform: Platform,
    config_root: Seq<char>,
    vm_id: Seq<char>,
) -> Seq<ActionView> {
    let vm_root = vm_dir_of(platform, config_root, vm_id);
    seq![
        ActionView::EnsureDir { path: vm_root },
        ActionView::Run { invocation: tool_invocation(platform, "up"@, vm_root) },
    ]
}

/// The steps of a command.
pub open spec fn command_actions(
    platform: Platform,
    config_root: Seq<char>,
    command: CommandView,
    working_dir: Option<Seq<char>>,
) -> Seq<ActionView> {
    match command {
        CommandView::Create { image, vm_id } => create_actions(
            platform,
            config_root,
            image,
            vm_id,
            working_dir,
        ),
        CommandView::Up { vm_id } => up_actions(platform, config_root, vm_id),
        CommandView::Unsupported { name } => seq![
            ActionView::Print { line: unsupported_text(name) },
        ],
    }
}

/// One run of the launcher.
///
/// Without a base directory it prints which variable is missing and ends
/// with status 1, having done nothing else. Otherwise it first makes sure
/// of the configuration root. A command line that names too little is
/// then reported, with status 2; an unknown subcommand is reported with
/// status 0; `create` and `up` take their steps and end with status 0.
pub open spec fn planned(
    platform: Platform,
    home: Option<Seq<char>>,
    args: Seq<Seq<char>>,
    working_dir: Option<Seq<char>>,
) -> PlanView {
    match home {
        None => PlanView {
            actions: seq![ActionView::Print { line: missing_home_text(platform) }],
            exit_code: 1,
        },
        Some(base) => {
            let root = config_root_of(platform, base);
            match parsed(args) {
                Err(error) => PlanView {
                    actions: seq![
                        ActionView::EnsureDir { path: root },
                        ActionView::Print { line: usage_text(error) },
                    ],
                    exit_code: 2,
                },
                Ok(command) => PlanView {
                    actions: seq![ActionView::EnsureDir { path: root }] + command_actions(
                        platform,
                        root,
                        command,
                        working_dir,
                    ),
                    exit_code: 0,
                },
            }
        },
    }
}

/// The step that writes the configuration file of the machine in
/// `vm_root`, made from the base image `image` while the launcher runs in
/// `working_dir`.
pub fn create_vagrantfile(
    platform: Platform,
    vm_root: &str,
    image: &str,
    working_dir: &str,
) -> (r: Action)
    ensures
        r@ == vagrantfile_action(platform, vm_root@, image@, working_dir@),
{
    Action::WriteFile {
        path: platform.join(vm_root, config_file_name()),
        text: standard_config_text(image, working_dir),
    }
}

/// The steps of `create` for the machine `vm_id`, made from `image`.
pub fn create(
    platform: Platform,
    config_root: &str,
    image: &str,
    vm_id: &str,
    working_dir: Option<&str>,
) -> (r: Vec<Action>)
    ensures
        action_views(r@) == create_actions(
            platform,
            config_root@,
            image@,
            vm_id@,
            text_of(working_dir),
        ),
{
    let vm_root = platform.join(config_root, vm_id);
    let base_image = resolve_image(image);
    let mut actions: Vec<Action> = Vec::new();
    match working_dir {
        Some(dir) => {
            let write = create_vagrantfile(platform, vm_root.as_str(), base_image.as_str(), dir);
            actions.push(Action::EnsureDir { path: vm_root });
            actions.push(write);
        },
        None => {
            actions.push(Action::EnsureDir { path: vm_root });
        },
    }
    assert(action_views(actions@) =~= create_actions(
        platform,
        config_root@,
        image@,
        vm_id@,
        text_of(working_dir),
    ));
    actions
}

/// The steps of `up` for the machine `vm_id`.
pub fn up(platform: Platform, config_root: &str, vm_id: &str) -> (r: Vec<Action>)
    ensures
        action_views(r@) == up_actions(platform, config_root@, vm_id@),
{
    let vm_root = platform.join(config_root, vm_id);
    let invocation = vagrant(platform, "up", vm_root.as_str());
    let mut actions: Vec<Action> = Vec::new();
    actions.push(Action::EnsureDir { path: vm_root });
    actions.push(Action::Run { invocation });
    assert(action_views(actions@) =~= up_actions(platform, config_root@, vm_id@));
    actions
}

/// Plans one run of the launcher: `home` is the value of the platform's
/// base-directory variable, `args` the whole command line, `working_dir`
/// the directory that the launcher runs in, each absent where it could not
/// be had.
pub fn launch(
    platform: Platform,
    home: Option<&str>,
    args: &Vec<String>,
    working_dir: Option<&str>,
) -> (r: Plan)
    ensures
        r@ == planned(platform, text_of(home), texts(args@), text_of(working_dir)),
{
    let mut actions: Vec<Action> = Vec::new();
    let base = match home {
        Some(base) => base,
        None => {
            actions.push(Action::Print { line: platform.missing_home_message() });
            assert(action_views(actions@) =~= seq![
                ActionView::Print { line: missing_home_text(platform) },
            ]);
            return Plan { actions, exit_code: 1 };
        },
    };
    let root = platform.config_root(base);
    let ghost goal = planned(platform, text_of(home), texts(args@), text_of(working_dir));
    let mut exit_code: i32 = 0;
    let mut rest: Vec<Action> = match parse_command(args) {
        Err(error) => {
            exit_code = 2;
            let mut steps: Vec<Action> = Vec::new();
            steps.push(Action::Print { line: error.message() });
            steps
        },
        Ok(Command::Create { image, vm_id }) => create(
            platform,
            root.as_str(),
            image.as_str(),
            vm_id.as_str(),
            working_dir,
        ),
        Ok(Command::Up { vm_id }) => up(platform, root.as_str(), vm_id.as_str()),
        Ok(Command::Unsupported { name }) => {
            let mut steps: Vec<Action> = Vec::new();
            steps.push(Action::Print { line: unsupported_message(name.as_str()) });
            steps
        },
    };
    actions.push(Action::EnsureDir { path: root });
    let ghost first = actions@;
    let ghost tail = rest@;
    actions.append(&mut rest);
    assert(action_views(first + tail) =~= action_views(first) + action_views(tail));
    assert(action_views(actions@) =~= goal.actions);
    Plan { actions, exit_code }
}

} // verus!
