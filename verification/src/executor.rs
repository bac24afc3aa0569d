//! Carrying out a plan, one outside operation at a time.
//!
//! The library never runs a program itself. [`Executor::begin`] and
//! [`Executor::advance`] say what has to be reported and which operation comes
//! next; the caller performs it and comes back with what happened. In a dry
//! run the first step already ends the run: it lists what would be done and
//! asks for nothing.

use vstd::prelude::*;
use crate::config::{ConfigView, InstallConfig};
use crate::planner::{installation_plan, plan_installation, InstallPlan, PlanView};
use crate::text::{glue, opt_text, push_line, push_lines, str_eq, texts};

verus! {

/// What a report is about.
#[derive(Debug, Clone, Copy, PartialEq, Eq, Structural)]
pub enum NoticeKind {
    /// A dry run starts.
    PreviewStarting,
    /// The helper named in the details would be installed.
    WouldInstallHelper,
    /// The packages in the details would come from the official repositories.
    WouldInstallOfficial,
    /// The packages in the details would come from the user repository.
    WouldInstallFromAur,
    /// The services in the details would be enabled.
    WouldEnableServices,
    /// The user's standard directories would be created.
    WouldInitUserDirs,
    /// The dry run is over and nothing was changed.
    PreviewComplete,
    /// A live run starts.
    Starting,
    /// The helper named in the details is looked for.
    InstallingHelper,
    /// The helper is there already.
    HelperAlreadyInstalled,
    /// No user name could be had: the helper has to be installed by hand.
    HelperNeedsUser,
    /// Packages cannot be built as `root`: the helper has to be installed by hand.
    HelperRefusedAsRoot,
    /// The build tools are installed.
    InstallingBuildTools,
    /// The helper's build recipe is cloned.
    CloningHelper,
    /// The clone failed. The details name the helper and the directory in
    /// which `git clone` and `makepkg -si` complete it by hand.
    CloneFailed,
    /// The helper is built and installed.
    BuildingHelper,
    /// The helper was built and installed.
    HelperInstalled,
    /// The build failed. The details name the helper and the directory in
    /// which `makepkg -si` completes it by hand.
    HelperBuildFailed,
    /// The official packages are installed.
    InstallingOfficial,
    /// The package manager reported success.
    OfficialInstalled,
    /// The package manager failed; the run goes on.
    OfficialFailed,
    /// The user repository packages are installed.
    InstallingFromAur,
    /// No helper is there: the packages in the details need manual installation.
    ManualInstallRequired,
    /// The helper reported success.
    AurInstalled,
    /// The helper failed; the run goes on.
    AurFailed,
    /// The service in the details is enabled.
    EnablingService,
    /// The service was enabled.
    ServiceEnabled,
    /// The service could not be enabled; the run goes on.
    ServiceFailed,
    /// The user's standard directories are created.
    InitUserDirs,
    /// They were created.
    UserDirsCreated,
    /// They could not be created.
    UserDirsFailed,
    /// The live run is over.
    Complete,
}

/// Something to tell the user.
#[derive(Debug, Clone, PartialEq, Eq)]
pub struct Notice {
    pub kind: NoticeKind,
    /// The names that the report is about, if any.
    pub details: Vec<String>,
}

/// The mathematical content of a [`Notice`].
pub struct NoticeView {
    pub kind: NoticeKind,
    pub details: Seq<Seq<char>>,
}

impl View for Notice {
    type V = NoticeView;

    open spec fn view(&self) -> NoticeView {
        NoticeView { kind: self.kind, details: texts(self.details@) }
    }
}

/// The views of a list of notices, in order.
pub open spec fn notice_views(list: Seq<Notice>) -> Seq<NoticeView> {
    Seq::new(list.len(), |i: int| list[i]@)
}

/// A report without details.
pub open spec fn plain(kind: NoticeKind) -> NoticeView {
    NoticeView { kind, details: Seq::empty() }
}

/// A report about one name.
pub open spec fn about(kind: NoticeKind, name: Seq<char>) -> NoticeView {
    NoticeView { kind, details: seq![name] }
}

/// A report about a list of names.
pub open spec fn listing(kind: NoticeKind, names: Seq<Seq<char>>) -> NoticeView {
    NoticeView { kind, details: names }
}

/// The outside operation that comes next.
#[derive(Debug, Clone, PartialEq, Eq)]
pub enum Request {
    /// Run the program with the arguments and wait for it to exit. With
    /// `capture`, its output is kept from the terminal.
    Run { program: String, args: Vec<String>, capture: bool },
    /// Find out the name of the unprivileged user.
    ResolveUser,
    /// Nothing more: the run is over.
    Finish,
}

/// The mathematical content of a [`Request`].
pub enum RequestView {
    Run { program: Seq<char>, args: Seq<Seq<char>>, capture: bool },
    ResolveUser,
    Finish,
}

impl View for Request {
    type V = RequestView;

    open spec fn view(&self) -> RequestView {
        match self {
            Request::Run { program, args, capture } => RequestView::Run {
                program: program@,
                args: texts(args@),
                capture: *capture,
            },
            Request::ResolveUser => RequestView::ResolveUser,
            Request::Finish => RequestView::Finish,
        }
    }
}

/// What the outside operation came to.
#[derive(Debug, Clone, PartialEq, Eq)]
pub enum Reply {
    /// The program ran and exited, with or without success.
    Exited { success: bool },
    /// The program could not be started.
    NotStarted,
    /// The user name, if one could be had.
    User { name: Option<String> },
}

/// The mathematical content of a [`Reply`].
pub enum ReplyView {
    Exited { success: bool },
    NotStarted,
    User { name: Option<Seq<char>> },
}

impl View for Reply {
    type V = ReplyView;

    open spec fn view(&self) -> ReplyView {
        match self {
            Reply::Exited { success } => ReplyView::Exited { success: *success },
            Reply::NotStarted => ReplyView::NotStarted,
            Reply::User { name } => ReplyView::User { name: opt_text(*name) },
        }
    }
}

/// The program ran and reported success.
pub open spec fn succeeded(reply: ReplyView) -> bool {
    reply == (ReplyView::Exited { success: true })
}

/// The program could be started, whatever it reported.
pub open spec fn started(reply: ReplyView) -> bool {
    reply is Exited
}

/// The user name that the reply brings.
pub open spec fn user_of(reply: ReplyView) -> Option<Seq<char>> {
    match reply {
        ReplyView::User { name } => name,
        _ => None,
    }
}

/// What to report and what to do next.
#[derive(Debug, Clone, PartialEq, Eq)]
pub struct Step {
    pub notices: Vec<Notice>,
    pub request: Request,
}

/// The mathematical content of a [`Step`].
pub struct StepView {
    pub notices: Seq<NoticeView>,
    pub request: RequestView,
}

impl View for Step {
    type V = StepView;

    open spec fn view(&self) -> StepView {
        StepView { notices: notice_views(self.notices@), request: self.request@ }
    }
}

/// The operation whose outcome the executor waits for.
#[derive(Debug, Clone, Copy, PartialEq, Eq, Structural)]
pub enum Stage {
    /// `which <helper>`
    ProbingHelper,
    /// The name of the user who is to build the helper.
    ResolvingBuilder,
    /// `pacman` for the build tools.
    InstallingBuildTools,
    /// Removal of an earlier build directory.
    ClearingBuildDir,
    /// `git clone` of the build recipe.
    Cloning,
    /// `makepkg`.
    Building,
    /// Removal of the build directory after success.
    RemovingBuildDir,
    /// `pacman` for the official packages.
    InstallingOfficial,
    /// `yay --version`
    ProbingYay,
    /// `paru --version`
    ProbingParu,
    /// The helper, for the user repository packages.
    InstallingFromAur,
    /// `systemctl enable` for the service at `Executor::service`.
    EnablingService,
    /// The name of the user whose directories are to be created.
    ResolvingDirsUser,
    /// `xdg-user-dirs-update`
    UpdatingUserDirs,
    /// Nothing: the run is over.
    Done,
}

/// The state of a run.
#[derive(Debug, Clone, PartialEq, Eq)]
pub struct Executor {
    pub plan: InstallPlan,
    pub xdg_user_dirs: bool,
    pub stage: Stage,
    /// The helper that is bootstrapped, while it is.
    pub helper: String,
    /// The user who builds it, once known.
    pub builder: String,
    /// The index in `plan.services` of the service being enabled.
    pub service: usize,
}

/// The mathematical content of an [`Executor`].
pub struct ExecutorView {
    pub plan: PlanView,
    pub xdg_user_dirs: bool,
    pub stage: Stage,
    pub helper: Seq<char>,
    pub builder: Seq<char>,
    pub service: int,
}

impl View for Executor {
    type V = ExecutorView;

    open spec fn view(&self) -> ExecutorView {
        ExecutorView {
            plan: self.plan@,
            xdg_user_dirs: self.xdg_user_dirs,
            stage: self.stage,
            helper: self.helper@,
            builder: self.builder@,
            service: self.service as int,
        }
    }
}

/// A state and the step that leads to it.
pub type Turn = (ExecutorView, StepView);

/// Running `program` with `args` in the terminal.
pub open spec fn run(program: Seq<char>, args: Seq<Seq<char>>) -> RequestView {
    RequestView::Run { program, args, capture: false }
}

/// Running `program` with `args` out of sight, for its outcome alone.
pub open spec fn probe(program: Seq<char>, args: Seq<Seq<char>>) -> RequestView {
    RequestView::Run { program, args, capture: true }
}

/// The arguments that make a package manager install `packages`, skipping
/// what is installed and asking nothing.
pub open spec fn install_args(packages: Seq<Seq<char>>) -> Seq<Seq<char>> {
    seq!["-S"@, "--needed"@, "--noconfirm"@] + packages
}

/// The fixed directory in which a helper is built.
pub open spec fn build_dir(helper: Seq<char>) -> Seq<char> {
    "/tmp/"@ + helper + "-install"@
}

/// Where a helper's build recipe is kept.
pub open spec fn recipe_url(helper: Seq<char>) -> Seq<char> {
    "https://aur.archlinux.org/"@ + helper + ".git"@
}

/// The shell command that builds and installs a helper.
pub open spec fn build_command(helper: Seq<char>) -> Seq<char> {
    "cd "@ + build_dir(helper) + " && makepkg -si --noconfirm"@
}

/// Running `command` as the unprivileged `user`.
pub open spec fn run_as(user: Seq<char>, command: Seq<Seq<char>>) -> RequestView {
    run("sudo"@, seq!["-u"@, user] + command)
}

/// The end of a live run.
pub open spec fn finished(s: ExecutorView, said: Seq<NoticeView>) -> Turn {
    (
        ExecutorView { stage: Stage::Done, ..s },
        StepView { notices: said.push(plain(NoticeKind::Complete)), request: RequestView::Finish },
    )
}

/// Creating the user's directories, if that was chosen; else the end.
pub open spec fn from_user_dirs(s: ExecutorView, said: Seq<NoticeView>) -> Turn {
    if s.xdg_user_dirs {
        (
            ExecutorView { stage: Stage::ResolvingDirsUser, ..s },
            StepView {
                notices: said.push(plain(NoticeKind::InitUserDirs)),
                request: RequestView::ResolveUser,
            },
        )
    } else {
        finished(s, said)
    }
}

/// Enabling the service at `index`, if there is one; else what follows.
pub open spec fn from_service(s: ExecutorView, index: int, said: Seq<NoticeView>) -> Turn {
    if 0 <= index < s.plan.services.len() {
        (
            ExecutorView { stage: Stage::EnablingService, service: index, ..s },
            StepView {
                notices: said.push(about(NoticeKind::EnablingService, s.plan.services[index])),
                request: run("systemctl"@, seq!["enable"@, s.plan.services[index]]),
            },
        )
    } else {
        from_user_dirs(s, said)
    }
}

/// Installing the user repository packages, if there are any: first of all
/// the search for a helper. Else what follows.
pub open spec fn from_aur(s: ExecutorView, said: Seq<NoticeView>) -> Turn {
    if s.plan.helper.len() > 0 {
        (
            ExecutorView { stage: Stage::ProbingYay, ..s },
            StepView {
                notices: said.push(plain(NoticeKind::InstallingFromAur)),
                request: probe("yay"@, seq!["--version"@]),
            },
        )
    } else {
        from_service(s, 0, said)
    }
}

/// Installing the official packages, if there are any, in one call; else
/// what follows.
pub open spec fn from_official(s: ExecutorView, said: Seq<NoticeView>) -> Turn {
    if s.plan.official.len() > 0 {
        (
            ExecutorView { stage: Stage::InstallingOfficial, ..s },
            StepView {
                notices: said.push(plain(NoticeKind::InstallingOfficial)),
                request: run("pacman"@, install_args(s.plan.official)),
            },
        )
    } else {
        from_aur(s, said)
    }
}

/// The state in `stage`, waiting for the outcome of `request`, with nothing
/// to report but `said`.
pub open spec fn wait(
    s: ExecutorView,
    stage: Stage,
    said: Seq<NoticeView>,
    request: RequestView,
) -> Turn {
    (ExecutorView { stage, ..s }, StepView { notices: said, request })
}

/// What a dry run reports: each action as a preview, and nothing to do.
pub open spec fn preview(c: ConfigView, plan: PlanView) -> Seq<NoticeView> {
    seq![plain(NoticeKind::PreviewStarting)] + (match c.aur_helper {
        Some(helper) => seq![about(NoticeKind::WouldInstallHelper, helper)],
        None => Seq::empty(),
    }) + (if plan.official.len() > 0 {
        seq![listing(NoticeKind::WouldInstallOfficial, plan.official)]
    } else {
        Seq::empty()
    }) + (if plan.helper.len() > 0 {
        seq![listing(NoticeKind::WouldInstallFromAur, plan.helper)]
    } else {
        Seq::empty()
    }) + (if plan.services.len() > 0 {
        seq![listing(NoticeKind::WouldEnableServices, plan.services)]
    } else {
        Seq::empty()
    }) + (if c.xdg_user_dirs {
        seq![plain(NoticeKind::WouldInitUserDirs)]
    } else {
        Seq::empty()
    }) + seq![plain(NoticeKind::PreviewComplete)]
}

/// The state before the first outcome.
pub open spec fn initial(c: ConfigView, plan: PlanView) -> ExecutorView {
    ExecutorView {
        plan,
        xdg_user_dirs: c.xdg_user_dirs,
        stage: Stage::Done,
        helper: match c.aur_helper {
            Some(helper) => helper,
            None => Seq::empty(),
        },
        builder: Seq::empty(),
        service: 0,
    }
}

/// The first step of a run.
///
/// A dry run is over at once. A live run starts with the helper, if one was
/// chosen, and goes on with the packages.
pub open spec fn first_turn(c: ConfigView, plan: PlanView) -> Turn {
    let s = initial(c, plan);
    if c.dry_run {
        (s, StepView { notices: preview(c, plan), request: RequestView::Finish })
    } else {
        match c.aur_helper {
            Some(helper) => wait(
                s,
                Stage::ProbingHelper,
                seq![plain(NoticeKind::Starting), about(NoticeKind::InstallingHelper, helper)],
                probe("which"@, seq![helper]),
            ),
            None => from_official(s, seq![plain(NoticeKind::Starting)]),
        }
    }
}

/// The step that follows `reply` in state `s`.
///
/// No failure ends the run: each is reported and the rest of the plan is
/// carried out. A helper is built only by a user other than `root`. A failed
/// clone or build leaves the build directory in place, and its report names
/// that directory, so that the user can complete the installation by hand.
pub open spec fn next_turn(s: ExecutorView, reply: ReplyView) -> Turn {
    let none = Seq::<NoticeView>::empty();
    match s.stage {
        Stage::ProbingHelper => if succeeded(reply) {
            from_official(s, seq![about(NoticeKind::HelperAlreadyInstalled, s.helper)])
        } else {
            wait(s, Stage::ResolvingBuilder, none, RequestView::ResolveUser)
        },
        Stage::ResolvingBuilder => match user_of(reply) {
            None => from_official(s, seq![about(NoticeKind::HelperNeedsUser, s.helper)]),
            Some(user) => if user == "root"@ {
                from_official(s, seq![about(NoticeKind::HelperRefusedAsRoot, s.helper)])
            } else {
                wait(
                    ExecutorView { builder: user, ..s },
                    Stage::InstallingBuildTools,
                    seq![plain(NoticeKind::InstallingBuildTools)],
                    run("pacman"@, install_args(seq!["base-devel"@, "git"@])),
                )
            },
        },
        Stage::InstallingBuildTools => wait(
            s,
            Stage::ClearingBuildDir,
            seq![about(NoticeKind::CloningHelper, s.helper)],
            run("rm"@, seq!["-rf"@, build_dir(s.helper)]),
        ),
        Stage::ClearingBuildDir => wait(
            s,
            Stage::Cloning,
            none,
            run_as(s.builder, seq!["git"@, "clone"@, recipe_url(s.helper), build_dir(s.helper)]),
        ),
        Stage::Cloning => if succeeded(reply) {
            wait(
                s,
                Stage::Building,
                seq![about(NoticeKind::BuildingHelper, s.helper)],
                run_as(s.builder, seq!["bash"@, "-c"@, build_command(s.helper)]),
            )
        } else {
            from_official(
                s,
                seq![listing(NoticeKind::CloneFailed, seq![s.helper, build_dir(s.helper)])],
            )
        },
        Stage::Building => if succeeded(reply) {
            wait(
                s,
                Stage::RemovingBuildDir,
                seq![about(NoticeKind::HelperInstalled, s.helper)],
                run("rm"@, seq!["-rf"@, build_dir(s.helper)]),
            )
        } else {
            from_official(
                s,
                seq![listing(NoticeKind::HelperBuildFailed, seq![s.helper, build_dir(s.helper)])],
            )
        },
        Stage::RemovingBuildDir => from_official(s, none),
        Stage::InstallingOfficial => from_aur(
            s,
            seq![
                plain(
                    if succeeded(reply) {
                        NoticeKind::OfficialInstalled
                    } else {
                        NoticeKind::OfficialFailed
                    },
                ),
            ],
        ),
        Stage::ProbingYay => if started(reply) {
            wait(s, Stage::InstallingFromAur, none, run("yay"@, install_args(s.plan.helper)))
        } else {
            wait(s, Stage::ProbingParu, none, probe("paru"@, seq!["--version"@]))
        },
        Stage::ProbingParu => if started(reply) {
            wait(s, Stage::InstallingFromAur, none, run("paru"@, install_args(s.plan.helper)))
        } else {
            from_service(s, 0, seq![listing(NoticeKind::ManualInstallRequired, s.plan.helper)])
        },
        Stage::InstallingFromAur => from_service(
            s,
            0,
            seq![
                plain(
                    if succeeded(reply) {
                        NoticeKind::AurInstalled
                    } else {
                        NoticeKind::AurFailed
                    },
                ),
            ],
        ),
        Stage::EnablingService => if 0 <= s.service < s.plan.services.len() {
            from_service(
                s,
                s.service + 1,
                seq![
                    about(
                        if succeeded(reply) {
                            NoticeKind::ServiceEnabled
                        } else {
                            NoticeKind::ServiceFailed
                        },
                        s.plan.services[s.service],
                    ),
                ],
            )
        } else {
            from_user_dirs(s, none)
        },
        Stage::ResolvingDirsUser => match user_of(reply) {
            Some(user) => wait(
                s,
                Stage::UpdatingUserDirs,
                none,
                run_as(user, seq!["xdg-user-dirs-update"@]),
            ),
            None => finished(s, none),
        },
        Stage::UpdatingUserDirs => finished(
            s,
            seq![
                plain(
                    if succeeded(reply) {
                        NoticeKind::UserDirsCreated
                    } else {
                        NoticeKind::UserDirsFailed
                    },
                ),
            ],
        ),
        Stage::Done => wait(s, Stage::Done, none, RequestView::Finish),
    }
}

/// A report without details.
fn note(kind: NoticeKind) -> (notice: Notice)
    ensures
        notice@ == plain(kind),
{
    let notice = Notice { kind, details: Vec::new() };
    assert(notice@.details =~= Seq::<Seq<char>>::empty());
    notice
}

/// A report about one name.
fn note_about(kind: NoticeKind, name: &str) -> (notice: Notice)
    ensures
        notice@ == about(kind, name@),
{
    let mut details: Vec<String> = Vec::new();
    push_line(&mut details, name);
    assert(texts(details@) =~= seq![name@]);
    Notice { kind, details }
}

/// A copy of the names.
fn copy_of(names: &Vec<String>) -> (copy: Vec<String>)
    ensures
        texts(copy@) == texts(names@),
{
    let mut copy: Vec<String> = Vec::new();
    push_lines(&mut copy, names);
    assert(texts(copy@) =~= texts(names@));
    copy
}

/// A report about a list of names.
fn note_listing(kind: NoticeKind, names: &Vec<String>) -> (notice: Notice)
    ensures
        notice@ == listing(kind, texts(names@)),
{
    Notice { kind, details: copy_of(names) }
}

/// No report at all.
fn nothing_said() -> (said: Vec<Notice>)
    ensures
        notice_views(said@) == Seq::<NoticeView>::empty(),
{
    let said: Vec<Notice> = Vec::new();
    assert(notice_views(said@) =~= Seq::<NoticeView>::empty());
    said
}

/// Appends a report.
fn say(said: &mut Vec<Notice>, notice: Notice)
    ensures
        notice_views(final(said)@) == notice_views(old(said)@).push(notice@),
{
    said.push(notice);
    assert(notice_views(said@) =~= notice_views(old(said)@).push(notice@));
}

/// One report.
fn said_one(notice: Notice) -> (said: Vec<Notice>)
    ensures
        notice_views(said@) == seq![notice@],
{
    let mut said = nothing_said();
    say(&mut said, notice);
    assert(notice_views(said@) =~= seq![notice@]);
    said
}

/// A list of one name.
fn one(a: &str) -> (list: Vec<String>)
    ensures
        texts(list@) == seq![a@],
{
    let mut list: Vec<String> = Vec::new();
    push_line(&mut list, a);
    assert(texts(list@) =~= seq![a@]);
    list
}

/// A list of two names.
fn two(a: &str, b: &str) -> (list: Vec<String>)
    ensures
        texts(list@) == seq![a@, b@],
{
    let mut list: Vec<String> = Vec::new();
    push_line(&mut list, a);
    push_line(&mut list, b);
    assert(texts(list@) =~= seq![a@, b@]);
    list
}

/// The arguments that make a package manager install `packages`.
fn install_arguments(packages: &Vec<String>) -> (args: Vec<String>)
    ensures
        texts(args@) == install_args(texts(packages@)),
{
    let mut args: Vec<String> = Vec::new();
    push_line(&mut args, "-S");
    push_line(&mut args, "--needed");
    push_line(&mut args, "--noconfirm");
    assert(texts(args@) =~= seq!["-S"@, "--needed"@, "--noconfirm"@]);
    push_lines(&mut args, packages);
    args
}

/// The fixed directory in which a helper is built.
fn build_directory(helper: &str) -> (dir: String)
    ensures
        dir@ == build_dir(helper@),
{
    let mut dir = glue("/tmp/", helper);
    dir.append("-install");
    dir
}

/// Where a helper's build recipe is kept.
fn recipe_address(helper: &str) -> (url: String)
    ensures
        url@ == recipe_url(helper@),
{
    let mut url = glue("https://aur.archlinux.org/", helper);
    url.append(".git");
    url
}

/// The shell command that builds and installs a helper.
fn build_script(helper: &str) -> (script: String)
    ensures
        script@ == build_command(helper@),
{
    let dir = build_directory(helper);
    let mut script = glue("cd ", dir.as_str());
    script.append(" && makepkg -si --noconfirm");
    script
}

/// The request to run `program` in the terminal.
fn run_program(program: &str, args: Vec<String>) -> (request: Request)
    ensures
        request@ == run(program@, texts(args@)),
{
    Request::Run { program: program.to_owned(), args, capture: false }
}

/// The request to run `program` out of sight.
fn probe_program(program: &str, args: Vec<String>) -> (request: Request)
    ensures
        request@ == probe(program@, texts(args@)),
{
    Request::Run { program: program.to_owned(), args, capture: true }
}

/// The request to run `command` as the unprivileged `user`.
fn run_as_user(user: &str, command: &Vec<String>) -> (request: Request)
    ensures
        request@ == run_as(user@, texts(command@)),
{
    let mut args = two("-u", user);
    push_lines(&mut args, command);
    run_program("sudo", args)
}

impl Reply {
    /// Whether the program ran and reported success.
    pub fn succeeded(&self) -> (yes: bool)
        ensures
            yes == succeeded(self@),
    {
        match self {
            Reply::Exited { success } => *success,
            _ => false,
        }
    }

    /// Whether the program could be started.
    pub fn started(&self) -> (yes: bool)
        ensures
            yes == started(self@),
    {
        match self {
            Reply::Exited { .. } => true,
            _ => false,
        }
    }

    /// The user name that the reply brings, if any.
    pub fn user(&self) -> (name: Option<&String>)
        ensures
            match name {
                Some(user) => user_of(self@) == Some(user@),
                None => user_of(self@).is_none(),
            },
    {
        match self {
            Reply::User { name: Some(user) } => Some(user),
            _ => None,
        }
    }
}

/// `said` followed by the notice, if there is one.
spec fn with(said: Seq<NoticeView>, wanted: bool, notice: NoticeView) -> Seq<NoticeView> {
    if wanted {
        said.push(notice)
    } else {
        said
    }
}

/// Appends the report about `names` if it is wanted.
fn say_if(said: &mut Vec<Notice>, wanted: bool, kind: NoticeKind, names: &Vec<String>)
    ensures
        notice_views(final(said)@) == with(
            notice_views(old(said)@),
            wanted,
            listing(kind, texts(names@)),
        ),
{
    if wanted {
        say(said, note_listing(kind, names));
    }
}

/// What a dry run reports.
fn preview_notices(config: &InstallConfig, plan: &InstallPlan) -> (said: Vec<Notice>)
    ensures
        notice_views(said@) == preview(config@, plan@),
{
    let mut said = said_one(note(NoticeKind::PreviewStarting));
    let none: Vec<String> = Vec::new();
    assert(texts(none@) =~= Seq::<Seq<char>>::empty());
    match &config.aur_helper {
        Some(helper) => {
            say(&mut said, note_about(NoticeKind::WouldInstallHelper, helper.as_str()));
        },
        None => {},
    }
    say_if(&mut said, plan.packages.len() > 0, NoticeKind::WouldInstallOfficial, &plan.packages);
    say_if(
        &mut said,
        plan.aur_packages.len() > 0,
        NoticeKind::WouldInstallFromAur,
        &plan.aur_packages,
    );
    say_if(&mut said, plan.services.len() > 0, NoticeKind::WouldEnableServices, &plan.services);
    say_if(&mut said, config.xdg_user_dirs, NoticeKind::WouldInitUserDirs, &none);
    say(&mut said, note(NoticeKind::PreviewComplete));
    assert(notice_views(said@) =~= preview(config@, plan@));
    said
}

impl Executor {
    /// The first step of a run of the plan for `config`: see [`first_turn`].
    ///
    /// In a dry run it is the only one: it reports each action as a preview
    /// and asks for no operation at all.
    pub fn begin(config: &InstallConfig) -> (turn: (Executor, Step))
        ensures
            (turn.0@, turn.1@) == first_turn(config@, installation_plan(config@)),
            config.dry_run ==> turn.1@.request == RequestView::Finish && turn.0.stage
                == Stage::Done,
    {
        let plan = plan_installation(config);
        let helper = match &config.aur_helper {
            Some(name) => name.clone(),
            None => String::new(),
        };
        let mut executor = Executor {
            plan,
            xdg_user_dirs: config.xdg_user_dirs,
            stage: Stage::Done,
            helper,
            builder: String::new(),
            service: 0,
        };
        assert(executor@ == initial(config@, installation_plan(config@)));
        if config.dry_run {
            let said = preview_notices(config, &executor.plan);
            (executor, Step { notices: said, request: Request::Finish })
        } else {
            let mut said = said_one(note(NoticeKind::Starting));
            match &config.aur_helper {
                Some(name) => {
                    say(&mut said, note_about(NoticeKind::InstallingHelper, name.as_str()));
                    assert(notice_views(said@) =~= seq![
                        plain(NoticeKind::Starting),
                        about(NoticeKind::InstallingHelper, name@),
                    ]);
                    let request = probe_program("which", one(name.as_str()));
                    let step = executor.wait_for(Stage::ProbingHelper, said, request);
                    (executor, step)
                },
                None => {
                    let step = executor.go_on_with_official(said);
                    (executor, step)
                },
            }
        }
    }

    /// Moves to `stage` and asks for `request`.
    fn wait_for(&mut self, stage: Stage, said: Vec<Notice>, request: Request) -> (step: Step)
        ensures
            (final(self)@, step@) == wait(old(self)@, stage, notice_views(said@), request@),
    {
        self.stage = stage;
        Step { notices: said, request }
    }

    /// Ends the run.
    fn finish(&mut self, said: Vec<Notice>) -> (step: Step)
        ensures
            (final(self)@, step@) == finished(old(self)@, notice_views(said@)),
    {
        let mut said = said;
        say(&mut said, note(NoticeKind::Complete));
        self.stage = Stage::Done;
        Step { notices: said, request: Request::Finish }
    }

    /// Goes on with the user's directories, or ends the run.
    fn go_on_with_user_dirs(&mut self, said: Vec<Notice>) -> (step: Step)
        ensures
            (final(self)@, step@) == from_user_dirs(old(self)@, notice_views(said@)),
    {
        if self.xdg_user_dirs {
            let mut said = said;
            say(&mut said, note(NoticeKind::InitUserDirs));
            self.stage = Stage::ResolvingDirsUser;
            Step { notices: said, request: Request::ResolveUser }
        } else {
            self.finish(said)
        }
    }

    /// Goes on with the service at `index`, or with what follows.
    fn go_on_with_service(&mut self, index: usize, said: Vec<Notice>) -> (step: Step)
        ensures
            (final(self)@, step@) == from_service(old(self)@, index as int, notice_views(said@)),
    {
        if index < self.plan.services.len() {
            let mut said = said;
            let unit = self.plan.services[index].as_str();
            say(&mut said, note_about(NoticeKind::EnablingService, unit));
            let request = run_program("systemctl", two("enable", unit));
            self.stage = Stage::EnablingService;
            self.service = index;
            Step { notices: said, request }
        } else {
            self.go_on_with_user_dirs(said)
        }
    }

    /// Goes on with the user repository packages, or with what follows.
    fn go_on_with_aur(&mut self, said: Vec<Notice>) -> (step: Step)
        ensures
            (final(self)@, step@) == from_aur(old(self)@, notice_views(said@)),
    {
        if self.plan.aur_packages.len() > 0 {
            let mut said = said;
            say(&mut said, note(NoticeKind::InstallingFromAur));
            self.stage = Stage::ProbingYay;
            Step { notices: said, request: probe_program("yay", one("--version")) }
        } else {
            self.go_on_with_service(0, said)
        }
    }

    /// Goes on with the official packages, or with what follows.
    fn go_on_with_official(&mut self, said: Vec<Notice>) -> (step: Step)
        ensures
            (final(self)@, step@) == from_official(old(self)@, notice_views(said@)),
    {
        if self.plan.packages.len() > 0 {
            let mut said = said;
            say(&mut said, note(NoticeKind::InstallingOfficial));
            let request = run_program("pacman", install_arguments(&self.plan.packages));
            self.stage = Stage::InstallingOfficial;
            Step { notices: said, request }
        } else {
            self.go_on_with_aur(said)
        }
    }

    /// The step that follows `reply`: see [`next_turn`]. Once the run is
    /// over, every further step asks for nothing.
    pub fn advance(&mut self, reply: &Reply) -> (step: Step)
        ensures
            (final(self)@, step@) == next_turn(old(self)@, reply@),
            old(self).stage == Stage::Done ==> step@.request == RequestView::Finish,
            old(self).stage == Stage::Done ==> final(self).stage == Stage::Done,
    {
        match self.stage {
            Stage::ProbingHelper => {
                if reply.succeeded() {
                    let said = said_one(
                        note_about(NoticeKind::HelperAlreadyInstalled, self.helper.as_str()),
                    );
                    self.go_on_with_official(said)
                } else {
                    self.wait_for(Stage::ResolvingBuilder, nothing_said(), Request::ResolveUser)
                }
            },
            Stage::ResolvingBuilder => {
                match reply.user() {
                    None => {
                        let said = said_one(
                            note_about(NoticeKind::HelperNeedsUser, self.helper.as_str()),
                        );
                        self.go_on_with_official(said)
                    },
                    Some(user) => {
                        if str_eq(user.as_str(), "root") {
                            let said = said_one(
                                note_about(NoticeKind::HelperRefusedAsRoot, self.helper.as_str()),
                            );
                            self.go_on_with_official(said)
                        } else {
                            self.builder = user.clone();
                            let tools = two("base-devel", "git");
                            let request = run_program("pacman", install_arguments(&tools));
                            self.wait_for(
                                Stage::InstallingBuildTools,
                                said_one(note(NoticeKind::InstallingBuildTools)),
                                request,
                            )
                        }
                    },
                }
            },
            Stage::InstallingBuildTools => {
                let dir = build_directory(self.helper.as_str());
                let said = said_one(note_about(NoticeKind::CloningHelper, self.helper.as_str()));
                self.wait_for(
                    Stage::ClearingBuildDir,
                    said,
                    run_program("rm", two("-rf", dir.as_str())),
                )
            },
            Stage::ClearingBuildDir => {
                let dir = build_directory(self.helper.as_str());
                let url = recipe_address(self.helper.as_str());
                let mut command = two("git", "clone");
                push_line(&mut command, url.as_str());
                push_line(&mut command, dir.as_str());
                assert(texts(command@) =~= seq![
                    "git"@,
                    "clone"@,
                    recipe_url(self.helper@),
                    build_dir(self.helper@),
                ]);
                let request = run_as_user(self.builder.as_str(), &command);
                self.wait_for(Stage::Cloning, nothing_said(), request)
            },
            Stage::Cloning => {
                if reply.succeeded() {
                    let script = build_script(self.helper.as_str());
                    let mut command = two("bash", "-c");
                    push_line(&mut command, script.as_str());
                    assert(texts(command@) =~= seq!["bash"@, "-c"@, build_command(self.helper@)]);
                    let request = run_as_user(self.builder.as_str(), &command);
                    let said = said_one(
                        note_about(NoticeKind::BuildingHelper, self.helper.as_str()),
                    );
                    self.wait_for(Stage::Building, said, request)
                } else {
                    let dir = build_directory(self.helper.as_str());
                    let details = two(self.helper.as_str(), dir.as_str());
                    let said = said_one(note_listing(NoticeKind::CloneFailed, &details));
                    self.go_on_with_official(said)
                }
            },
            Stage::Building => {
                let dir = build_directory(self.helper.as_str());
                if reply.succeeded() {
                    let said = said_one(
                        note_about(NoticeKind::HelperInstalled, self.helper.as_str()),
                    );
                    self.wait_for(
                        Stage::RemovingBuildDir,
                        said,
                        run_program("rm", two("-rf", dir.as_str())),
                    )
                } else {
                    let details = two(self.helper.as_str(), dir.as_str());
                    let said = said_one(note_listing(NoticeKind::HelperBuildFailed, &details));
                    self.go_on_with_official(said)
                }
            },
            Stage::RemovingBuildDir => self.go_on_with_official(nothing_said()),
            Stage::InstallingOfficial => {
                let kind = if reply.succeeded() {
                    NoticeKind::OfficialInstalled
                } else {
                    NoticeKind::OfficialFailed
                };
                self.go_on_with_aur(said_one(note(kind)))
            },
            Stage::ProbingYay => {
                if reply.started() {
                    let request = run_program("yay", install_arguments(&self.plan.aur_packages));
                    self.wait_for(Stage::InstallingFromAur, nothing_said(), request)
                } else {
                    self.wait_for(
                        Stage::ProbingParu,
                        nothing_said(),
                        probe_program("paru", one("--version")),
                    )
                }
            },
            Stage::ProbingParu => {
                if reply.started() {
                    let request = run_program("paru", install_arguments(&self.plan.aur_packages));
                    self.wait_for(Stage::InstallingFromAur, nothing_said(), request)
                } else {
                    let said = said_one(
                        note_listing(NoticeKind::ManualInstallRequired, &self.plan.aur_packages),
                    );
                    self.go_on_with_service(0, said)
                }
            },
            Stage::InstallingFromAur => {
                let kind = if reply.succeeded() {
                    NoticeKind::AurInstalled
                } else {
                    NoticeKind::AurFailed
                };
                self.go_on_with_service(0, said_one(note(kind)))
            },
            Stage::EnablingService => {
                if self.service < self.plan.services.len() {
                    let kind = if reply.succeeded() {
                        NoticeKind::ServiceEnabled
                    } else {
                        NoticeKind::ServiceFailed
                    };
                    let said = said_one(
                        note_about(kind, self.plan.services[self.service].as_str()),
                    );
                    self.go_on_with_service(self.service + 1, said)
                } else {
                    self.go_on_with_user_dirs(nothing_said())
                }
            },
            Stage::ResolvingDirsUser => {
                match reply.user() {
                    Some(user) => {
                        let request = run_as_user(user.as_str(), &one("xdg-user-dirs-update"));
                        self.wait_for(Stage::UpdatingUserDirs, nothing_said(), request)
                    },
                    None => self.finish(nothing_said()),
                }
            },
            Stage::UpdatingUserDirs => {
                let kind = if reply.succeeded() {
                    NoticeKind::UserDirsCreated
                } else {
                    NoticeKind::UserDirsFailed
                };
                self.finish(said_one(note(kind)))
            },
            Stage::Done => self.wait_for(Stage::Done, nothing_said(), Request::Finish),
        }
    }
}

/// The state and step that a run has reached after the given outcomes.
pub open spec fn turn_after(c: ConfigView, plan: PlanView, replies: Seq<ReplyView>) -> Turn
    decreases replies.len(),
{
    if replies.len() == 0 {
        first_turn(c, plan)
    } else {
        next_turn(turn_after(c, plan, replies.drop_last()).0, replies.last())
    }
}

/// A dry run asks for no outside operation, whatever it is told: every step
/// of it ends the run, and only the first reports anything.
pub proof fn lemma_dry_run_runs_nothing(c: ConfigView, plan: PlanView, replies: Seq<ReplyView>)
    requires
        c.dry_run,
    ensures
        turn_after(c, plan, replies).1.request == RequestView::Finish,
        turn_after(c, plan, replies).0.stage == Stage::Done,
        replies.len() > 0 ==> turn_after(c, plan, replies).1.notices.len() == 0,
    decreases replies.len(),
{
    if replies.len() > 0 {
        lemma_dry_run_runs_nothing(c, plan, replies.drop_last());
    }
}

/// An upper bound on the number of operations that a run in state `s` still
/// asks for.
pub open spec fn steps_left(s: ExecutorView) -> int {
    let services = s.plan.services.len() as int;
    match s.stage {
        Stage::Done => 0,
        Stage::UpdatingUserDirs => 1,
        Stage::ResolvingDirsUser => 2,
        Stage::EnablingService => if 0 <= s.service < services {
            3 + services - s.service
        } else {
            3
        },
        Stage::InstallingFromAur => 4 + services,
        Stage::ProbingParu => 5 + services,
        Stage::ProbingYay => 6 + services,
        Stage::InstallingOfficial => 7 + services,
        Stage::RemovingBuildDir => 8 + services,
        Stage::Building => 9 + services,
        Stage::Cloning => 10 + services,
        Stage::ClearingBuildDir => 11 + services,
        Stage::InstallingBuildTools => 12 + services,
        Stage::ResolvingBuilder => 13 + services,
        Stage::ProbingHelper => 14 + services,
    }
}

/// Every run comes to an end: each outcome brings it closer, whatever the
/// outcome is, and the step that asks for nothing is the one that ends it.
/// A run asks for no more than fourteen operations and one for each service.
pub proof fn lemma_run_makes_progress(
    c: ConfigView,
    plan: PlanView,
    s: ExecutorView,
    reply: ReplyView,
)
    ensures
        steps_left(first_turn(c, plan).0) <= 14 + plan.services.len(),
        (first_turn(c, plan).1.request == RequestView::Finish) == (first_turn(c, plan).0.stage
            == Stage::Done),
        s.stage != Stage::Done ==> steps_left(next_turn(s, reply).0) < steps_left(s),
        (next_turn(s, reply).1.request == RequestView::Finish) == (next_turn(s, reply).0.stage
            == Stage::Done),
        next_turn(s, reply).0.plan == s.plan,
{
}

} // verus!
