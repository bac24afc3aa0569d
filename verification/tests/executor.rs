use hyprland_installer::config::InstallConfig;
use hyprland_installer::executor::{Executor, Notice, NoticeKind, Reply, Request, Stage, Step};

fn names(rows: &[&str]) -> Vec<String> {
    rows.iter().map(|row| row.to_string()).collect()
}

fn run(program: &str, args: &[&str]) -> Request {
    Request::Run { program: program.to_string(), args: names(args), capture: false }
}

fn probe(program: &str, args: &[&str]) -> Request {
    Request::Run { program: program.to_string(), args: names(args), capture: true }
}

fn plain(kind: NoticeKind) -> Notice {
    Notice { kind, details: vec![] }
}

fn about(kind: NoticeKind, details: &[&str]) -> Notice {
    Notice { kind, details: names(details) }
}

const OK: Reply = Reply::Exited { success: true };
const FAILED: Reply = Reply::Exited { success: false };

fn user(name: &str) -> Reply {
    Reply::User { name: Some(name.to_string()) }
}

fn is_preview(kind: NoticeKind) -> bool {
    matches!(
        kind,
        NoticeKind::PreviewStarting
            | NoticeKind::WouldInstallHelper
            | NoticeKind::WouldInstallOfficial
            | NoticeKind::WouldInstallFromAur
            | NoticeKind::WouldEnableServices
            | NoticeKind::WouldInitUserDirs
            | NoticeKind::PreviewComplete
    )
}

fn busy_configuration() -> InstallConfig {
    let mut config = InstallConfig::default();
    config.aur_helper = Some("yay".to_string());
    config.greeter = Some("sddm".to_string());
    config.terminal = Some("kitty".to_string());
    config.wallpaper_utils = names(&["wpaperd"]);
    config.xdg_user_dirs = true;
    config
}

#[test]
fn dry_run_previews_everything_and_asks_for_nothing() {
    let mut config = busy_configuration();
    config.dry_run = true;
    let (mut executor, step) = Executor::begin(&config);
    assert_eq!(step.request, Request::Finish);
    assert_eq!(executor.stage, Stage::Done);
    assert_eq!(
        step.notices,
        vec![
            plain(NoticeKind::PreviewStarting),
            about(NoticeKind::WouldInstallHelper, &["yay"]),
            about(NoticeKind::WouldInstallOfficial, &["sddm", "xdg-user-dirs", "kitty"]),
            about(NoticeKind::WouldInstallFromAur, &["wpaperd"]),
            about(NoticeKind::WouldEnableServices, &["sddm.service"]),
            plain(NoticeKind::WouldInitUserDirs),
            plain(NoticeKind::PreviewComplete),
        ]
    );
    assert!(step.notices.iter().all(|notice| is_preview(notice.kind)));
    for reply in [OK, FAILED, Reply::NotStarted, user("me"), Reply::User { name: None }] {
        let next = executor.advance(&reply);
        assert_eq!(next, Step { notices: vec![], request: Request::Finish });
        assert_eq!(executor.stage, Stage::Done);
    }
}

#[test]
fn dry_run_of_a_blank_configuration() {
    let mut config = InstallConfig::default();
    config.dry_run = true;
    let (_, step) = Executor::begin(&config);
    assert_eq!(
        step,
        Step {
            notices: vec![plain(NoticeKind::PreviewStarting), plain(NoticeKind::PreviewComplete)],
            request: Request::Finish,
        }
    );
}

#[test]
fn live_run_of_a_blank_configuration_is_over_at_once() {
    let (executor, step) = Executor::begin(&InstallConfig::default());
    assert_eq!(
        step,
        Step {
            notices: vec![plain(NoticeKind::Starting), plain(NoticeKind::Complete)],
            request: Request::Finish,
        }
    );
    assert_eq!(executor.stage, Stage::Done);
}

#[test]
fn without_a_helper_the_packages_need_manual_installation() {
    let mut config = InstallConfig::default();
    config.hyprland_version = Some("hyprland-git".to_string());
    config.wallpaper_utils = names(&["wpaperd", "swaybg"]);
    config.uwsm = true;
    let (mut executor, step) = Executor::begin(&config);
    assert_eq!(
        step,
        Step {
            notices: vec![plain(NoticeKind::Starting), plain(NoticeKind::InstallingFromAur)],
            request: probe("yay", &["--version"]),
        }
    );
    let step = executor.advance(&Reply::NotStarted);
    assert_eq!(step, Step { notices: vec![], request: probe("paru", &["--version"]) });
    let step = executor.advance(&Reply::NotStarted);
    assert_eq!(
        step,
        Step {
            notices: vec![
                about(NoticeKind::ManualInstallRequired, &["hyprland-git", "uwsm", "wpaperd", "swaybg"]),
                plain(NoticeKind::Complete),
            ],
            request: Request::Finish,
        }
    );
    assert_eq!(executor.stage, Stage::Done);
}

#[test]
fn yay_is_preferred_and_takes_the_whole_list_at_once() {
    let mut config = InstallConfig::default();
    config.wallpaper_utils = names(&["wpaperd", "mpvpaper"]);
    let (mut executor, _) = Executor::begin(&config);
    let step = executor.advance(&FAILED);
    assert_eq!(
        step,
        Step {
            notices: vec![],
            request: run("yay", &["-S", "--needed", "--noconfirm", "wpaperd", "mpvpaper"]),
        }
    );
    let step = executor.advance(&OK);
    assert_eq!(
        step.notices,
        vec![plain(NoticeKind::AurInstalled), plain(NoticeKind::Complete)]
    );
}

#[test]
fn paru_is_used_where_yay_is_missing() {
    let mut config = InstallConfig::default();
    config.uwsm = true;
    let (mut executor, _) = Executor::begin(&config);
    executor.advance(&Reply::NotStarted);
    let step = executor.advance(&OK);
    assert_eq!(step.request, run("paru", &["-S", "--needed", "--noconfirm", "uwsm"]));
    let step = executor.advance(&FAILED);
    assert_eq!(step.notices, vec![plain(NoticeKind::AurFailed), plain(NoticeKind::Complete)]);
    assert_eq!(step.request, Request::Finish);
}

#[test]
fn official_packages_go_to_pacman_in_one_call_and_failure_is_no_stop() {
    let mut config = InstallConfig::default();
    config.greeter = Some("gdm".to_string());
    config.gpu_driver = Some("intel".to_string());
    let (mut executor, step) = Executor::begin(&config);
    assert_eq!(
        step,
        Step {
            notices: vec![plain(NoticeKind::Starting), plain(NoticeKind::InstallingOfficial)],
            request: run(
                "pacman",
                &["-S", "--needed", "--noconfirm", "gdm", "mesa", "vulkan-intel", "intel-media-driver"]
            ),
        }
    );
    let step = executor.advance(&FAILED);
    assert_eq!(
        step,
        Step {
            notices: vec![
                plain(NoticeKind::OfficialFailed),
                about(NoticeKind::EnablingService, &["gdm.service"]),
            ],
            request: run("systemctl", &["enable", "gdm.service"]),
        }
    );
    let step = executor.advance(&Reply::NotStarted);
    assert_eq!(
        step,
        Step {
            notices: vec![
                about(NoticeKind::ServiceFailed, &["gdm.service"]),
                plain(NoticeKind::Complete),
            ],
            request: Request::Finish,
        }
    );
}

#[test]
fn services_are_enabled_one_by_one() {
    let mut config = InstallConfig::default();
    config.greeter = Some("sddm".to_string());
    let (mut executor, _) = Executor::begin(&config);
    executor.plan.services.push("extra.service".to_string());
    let step = executor.advance(&OK);
    assert_eq!(step.request, run("systemctl", &["enable", "sddm.service"]));
    let step = executor.advance(&OK);
    assert_eq!(
        step,
        Step {
            notices: vec![
                about(NoticeKind::ServiceEnabled, &["sddm.service"]),
                about(NoticeKind::EnablingService, &["extra.service"]),
            ],
            request: run("systemctl", &["enable", "extra.service"]),
        }
    );
    let step = executor.advance(&FAILED);
    assert_eq!(
        step.notices,
        vec![about(NoticeKind::ServiceFailed, &["extra.service"]), plain(NoticeKind::Complete)]
    );
}

#[test]
fn user_directories_are_created_as_the_user() {
    let mut config = InstallConfig::default();
    config.xdg_user_dirs = true;
    let (mut executor, step) = Executor::begin(&config);
    assert_eq!(step.request, run("pacman", &["-S", "--needed", "--noconfirm", "xdg-user-dirs"]));
    let step = executor.advance(&OK);
    assert_eq!(
        step,
        Step {
            notices: vec![plain(NoticeKind::OfficialInstalled), plain(NoticeKind::InitUserDirs)],
            request: Request::ResolveUser,
        }
    );
    let step = executor.advance(&user("ada"));
    assert_eq!(
        step,
        Step { notices: vec![], request: run("sudo", &["-u", "ada", "xdg-user-dirs-update"]) }
    );
    let step = executor.advance(&OK);
    assert_eq!(
        step,
        Step {
            notices: vec![plain(NoticeKind::UserDirsCreated), plain(NoticeKind::Complete)],
            request: Request::Finish,
        }
    );
}

#[test]
fn user_directories_are_skipped_without_a_user() {
    let mut config = InstallConfig::default();
    config.xdg_user_dirs = true;
    let (mut executor, _) = Executor::begin(&config);
    executor.advance(&OK);
    let step = executor.advance(&Reply::User { name: None });
    assert_eq!(step, Step { notices: vec![plain(NoticeKind::Complete)], request: Request::Finish });
}

fn helper_only() -> InstallConfig {
    let mut config = InstallConfig::default();
    config.aur_helper = Some("paru".to_string());
    config
}

#[test]
fn helper_that_is_there_is_not_built() {
    let (mut executor, step) = Executor::begin(&helper_only());
    assert_eq!(
        step,
        Step {
            notices: vec![
                plain(NoticeKind::Starting),
                about(NoticeKind::InstallingHelper, &["paru"]),
            ],
            request: probe("which", &["paru"]),
        }
    );
    let step = executor.advance(&OK);
    assert_eq!(
        step,
        Step {
            notices: vec![
                about(NoticeKind::HelperAlreadyInstalled, &["paru"]),
                plain(NoticeKind::Complete),
            ],
            request: Request::Finish,
        }
    );
}

#[test]
fn helper_is_not_built_as_root_or_without_a_user() {
    let (mut executor, _) = Executor::begin(&helper_only());
    assert_eq!(
        executor.advance(&FAILED),
        Step { notices: vec![], request: Request::ResolveUser }
    );
    let step = executor.advance(&user("root"));
    assert_eq!(
        step,
        Step {
            notices: vec![
                about(NoticeKind::HelperRefusedAsRoot, &["paru"]),
                plain(NoticeKind::Complete),
            ],
            request: Request::Finish,
        }
    );

    let (mut executor, _) = Executor::begin(&helper_only());
    executor.advance(&Reply::NotStarted);
    let step = executor.advance(&Reply::User { name: None });
    assert_eq!(
        step.notices,
        vec![about(NoticeKind::HelperNeedsUser, &["paru"]), plain(NoticeKind::Complete)]
    );
    assert_eq!(step.request, Request::Finish);
}

#[test]
fn helper_is_cloned_and_built_as_the_user() {
    let mut config = helper_only();
    config.terminal = Some("foot".to_string());
    let (mut executor, _) = Executor::begin(&config);
    executor.advance(&FAILED);
    let step = executor.advance(&user("ada"));
    assert_eq!(
        step,
        Step {
            notices: vec![plain(NoticeKind::InstallingBuildTools)],
            request: run("pacman", &["-S", "--needed", "--noconfirm", "base-devel", "git"]),
        }
    );
    let step = executor.advance(&FAILED);
    assert_eq!(
        step,
        Step {
            notices: vec![about(NoticeKind::CloningHelper, &["paru"])],
            request: run("rm", &["-rf", "/tmp/paru-install"]),
        }
    );
    let step = executor.advance(&FAILED);
    assert_eq!(
        step,
        Step {
            notices: vec![],
            request: run(
                "sudo",
                &[
                    "-u",
                    "ada",
                    "git",
                    "clone",
                    "https://aur.archlinux.org/paru.git",
                    "/tmp/paru-install"
                ]
            ),
        }
    );
    let step = executor.advance(&OK);
    assert_eq!(
        step,
        Step {
            notices: vec![about(NoticeKind::BuildingHelper, &["paru"])],
            request: run(
                "sudo",
                &["-u", "ada", "bash", "-c", "cd /tmp/paru-install && makepkg -si --noconfirm"]
            ),
        }
    );
    let step = executor.advance(&OK);
    assert_eq!(
        step,
        Step {
            notices: vec![about(NoticeKind::HelperInstalled, &["paru"])],
            request: run("rm", &["-rf", "/tmp/paru-install"]),
        }
    );
    let step = executor.advance(&OK);
    assert_eq!(
        step,
        Step {
            notices: vec![plain(NoticeKind::InstallingOfficial)],
            request: run("pacman", &["-S", "--needed", "--noconfirm", "foot"]),
        }
    );
}

#[test]
fn failed_clone_ends_the_bootstrap_but_not_the_run() {
    let mut config = helper_only();
    config.shell = Some("zsh".to_string());
    let (mut executor, _) = Executor::begin(&config);
    executor.advance(&FAILED);
    executor.advance(&user("ada"));
    executor.advance(&OK);
    executor.advance(&OK);
    let step = executor.advance(&FAILED);
    assert_eq!(
        step,
        Step {
            notices: vec![
                about(NoticeKind::CloneFailed, &["paru", "/tmp/paru-install"]),
                plain(NoticeKind::InstallingOfficial),
            ],
            request: run("pacman", &["-S", "--needed", "--noconfirm", "zsh"]),
        }
    );
}

#[test]
fn failed_build_leaves_the_directory_and_names_it() {
    let (mut executor, _) = Executor::begin(&helper_only());
    executor.advance(&FAILED);
    executor.advance(&user("ada"));
    executor.advance(&OK);
    executor.advance(&OK);
    executor.advance(&OK);
    let step = executor.advance(&Reply::NotStarted);
    assert_eq!(
        step,
        Step {
            notices: vec![
                about(NoticeKind::HelperBuildFailed, &["paru", "/tmp/paru-install"]),
                plain(NoticeKind::Complete),
            ],
            request: Request::Finish,
        }
    );
}

#[test]
fn replies_say_what_they_are() {
    assert!(OK.succeeded());
    assert!(OK.started());
    assert!(!FAILED.succeeded());
    assert!(FAILED.started());
    assert!(!Reply::NotStarted.succeeded());
    assert!(!Reply::NotStarted.started());
    assert!(!user("x").succeeded());
    assert_eq!(user("x").user(), Some(&"x".to_string()));
    assert_eq!(Reply::User { name: None }.user(), None);
    assert_eq!(OK.user(), None);
}

#[test]
fn full_live_run_visits_every_part_in_order() {
    let config = busy_configuration();
    let (mut executor, step) = Executor::begin(&config);
    let mut programs = vec![];
    let mut request = step.request;
    let mut rounds = 0;
    while request != Request::Finish {
        rounds += 1;
        assert!(rounds < 50);
        let reply = match &request {
            Request::Run { program, .. } => {
                programs.push(program.clone());
                OK
            }
            Request::ResolveUser => {
                programs.push("?".to_string());
                user("ada")
            }
            Request::Finish => unreachable!(),
        };
        request = executor.advance(&reply).request;
    }
    assert_eq!(programs, names(&["which", "pacman", "yay", "yay", "systemctl", "?", "sudo"]));
}

#[test]
fn after_a_failed_clone_nothing_is_built_or_removed() {
    for failure in [FAILED, Reply::NotStarted] {
        let mut config = helper_only();
        config.terminal = Some("kitty".to_string());
        config.greeter = Some("sddm".to_string());
        let (mut executor, _) = Executor::begin(&config);
        executor.advance(&FAILED);
        executor.advance(&user("ada"));
        executor.advance(&OK);
        executor.advance(&OK);
        let mut step = executor.advance(&failure);
        assert_eq!(
            step.notices[0],
            about(NoticeKind::CloneFailed, &["paru", "/tmp/paru-install"])
        );
        let mut programs = vec![];
        let mut rounds = 0;
        while step.request != Request::Finish {
            rounds += 1;
            assert!(rounds < 50);
            if let Request::Run { program, args, .. } = &step.request {
                programs.push(program.clone());
                assert!(!args.contains(&"/tmp/paru-install".to_string()));
                assert!(args.iter().all(|arg| !arg.contains("makepkg")));
            }
            step = executor.advance(&OK);
        }
        assert_eq!(programs, names(&["pacman", "systemctl"]));
    }
}
