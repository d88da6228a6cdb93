use std::path::PathBuf;

use codex_update::update_action::command_line_from;
use codex_update::update_action::get_update_action;
use codex_update::update_action::InstallContext;
use codex_update::update_action::StandalonePlatform;
use codex_update::update_action::UpdateAction;

fn path_text(path: &PathBuf) -> String {
    path.to_str().unwrap().to_string()
}

#[test]
fn maps_install_context_to_update_action() {
    let native_release_dir = PathBuf::from("/tmp/native-release");

    assert_eq!(
        UpdateAction::from_install_context(&InstallContext::Other),
        None
    );
    assert_eq!(
        UpdateAction::from_install_context(&InstallContext::Npm),
        Some(UpdateAction::NpmGlobalLatest)
    );
    assert_eq!(
        UpdateAction::from_install_context(&InstallContext::Bun),
        Some(UpdateAction::BunGlobalLatest)
    );
    assert_eq!(
        UpdateAction::from_install_context(&InstallContext::Brew),
        Some(UpdateAction::BrewUpgrade)
    );
    assert_eq!(
        UpdateAction::from_install_context(&InstallContext::Standalone {
            platform: StandalonePlatform::Unix,
            release_dir: path_text(&native_release_dir),
            resources_dir: Some(path_text(&native_release_dir.join("codex-resources"))),
        }),
        Some(UpdateAction::StandaloneUnix)
    );
    assert_eq!(
        UpdateAction::from_install_context(&InstallContext::Standalone {
            platform: StandalonePlatform::Windows,
            release_dir: path_text(&native_release_dir),
            resources_dir: Some(path_text(&native_release_dir.join("codex-resources"))),
        }),
        Some(UpdateAction::StandaloneWindows)
    );
}

#[test]
fn standalone_update_commands_rerun_latest_installer() {
    assert_eq!(
        UpdateAction::StandaloneUnix.command_args(),
        (
            "sh",
            &["-c", "curl -fsSL https://chatgpt.com/codex/install.sh | sh"][..],
        )
    );
    assert_eq!(
        UpdateAction::StandaloneWindows.command_args(),
        (
            "powershell",
            &["-c", "irm https://chatgpt.com/codex/install.ps1|iex"][..],
        )
    );
}

#[test]
fn package_manager_commands_follow_their_documentation() {
    assert_eq!(
        UpdateAction::NpmGlobalLatest.command_args(),
        ("npm", &["install", "-g", "@openai/codex@latest"][..])
    );
    assert_eq!(
        UpdateAction::BunGlobalLatest.command_args(),
        ("bun", &["install", "-g", "@openai/codex@latest"][..])
    );
    assert_eq!(
        UpdateAction::BrewUpgrade.command_args(),
        ("brew", &["upgrade", "codex"][..])
    );
}

#[test]
fn command_strings_are_shell_quoted() {
    assert_eq!(
        UpdateAction::NpmGlobalLatest.command_str(),
        "npm install -g @openai/codex@latest"
    );
    assert_eq!(
        UpdateAction::BunGlobalLatest.command_str(),
        "bun install -g @openai/codex@latest"
    );
    assert_eq!(UpdateAction::BrewUpgrade.command_str(), "brew upgrade codex");
    assert_eq!(
        UpdateAction::StandaloneUnix.command_str(),
        "sh -c 'curl -fsSL https://chatgpt.com/codex/install.sh | sh'"
    );
    assert_eq!(
        UpdateAction::StandaloneWindows.command_str(),
        "powershell -c 'irm https://chatgpt.com/codex/install.ps1|iex'"
    );
}

#[test]
fn command_line_falls_back_to_plain_join() {
    assert_eq!(
        command_line_from("sh", &["-c", "echo a"], None),
        "sh -c echo a"
    );
    assert_eq!(command_line_from("true", &[], None), "true ");
    assert_eq!(
        command_line_from("sh", &["-c", "echo a"], Some("quoted".to_string())),
        "quoted"
    );
}

#[test]
fn repackaged_distribution_is_never_offered_an_update() {
    assert_eq!(
        get_update_action(&Some("@acme/codex".to_string()), &InstallContext::Npm),
        None
    );
    assert_eq!(
        get_update_action(&Some("@openai/codex".to_string()), &InstallContext::Brew),
        Some(UpdateAction::BrewUpgrade)
    );
    assert_eq!(
        get_update_action(&None, &InstallContext::Bun),
        Some(UpdateAction::BunGlobalLatest)
    );
    assert_eq!(get_update_action(&None, &InstallContext::Other), None);
}
