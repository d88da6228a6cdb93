use codex_update::distribution::current_version;
use codex_update::distribution::github_repo_slug;
use codex_update::distribution::installation_url;
use codex_update::distribution::is_third_party_distribution;
use codex_update::distribution::release_notes_url;
use codex_update::distribution::third_party_distribution;
use codex_update::distribution::DistributionInfo;

fn slug(url: &str) -> Option<String> {
    github_repo_slug(url)
}

#[test]
fn slug_of_plain_and_decorated_urls() {
    assert_eq!(slug("https://github.com/openai/codex"), Some("openai/codex".to_string()));
    assert_eq!(slug("git+https://github.com/openai/codex.git"), Some("openai/codex".to_string()));
    assert_eq!(slug("http://github.com/a/b"), Some("a/b".to_string()));
    assert_eq!(slug("git@github.com:owner/repo.git"), Some("owner/repo".to_string()));
    assert_eq!(
        slug("  https://github.com/owner/repo/tree/main  "),
        Some("owner/repo".to_string())
    );
    assert_eq!(slug("git+git+https://github.com/a/b.git.git"), Some("a/b".to_string()));
    assert_eq!(slug("https://github.com/ owner / repo "), Some("owner/repo".to_string()));
    assert_eq!(
        slug("\u{3000}https://github.com/a/b\u{a0}\n"),
        Some("a/b".to_string())
    );
}

#[test]
fn slug_rejects_other_hosts_and_empty_pieces() {
    assert_eq!(slug("https://gitlab.com/a/b"), None);
    assert_eq!(slug("https://github.com/owner"), None);
    assert_eq!(slug("https://github.com//repo"), None);
    assert_eq!(slug("https://github.com/owner/"), None);
    assert_eq!(slug("https://github.com/owner/ /x"), None);
    assert_eq!(slug(""), None);
    assert_eq!(slug("github.com/a/b"), None);
}

#[test]
fn upstream_package_is_not_third_party() {
    assert!(!is_third_party_distribution(&None));
    assert!(!is_third_party_distribution(&Some("@openai/codex".to_string())));
    assert!(is_third_party_distribution(&Some("@acme/codex".to_string())));
    assert_eq!(
        third_party_distribution(
            Some("@openai/codex".to_string()),
            Some("9.9.9".to_string()),
            Some("https://github.com/acme/codex".to_string()),
        ),
        None
    );
    assert_eq!(third_party_distribution(None, Some("1.0.0".to_string()), None), None);
}

#[test]
fn third_party_distribution_reads_all_values() {
    let info = third_party_distribution(
        Some("@acme/codex".to_string()),
        Some("1.2.3".to_string()),
        Some("git+https://github.com/acme/codex-fork.git".to_string()),
    );
    assert_eq!(
        info,
        Some(DistributionInfo {
            package: "@acme/codex".to_string(),
            version: Some("1.2.3".to_string()),
            github_repo: Some("acme/codex-fork".to_string()),
        })
    );
    let unreadable = third_party_distribution(
        Some("@acme/codex".to_string()),
        None,
        Some("https://example.com/acme".to_string()),
    );
    assert_eq!(
        unreadable,
        Some(DistributionInfo {
            package: "@acme/codex".to_string(),
            version: None,
            github_repo: None,
        })
    );
}

#[test]
fn version_and_urls_fall_back_to_upstream() {
    assert_eq!(current_version(&None, "0.50.0"), "0.50.0");
    assert_eq!(release_notes_url(&None), "https://github.com/openai/codex/releases/latest");
    assert_eq!(installation_url(&None), "https://github.com/openai/codex");

    let bare = Some(DistributionInfo {
        package: "@acme/codex".to_string(),
        version: None,
        github_repo: None,
    });
    assert_eq!(current_version(&bare, "0.50.0"), "0.50.0");
    assert_eq!(installation_url(&bare), "https://github.com/openai/codex");
}

#[test]
fn version_and_urls_of_a_distribution() {
    let info = Some(DistributionInfo {
        package: "@acme/codex".to_string(),
        version: Some("2.0.0-acme".to_string()),
        github_repo: Some("acme/codex-fork".to_string()),
    });
    assert_eq!(current_version(&info, "0.50.0"), "2.0.0-acme");
    assert_eq!(installation_url(&info), "https://github.com/acme/codex-fork");
    assert_eq!(
        release_notes_url(&info),
        "https://github.com/acme/codex-fork/releases/latest"
    );
}

#[test]
fn release_notes_url_extends_installation_url() {
    for repo in [None, Some("acme/codex-fork".to_string())] {
        let info = Some(DistributionInfo {
            package: "@acme/codex".to_string(),
            version: None,
            github_repo: repo,
        });
        assert_eq!(
            release_notes_url(&info),
            format!("{}/releases/latest", installation_url(&info))
        );
    }
    assert_eq!(
        release_notes_url(&None),
        format!("{}/releases/latest", installation_url(&None))
    );
}

#[test]
fn installation_url_gives_back_its_slug() {
    let info = third_party_distribution(
        Some("@acme/codex".to_string()),
        None,
        Some(" git@github.com:acme/ codex-fork .git".to_string()),
    );
    let repo = info.as_ref().unwrap().github_repo.clone();
    assert_eq!(repo, Some("acme/codex-fork".to_string()));
    assert_eq!(github_repo_slug(&installation_url(&info)), repo);
}
