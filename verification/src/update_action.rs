//! The update a user can be offered after the interactive session ends,
//! chosen from how the program was installed, and the command that runs it.

use vstd::prelude::*;
use crate::distribution::{is_third_party_distribution, names_third_party, official_package};

verus! {

/// Update action the CLI should perform after the TUI exits.
#[derive(Debug, Clone, Copy, PartialEq, Eq, Structural)]
pub enum UpdateAction {
    /// Update via `npm install -g @openai/codex@latest`.
    NpmGlobalLatest,
    /// Update via `bun install -g @openai/codex@latest`.
    BunGlobalLatest,
    /// Update via `brew upgrade codex`.
    BrewUpgrade,
    /// Update via `curl -fsSL https://chatgpt.com/codex/install.sh | sh`.
    StandaloneUnix,
    /// Update via `irm https://chatgpt.com/codex/install.ps1|iex`.
    StandaloneWindows,
}

/// The program and arguments that carry out `action`.
pub open spec fn command_of(action: UpdateAction) -> (Seq<char>, Seq<Seq<char>>) {
    match action {
        UpdateAction::NpmGlobalLatest => ("npm"@, seq!["install"@, "-g"@, "@openai/codex@latest"@]),
        UpdateAction::BunGlobalLatest => ("bun"@, seq!["install"@, "-g"@, "@openai/codex@latest"@]),
        UpdateAction::BrewUpgrade => ("brew"@, seq!["upgrade"@, "codex"@]),
        UpdateAction::StandaloneUnix => (
            "sh"@,
            seq!["-c"@, "curl -fsSL https://chatgpt.com/codex/install.sh | sh"@],
        ),
        UpdateAction::StandaloneWindows => (
            "powershell"@,
            seq!["-c"@, "irm https://chatgpt.com/codex/install.ps1|iex"@],
        ),
    }
}

/// The characters of each string in `words`.
pub open spec fn words_view(words: Seq<&str>) -> Seq<Seq<char>> {
    words.map_values(|w: &str| w@)
}

impl UpdateAction {
    /// Returns the list of command-line arguments for invoking the update.
    pub fn command_args(self) -> (r: (&'static str, &'static [&'static str]))
        ensures
            r.0@ == command_of(self).0,
            words_view(r.1@) == command_of(self).1,
    {
        let r: (&'static str, &'static [&'static str]) = match self {
            UpdateAction::NpmGlobalLatest => ("npm", &["install", "-g", "@openai/codex@latest"]),
            UpdateAction::BunGlobalLatest => ("bun", &["install", "-g", "@openai/codex@latest"]),
            UpdateAction::BrewUpgrade => ("brew", &["upgrade", "codex"]),
            UpdateAction::StandaloneUnix => (
                "sh",
                &["-c", "curl -fsSL https://chatgpt.com/codex/install.sh | sh"],
            ),
            UpdateAction::StandaloneWindows => (
                "powershell",
                &["-c", "irm https://chatgpt.com/codex/install.ps1|iex"],
            ),
        };
        assert(words_view(r.1@) =~= command_of(self).1);
        r
    }
}

/// Platform of a standalone installation.
#[derive(Debug, Clone, Copy, PartialEq, Eq, Structural)]
pub enum StandalonePlatform {
    Unix,
    Windows,
}

/// How the running program was installed.
#[derive(Debug, Clone, PartialEq, Eq)]
pub enum InstallContext {
    Npm,
    Bun,
    Brew,
    Standalone { platform: StandalonePlatform, release_dir: String, resources_dir: Option<String> },
    Other,
}

/// The update that fits an installation: the package manager's upgrade,
/// the standalone installer of the platform, or none for other installations.
pub open spec fn action_for_context(context: InstallContext) -> Option<UpdateAction> {
    match context {
        InstallContext::Npm => Some(UpdateAction::NpmGlobalLatest),
        InstallContext::Bun => Some(UpdateAction::BunGlobalLatest),
        InstallContext::Brew => Some(UpdateAction::BrewUpgrade),
        InstallContext::Standalone { platform, .. } => Some(
            match platform {
                StandalonePlatform::Unix => UpdateAction::StandaloneUnix,
                StandalonePlatform::Windows => UpdateAction::StandaloneWindows,
            },
        ),
        InstallContext::Other => None,
    }
}

impl UpdateAction {
    /// The update that fits the installation, if any.
    pub fn from_install_context(context: &InstallContext) -> (action: Option<Self>)
        ensures
            action == action_for_context(*context),
    {
        match context {
            InstallContext::Npm => Some(UpdateAction::NpmGlobalLatest),
            InstallContext::Bun => Some(UpdateAction::BunGlobalLatest),
            InstallContext::Brew => Some(UpdateAction::BrewUpgrade),
            InstallContext::Standalone { platform, .. } => Some(
                match platform {
                    StandalonePlatform::Unix => UpdateAction::StandaloneUnix,
                    StandalonePlatform::Windows => UpdateAction::StandaloneWindows,
                },
            ),
            InstallContext::Other => None,
        }
    }
}

/// The update to offer for the distribution-package setting `package` and
/// the installation `context`.
pub open spec fn update_decision(package: Option<Seq<char>>, context: InstallContext) -> Option<
    UpdateAction,
> {
    if names_third_party(package) {
        None
    } else {
        action_for_context(context)
    }
}

/// The update to offer: none for a repackaged distribution (whose
/// distribution-package setting names another package), otherwise the one
/// that fits the installation.
pub fn get_update_action(distribution_package: &Option<String>, context: &InstallContext) -> (action:
    Option<UpdateAction>)
    ensures
        action == update_decision(distribution_package.deep_view(), *context),
{
    if is_third_party_distribution(distribution_package) {
        return None;
    }
    UpdateAction::from_install_context(context)
}

/// Name for what `shlex::try_join` yields on words that it accepts: the
/// words, each quoted for a POSIX shell where needed, separated by spaces.
pub uninterp spec fn shell_joined(words: Seq<Seq<char>>) -> Seq<char>;

/// Calls `shlex::try_join` on `words`. It succeeds exactly when no word holds
/// a NUL character (the default `Quoter` refuses only those), and then gives
/// `shell_joined` of the words. The quoting itself is left unstated.
#[verifier::external_body]
fn shlex_try_join(words: &Vec<&str>) -> (joined: Option<String>)
    ensures
        joined is Some <==> forall|i: int| 0 <= i < words@.len() ==> !words@[i]@.contains('\0'),
        joined matches Some(s) ==> s@ == shell_joined(words_view(words@)),
{
    shlex::try_join(words.iter().copied()).ok()
}

/// `words` separated by `sep`.
pub open spec fn join_with(words: Seq<Seq<char>>, sep: Seq<char>) -> Seq<char>
    decreases words.len(),
{
    if words.len() == 0 {
        Seq::empty()
    } else if words.len() == 1 {
        words[0]
    } else {
        join_with(words.drop_last(), sep) + sep + words.last()
    }
}

/// The command line to show: the shell-quoted one when quoting succeeded,
/// otherwise the program and arguments separated by single spaces.
pub fn command_line_from(command: &str, args: &[&str], quoted: Option<String>) -> (line: String)
    ensures
        line@ == match quoted {
            Some(q) => q@,
            None => command@ + " "@ + join_with(words_view(args@), " "@),
        },
{
    match quoted {
        Some(q) => q,
        None => {
            let mut line = String::from_str(command);
            line.append(" ");
            let n = args.len();
            let mut i: usize = 0;
            while i < n
                invariant
                    n == args@.len(),
                    i <= n,
                    line@ == command@ + " "@ + join_with(words_view(args@.take(i as int)), " "@),
                decreases n - i,
            {
                if i > 0 {
                    line.append(" ");
                }
                line.append(args[i]);
                proof {
                    let w = words_view(args@.take(i + 1));
                    assert(w.drop_last() =~= words_view(args@.take(i as int)));
                    if i == 0 {
                        assert(words_view(args@.take(0)) =~= Seq::<Seq<char>>::empty());
                    }
                }
                i = i + 1;
            }
            assert(args@.take(n as int) =~= args@);
            line
        },
    }
}

impl UpdateAction {
    /// Returns string representation of the command-line arguments for invoking the update.
    pub fn command_str(self) -> (line: String)
        ensures
            line@ == shell_joined(seq![command_of(self).0] + command_of(self).1),
    {
        let (command, args) = self.command_args();
        let mut words: Vec<&str> = Vec::new();
        words.push(command);
        let n = args.len();
        let mut i: usize = 0;
        while i < n
            invariant
                n == args@.len(),
                i <= n,
                words@ == seq![command] + args@.take(i as int),
            decreases n - i,
        {
            words.push(args[i]);
            i = i + 1;
            assert(words@ =~= seq![command] + args@.take(i as int));
        }
        assert(args@.take(n as int) =~= args@);
        assert(words_view(words@) =~= seq![command_of(self).0] + command_of(self).1);
        proof {
            lemma_command_words_have_no_nul(self);
        }
        let quoted = shlex_try_join(&words);
        command_line_from(command, args, quoted)
    }
}

proof fn lemma_command_words_have_no_nul(action: UpdateAction)
    ensures
        !command_of(action).0.contains('\0'),
        forall|i: int|
            0 <= i < command_of(action).1.len() ==> !(#[trigger] command_of(action).1[i]).contains(
                '\0',
            ),
{
    reveal_strlit("npm");
    reveal_strlit("bun");
    reveal_strlit("brew");
    reveal_strlit("sh");
    reveal_strlit("powershell");
    reveal_strlit("install");
    reveal_strlit("-g");
    reveal_strlit("@openai/codex@latest");
    reveal_strlit("upgrade");
    reveal_strlit("codex");
    reveal_strlit("-c");
    reveal_strlit("curl -fsSL https://chatgpt.com/codex/install.sh | sh");
    reveal_strlit("irm https://chatgpt.com/codex/install.ps1|iex");
}

/// An update is offered for every kind of installation except `Other`.
pub proof fn lemma_update_offered_unless_other(context: InstallContext)
    ensures
        action_for_context(context) is None <==> context is Other,
{
}

/// The upstream distribution, whether its package is named or not, is
/// offered the update that fits its installation; a repackaged one never
/// is offered one.
pub proof fn lemma_only_upstream_is_updated(package: Option<Seq<char>>, context: InstallContext)
    ensures
        package is None ==> update_decision(package, context) == action_for_context(context),
        package == Some(official_package()) ==> update_decision(package, context)
            == action_for_context(context),
        package != Some(official_package()) && package is Some ==> update_decision(
            package,
            context,
        ) is None,
{
}

} // verus!
