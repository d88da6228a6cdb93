//! Metadata of a repackaged ("third-party") distribution, read from three
//! environment values, and the version and URLs derived from it.

use vstd::prelude::*;
use crate::text::{chars_of, str_equal, has_suffix, is_white_space, lemma_trim_fixed, lemma_trim_shape, trim_start, ends_with_at, has_prefix, matches_at, trim, trim_bounds, trim_end_matches, trim_start_matches};

verus! {

/// The first piece of `s` up to its first `/`, and what follows that `/`
/// (`None` when `s` holds no `/`), as the first two steps of `str::split('/')`.
pub open spec fn split_at_slash(s: Seq<char>) -> (Seq<char>, Option<Seq<char>>)
    decreases s.len(),
{
    if s.len() == 0 {
        (s, None)
    } else if s[0] == '/' {
        (Seq::empty(), Some(s.drop_first()))
    } else {
        let (head, rest) = split_at_slash(s.drop_first());
        (seq![s[0]] + head, rest)
    }
}

/// What follows the GitHub host in `t`, for the three URL forms that are
/// accepted: `https://github.com/`, `http://github.com/` and `git@github.com:`.
pub open spec fn after_github_host(t: Seq<char>) -> Option<Seq<char>> {
    if has_prefix(t, "https://github.com/"@) {
        Some(t.skip("https://github.com/"@.len() as int))
    } else if has_prefix(t, "http://github.com/"@) {
        Some(t.skip("http://github.com/"@.len() as int))
    } else if has_prefix(t, "git@github.com:"@) {
        Some(t.skip("git@github.com:"@.len() as int))
    } else {
        None
    }
}

/// The repository URL with surrounding white space, leading `git+` and
/// trailing `.git` removed.
pub open spec fn normalized_repository(repository: Seq<char>) -> Seq<char> {
    trim_end_matches(trim_start_matches(trim(repository), "git+"@), ".git"@)
}

/// The `owner/repo` slug that a GitHub repository URL names, if it names one:
/// the first two `/`-separated pieces after the host, each trimmed, both
/// non-empty.
pub open spec fn repo_slug(repository: Seq<char>) -> Option<Seq<char>> {
    match after_github_host(normalized_repository(repository)) {
        None => None,
        Some(path) => {
            let (owner_piece, rest) = split_at_slash(path);
            match rest {
                None => None,
                Some(rest) => {
                    let owner = trim(owner_piece);
                    let repo = trim(split_at_slash(rest).0);
                    if owner.len() == 0 || repo.len() == 0 {
                        None
                    } else {
                        Some(owner + seq!['/'] + repo)
                    }
                },
            }
        },
    }
}

proof fn lemma_split_at_slash_found(s: Seq<char>, k: int)
    requires
        0 <= k < s.len(),
        s[k] == '/',
        forall|j: int| 0 <= j < k ==> s[j] != '/',
    ensures
        split_at_slash(s) == (s.take(k), Some(s.skip(k + 1))),
    decreases k,
{
    if k > 0 {
        lemma_split_at_slash_found(s.drop_first(), k - 1);
        assert(seq![s[0]] + s.drop_first().take(k - 1) =~= s.take(k));
        assert(s.drop_first().skip(k) =~= s.skip(k + 1));
    } else {
        assert(s.take(0) =~= Seq::<char>::empty());
        assert(s.drop_first() =~= s.skip(1));
    }
}

proof fn lemma_split_at_slash_none(s: Seq<char>)
    requires
        forall|j: int| 0 <= j < s.len() ==> s[j] != '/',
    ensures
        split_at_slash(s) == (s, None::<Seq<char>>),
    decreases s.len(),
{
    if s.len() > 0 {
        lemma_split_at_slash_none(s.drop_first());
        assert(seq![s[0]] + s.drop_first() =~= s);
    }
}

/// Index of the first `/` in `v[lo..hi]`.
fn find_slash(v: &Vec<char>, lo: usize, hi: usize) -> (r: Option<usize>)
    requires
        lo <= hi <= v.len(),
    ensures
        match r {
            Some(k) => lo <= k < hi && v@[k as int] == '/' && forall|j: int|
                lo <= j < k ==> v@[j] != '/',
            None => forall|j: int| lo <= j < hi ==> v@[j] != '/',
        },
{
    let mut i = lo;
    while i < hi
        invariant
            lo <= i <= hi <= v.len(),
            forall|j: int| lo <= j < i ==> v@[j] != '/',
        decreases hi - i,
    {
        if v[i] == '/' {
            return Some(i);
        }
        i = i + 1;
    }
    None
}

proof fn lemma_split_window(v: Seq<char>, lo: int, hi: int, k: Option<usize>)
    requires
        0 <= lo <= hi <= v.len(),
        match k {
            Some(k) => lo <= k < hi && v[k as int] == '/' && forall|j: int|
                lo <= j < k ==> v[j] != '/',
            None => forall|j: int| lo <= j < hi ==> v[j] != '/',
        },
    ensures
        split_at_slash(v.subrange(lo, hi)) == match k {
            Some(k) => (v.subrange(lo, k as int), Some(v.subrange(k + 1, hi))),
            None => (v.subrange(lo, hi), None),
        },
{
    let s = v.subrange(lo, hi);
    match k {
        Some(k) => {
            lemma_split_at_slash_found(s, k - lo);
            assert(s.take(k - lo) =~= v.subrange(lo, k as int));
            assert(s.skip(k - lo + 1) =~= v.subrange(k + 1, hi));
        },
        None => {
            lemma_split_at_slash_none(s);
        },
    }
}

/// Reads the `owner/repo` slug out of a GitHub repository URL such as
/// `git+https://github.com/owner/repo.git`; `None` when the URL is not one
/// of the accepted GitHub forms or either piece is empty.
pub fn github_repo_slug(repository: &str) -> (slug: Option<String>)
    ensures
        match slug {
            Some(s) => repo_slug(repository@) == Some(s@),
            None => repo_slug(repository@) is None,
        },
{
    let v = chars_of(repository);
    let n = v.len();
    let (lo, hi) = trim_bounds(&v, 0, n);
    assert(v@.subrange(0, n as int) =~= repository@);
    let ghost trimmed = v@.subrange(lo as int, hi as int);
    proof {
        reveal_strlit("git+");
        reveal_strlit(".git");
    }
    let mut a = lo;
    while matches_at(&v, a, hi, "git+")
        invariant
            lo <= a <= hi <= v.len(),
            "git+"@.len() == 4,
            trim_start_matches(v@.subrange(a as int, hi as int), "git+"@) == trim_start_matches(
                trimmed,
                "git+"@,
            ),
        decreases hi - a,
    {
        assert(v@.subrange(a as int, hi as int).skip(4) =~= v@.subrange(a + 4, hi as int));
        a = a + 4;
    }
    let mut b = hi;
    while ends_with_at(&v, a, b, ".git")
        invariant
            a <= b <= hi <= v.len(),
            ".git"@.len() == 4,
            trim_end_matches(v@.subrange(a as int, b as int), ".git"@) == trim_end_matches(
                trim_start_matches(trimmed, "git+"@),
                ".git"@,
            ),
        decreases b - a,
    {
        assert(v@.subrange(a as int, b as int).take(b - a - 4) =~= v@.subrange(
            a as int,
            b - 4,
        ));
        b = b - 4;
    }
    assert(v@.subrange(a as int, b as int) == normalized_repository(repository@));
    let https = "https://github.com/";
    let http = "http://github.com/";
    let ssh = "git@github.com:";
    let start = if matches_at(&v, a, b, https) {
        a + https.unicode_len()
    } else if matches_at(&v, a, b, http) {
        a + http.unicode_len()
    } else if matches_at(&v, a, b, ssh) {
        a + ssh.unicode_len()
    } else {
        return None;
    };
    assert(v@.subrange(a as int, b as int).skip(start - a) =~= v@.subrange(
        start as int,
        b as int,
    ));
    let ghost path = v@.subrange(start as int, b as int);
    assert(after_github_host(normalized_repository(repository@)) == Some(path));
    let first = find_slash(&v, start, b);
    proof {
        lemma_split_window(v@, start as int, b as int, first);
    }
    let k = match first {
        Some(k) => k,
        None => {
            return None;
        },
    };
    let second = find_slash(&v, k + 1, b);
    proof {
        lemma_split_window(v@, k + 1, b as int, second);
    }
    let m = match second {
        Some(m) => m,
        None => b,
    };
    let (oa, ob) = trim_bounds(&v, start, k);
    let (ra, rb) = trim_bounds(&v, k + 1, m);
    if oa == ob || ra == rb {
        return None;
    }
    let mut out = String::from_str(repository.substring_char(oa, ob));
    out.append("/");
    out.append(repository.substring_char(ra, rb));
    proof {
        reveal_strlit("/");
        assert(out@ =~= v@.subrange(oa as int, ob as int) + seq!['/'] + v@.subrange(
            ra as int,
            rb as int,
        ));
    }
    Some(out)
}

/// The package name of the upstream distribution; any other package name
/// marks a repackaged distribution.
pub open spec fn official_package() -> Seq<char> {
    "@openai/codex"@
}

/// A repackaged distribution: its package name, its version if one is
/// given, and the GitHub `owner/repo` slug of its repository if one is given
/// and can be read.
#[derive(Debug, Clone, PartialEq, Eq)]
pub struct DistributionInfo {
    pub package: String,
    pub version: Option<String>,
    pub github_repo: Option<String>,
}

/// `DistributionInfo` as character sequences.
pub struct DistributionView {
    pub package: Seq<char>,
    pub version: Option<Seq<char>>,
    pub github_repo: Option<Seq<char>>,
}

impl View for DistributionInfo {
    type V = DistributionView;

    open spec fn view(&self) -> DistributionView {
        DistributionView {
            package: self.package@,
            version: self.version.deep_view(),
            github_repo: self.github_repo.deep_view(),
        }
    }
}

/// `Some(info)@` is `Some(info@)`.
pub open spec fn distribution_view(d: Option<DistributionInfo>) -> Option<DistributionView> {
    match d {
        Some(info) => Some(info@),
        None => None,
    }
}

/// Whether the package value names a repackaged distribution: it is given
/// and differs from the upstream package name.
pub open spec fn names_third_party(package: Option<Seq<char>>) -> bool {
    match package {
        Some(p) => p != official_package(),
        None => false,
    }
}

/// The distribution that the package, version and repository values
/// describe: none unless the package names a repackaged distribution.
pub open spec fn distribution_of(
    package: Option<Seq<char>>,
    version: Option<Seq<char>>,
    repository: Option<Seq<char>>,
) -> Option<DistributionView> {
    if names_third_party(package) {
        Some(
            DistributionView {
                package: package->0,
                version: version,
                github_repo: match repository {
                    Some(r) => repo_slug(r),
                    None => None,
                },
            },
        )
    } else {
        None
    }
}

/// Whether the package value (the distribution-package setting, if set)
/// names a repackaged distribution.
pub fn is_third_party_distribution(package: &Option<String>) -> (b: bool)
    ensures
        b == names_third_party(package.deep_view()),
{
    match package {
        Some(p) => !str_equal(p.as_str(), "@openai/codex"),
        None => false,
    }
}

/// The repackaged distribution described by the distribution-package,
/// -version and -repository settings; `None` when no package is set or it
/// is the upstream one.
pub fn third_party_distribution(
    package: Option<String>,
    version: Option<String>,
    repository: Option<String>,
) -> (info: Option<DistributionInfo>)
    ensures
        distribution_view(info) == distribution_of(
            package.deep_view(),
            version.deep_view(),
            repository.deep_view(),
        ),
{
    if !is_third_party_distribution(&package) {
        return None;
    }
    let github_repo = match &repository {
        Some(r) => github_repo_slug(r.as_str()),
        None => None,
    };
    match package {
        Some(package) => Some(DistributionInfo { package, version, github_repo }),
        None => None,
    }
}

/// The version to report: the distribution's own, when it has one,
/// otherwise `default_version`.
pub open spec fn version_of(d: Option<DistributionView>, default_version: Seq<char>) -> Seq<char> {
    match d {
        Some(info) => match info.version {
            Some(v) => v,
            None => default_version,
        },
        None => default_version,
    }
}

/// The repository slug of the distribution, when there is one.
pub open spec fn repo_of(d: Option<DistributionView>) -> Option<Seq<char>> {
    match d {
        Some(info) => info.github_repo,
        None => None,
    }
}

/// The project page: the distribution's GitHub repository when its slug is
/// known, otherwise the upstream repository.
pub open spec fn installation_url_of(repo: Option<Seq<char>>) -> Seq<char> {
    match repo {
        Some(r) => "https://github.com/"@ + r,
        None => "https://github.com/openai/codex"@,
    }
}

/// The latest-release page of the same repository.
pub open spec fn release_notes_url_of(repo: Option<Seq<char>>) -> Seq<char> {
    match repo {
        Some(r) => "https://github.com/"@ + r + "/releases/latest"@,
        None => "https://github.com/openai/codex/releases/latest"@,
    }
}

/// The version to report for the distribution, falling back to
/// `default_version`.
pub fn current_version(distribution: &Option<DistributionInfo>, default_version: &str) -> (v: String)
    ensures
        v@ == version_of(distribution_view(*distribution), default_version@),
{
    match distribution {
        Some(info) => match &info.version {
            Some(version) => version.clone(),
            None => String::from_str(default_version),
        },
        None => String::from_str(default_version),
    }
}

/// The URL of the latest release notes of the distribution's repository.
pub fn release_notes_url(distribution: &Option<DistributionInfo>) -> (url: String)
    ensures
        url@ == release_notes_url_of(repo_of(distribution_view(*distribution))),
{
    let repo = match distribution {
        Some(info) => &info.github_repo,
        None => &None,
    };
    match repo {
        Some(repo) => {
            let mut url = String::from_str("https://github.com/");
            url.append(repo.as_str());
            url.append("/releases/latest");
            url
        },
        None => String::from_str("https://github.com/openai/codex/releases/latest"),
    }
}

/// The URL of the distribution's repository.
pub fn installation_url(distribution: &Option<DistributionInfo>) -> (url: String)
    ensures
        url@ == installation_url_of(repo_of(distribution_view(*distribution))),
{
    let repo = match distribution {
        Some(info) => &info.github_repo,
        None => &None,
    };
    match repo {
        Some(repo) => {
            let mut url = String::from_str("https://github.com/");
            url.append(repo.as_str());
            url
        },
        None => String::from_str("https://github.com/openai/codex"),
    }
}

/// The release-notes page is the project page followed by
/// `/releases/latest`, whatever the distribution.
pub proof fn lemma_release_notes_extend_installation_url(repo: Option<Seq<char>>)
    ensures
        release_notes_url_of(repo) == installation_url_of(repo) + "/releases/latest"@,
{
    reveal_strlit("https://github.com/openai/codex/releases/latest");
    reveal_strlit("https://github.com/openai/codex");
    reveal_strlit("/releases/latest");
    assert("https://github.com/openai/codex/releases/latest"@ =~= "https://github.com/openai/codex"@
        + "/releases/latest"@);
}

/// One half of a repository slug: non-empty, free of `/`, and neither
/// starting nor ending with white space.
pub open spec fn is_slug_name(x: Seq<char>) -> bool {
    &&& x.len() > 0
    &&& !is_white_space(x[0])
    &&& !is_white_space(x.last())
    &&& forall|i: int| 0 <= i < x.len() ==> x[i] != '/'
}

proof fn lemma_split_head_has_no_slash(s: Seq<char>)
    ensures
        forall|i: int| 0 <= i < split_at_slash(s).0.len() ==> split_at_slash(s).0[i] != '/',
    decreases s.len(),
{
    if s.len() > 0 && s[0] != '/' {
        lemma_split_head_has_no_slash(s.drop_first());
        let head = split_at_slash(s.drop_first()).0;
        assert forall|i: int| 0 <= i < split_at_slash(s).0.len() implies split_at_slash(s).0[i]
            != '/' by {
            if i > 0 {
                assert(split_at_slash(s).0[i] == head[i - 1]);
            }
        }
    }
}

proof fn lemma_trimmed_piece_is_name(x: Seq<char>)
    requires
        forall|i: int| 0 <= i < x.len() ==> x[i] != '/',
        trim(x).len() > 0,
    ensures
        is_slug_name(trim(x)),
{
    lemma_trim_shape(x);
    let start = x.len() - trim_start(x).len();
    assert forall|i: int| 0 <= i < trim(x).len() implies trim(x)[i] != '/' by {
        assert(trim(x)[i] == x[start + i]);
    }
}

/// Every slug that `github_repo_slug` yields is an owner and a repository
/// name, each non-empty, free of `/` and of surrounding white space, joined
/// by a single `/`.
pub proof fn lemma_slug_is_owner_and_repo(repository: Seq<char>)
    ensures
        repo_slug(repository) matches Some(slug) ==> exists|k: int|
            0 < k < slug.len() && #[trigger] slug[k] == '/' && is_slug_name(slug.take(k))
                && is_slug_name(slug.skip(k + 1)),
{
    if let Some(slug) = repo_slug(repository) {
        let path = after_github_host(normalized_repository(repository))->0;
        let owner_piece = split_at_slash(path).0;
        let rest = split_at_slash(path).1->0;
        let owner = trim(owner_piece);
        let repo = trim(split_at_slash(rest).0);
        assert(slug == owner + seq!['/'] + repo);
        lemma_split_head_has_no_slash(path);
        lemma_split_head_has_no_slash(rest);
        lemma_trimmed_piece_is_name(owner_piece);
        lemma_trimmed_piece_is_name(split_at_slash(rest).0);
        let k = owner.len() as int;
        assert(slug.take(k) =~= owner);
        assert(slug.skip(k + 1) =~= repo);
        assert(slug[k] == '/');
    }
}

/// The slug of a GitHub URL keeps the owner and the whole repository name:
/// for every owner and repository name (non-empty, free of `/`, not
/// starting or ending with white space, the name not ending in `.git`),
/// `https://github.com/{owner}/{repo}` gives `{owner}/{repo}`, and so does
/// the same URL written `git+https://github.com/{owner}/{repo}.git`.
pub proof fn lemma_slug_keeps_owner_and_repo(owner: Seq<char>, repo: Seq<char>)
    requires
        is_slug_name(owner),
        is_slug_name(repo),
        !has_suffix(repo, ".git"@),
    ensures
        repo_slug("https://github.com/"@ + owner + seq!['/'] + repo) == Some(owner + seq!['/']
            + repo),
        repo_slug("git+https://github.com/"@ + owner + seq!['/'] + repo + ".git"@) == Some(
            owner + seq!['/'] + repo,
        ),
{
    let slug = owner + seq!['/'] + repo;
    let k = owner.len() as int;
    let host = "https://github.com/"@;
    let url = host + slug;
    reveal_strlit("https://github.com/");
    reveal_strlit("git+https://github.com/");
    reveal_strlit("git+");
    reveal_strlit(".git");
    assert(url =~= host + owner + seq!['/'] + repo);
    // The URL is already trimmed.
    assert(url[0] == 'h');
    assert(url.last() == repo.last());
    lemma_trim_fixed(url);
    // No leading `git+`.
    assert(url.take(4)[0] == 'h');
    assert(!has_prefix(url, "git+"@));
    assert(trim_start_matches(url, "git+"@) == url);
    // No trailing `.git`.
    if repo.len() >= 4 {
        assert(url.skip(url.len() - 4) =~= repo.skip(repo.len() - 4));
    } else {
        assert(url.skip(url.len() - 4)[3 - repo.len()] == '/');
    }
    assert(!has_suffix(url, ".git"@));
    assert(trim_end_matches(url, ".git"@) == url);
    assert(normalized_repository(url) == url);
    // The host is the first accepted form.
    assert(url.take(host.len() as int) =~= host);
    assert(url.skip(host.len() as int) =~= slug);
    assert(after_github_host(url) == Some(slug));
    // The path splits into the owner and the repository name.
    assert forall|j: int| 0 <= j < k implies slug[j] != '/' by {
        assert(slug[j] == owner[j]);
    }
    assert(slug[k] == '/');
    assert(slug.take(k) =~= owner);
    assert(slug.skip(k + 1) =~= repo);
    lemma_split_at_slash_found(slug, k);
    lemma_split_at_slash_none(repo);
    lemma_trim_fixed(owner);
    lemma_trim_fixed(repo);
    assert(repo_slug(url) == Some(slug));
    // The decorated form normalises to the same URL.
    let decorated = "git+https://github.com/"@ + owner + seq!['/'] + repo + ".git"@;
    let with_suffix = url + ".git"@;
    assert(decorated =~= "git+"@ + with_suffix);
    assert(decorated[0] == 'g');
    assert(decorated.last() == 't');
    lemma_trim_fixed(decorated);
    assert(decorated.take(4) =~= "git+"@);
    assert(decorated.skip(4) =~= with_suffix);
    assert(with_suffix.take(4)[0] == 'h');
    assert(!has_prefix(with_suffix, "git+"@));
    assert(trim_start_matches(with_suffix, "git+"@) == with_suffix);
    assert(has_prefix(decorated, "git+"@));
    assert(trim_start_matches(decorated, "git+"@) == trim_start_matches(
        decorated.skip(4),
        "git+"@,
    ));
    assert(trim_start_matches(decorated, "git+"@) == with_suffix);
    assert(with_suffix.skip(with_suffix.len() - 4) =~= ".git"@);
    assert(with_suffix.take(with_suffix.len() - 4) =~= url);
    assert(trim_end_matches(with_suffix, ".git"@) == url);
    assert(normalized_repository(decorated) == url);
}

/// Reading the slug back out of the project page built from it gives the
/// same slug, unless the slug ends in `.git` (which the reading strips).
pub proof fn lemma_installation_url_gives_back_its_slug(repository: Seq<char>)
    requires
        repo_slug(repository) is Some,
        !has_suffix(repo_slug(repository)->0, ".git"@),
    ensures
        repo_slug(installation_url_of(repo_slug(repository))) == repo_slug(repository),
{
    let slug = repo_slug(repository)->0;
    lemma_slug_is_owner_and_repo(repository);
    let k = choose|k: int|
        0 < k < slug.len() && #[trigger] slug[k] == '/' && is_slug_name(slug.take(k))
            && is_slug_name(slug.skip(k + 1));
    let owner = slug.take(k);
    let repo = slug.skip(k + 1);
    reveal_strlit(".git");
    assert(owner + seq!['/'] + repo =~= slug);
    if repo.len() >= 4 {
        assert(slug.skip(slug.len() - 4) =~= repo.skip(repo.len() - 4));
    }
    lemma_slug_keeps_owner_and_repo(owner, repo);
    assert("https://github.com/"@ + slug =~= "https://github.com/"@ + owner + seq!['/'] + repo);
}

/// A repackaged distribution is described exactly when the package setting
/// names one; its package is that setting, its version is the version
/// setting whatever the repository setting is, and its slug is read from
/// the repository setting alone.
pub proof fn lemma_distribution_fields_come_from_their_settings(
    package: Option<Seq<char>>,
    version: Option<Seq<char>>,
    repository: Option<Seq<char>>,
    other_repository: Option<Seq<char>>,
    other_version: Option<Seq<char>>,
)
    ensures
        distribution_of(package, version, repository) is Some <==> (package is Some
            && package->0 != official_package()),
        distribution_of(package, version, repository) matches Some(info) ==> {
            &&& info.package == package->0
            &&& info.version == version
            &&& info.github_repo == match repository {
                Some(r) => repo_slug(r),
                None => None,
            }
        },
        distribution_of(package, version, repository) is Some ==> distribution_of(
            package,
            version,
            other_repository,
        )->0.version == distribution_of(package, version, repository)->0.version,
        distribution_of(package, version, repository) is Some ==> distribution_of(
            package,
            other_version,
            repository,
        )->0.github_repo == distribution_of(package, version, repository)->0.github_repo,
{
}

} // verus!
