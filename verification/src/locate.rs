//! Where `tp-agent` is installed and where it is looked for.

use vstd::prelude::*;
use vstd::string::*;

use crate::config;
use crate::paths;
use crate::platform;
use crate::platform::{join_path, HostEnv, Platform};
use crate::text;

verus! {

/// The file name of the executable.
pub open spec fn bin_name(platform: Platform) -> Seq<char> {
    if platform == Platform::Windows {
        "tp-agent.exe"@
    } else {
        "tp-agent"@
    }
}

/// The file name of the executable, which has an ending on Windows.
pub fn tp_agent_bin_name(platform: Platform) -> (name: &'static str)
    ensures
        name@ == bin_name(platform),
{
    if matches!(platform, Platform::Windows) {
        "tp-agent.exe"
    } else {
        "tp-agent"
    }
}

/// The path `<base>/<first>/<second>`.
pub open spec fn two_below(
    platform: Platform,
    base: Seq<char>,
    first: Seq<char>,
    second: Seq<char>,
) -> Seq<char> {
    platform::path_below(platform, platform::path_below(platform, base, first), second)
}

fn join_two(platform: Platform, base: &str, first: &str, second: &str) -> (path: String)
    ensures
        path@ == two_below(platform, base@, first@, second@),
{
    join_path(platform, join_path(platform, base, first).as_str(), second)
}

/// The directory `<base>/<first>/<second>` where there is a base, as a list.
pub open spec fn optional_dir(
    platform: Platform,
    base: Option<String>,
    first: Seq<char>,
    second: Seq<char>,
) -> Seq<Seq<char>> {
    match base {
        Some(base) => seq![two_below(platform, base@, first, second)],
        None => seq![],
    }
}

/// The directories that an installation tries in turn. On Unix the system's directory comes
/// before the user's; on Windows both are the user's.
pub open spec fn install_dirs(platform: Platform, env: HostEnv) -> Seq<Seq<char>> {
    if platform == Platform::Windows {
        optional_dir(platform, env.local_app_data, "Programs"@, "tp-agent"@) + optional_dir(
            platform,
            env.user_profile,
            ".tp-agent"@,
            "bin"@,
        )
    } else {
        seq!["/usr/local/bin"@] + optional_dir(platform, env.home, ".local"@, "bin"@)
    }
}

/// Lists the directories that an installation tries in turn.
pub fn install_dir_candidates(platform: Platform, env: &HostEnv) -> (dirs: Vec<String>)
    ensures
        text::texts(dirs@) == install_dirs(platform, *env),
{
    let mut dirs: Vec<String> = Vec::new();
    if matches!(platform, Platform::Windows) {
        if let Some(local) = &env.local_app_data {
            dirs.push(join_two(platform, local.as_str(), "Programs", "tp-agent"));
        }
        if let Some(profile) = &env.user_profile {
            dirs.push(join_two(platform, profile.as_str(), ".tp-agent", "bin"));
        }
    } else {
        dirs.push("/usr/local/bin".to_owned());
        if let Some(home) = &env.home {
            dirs.push(join_two(platform, home.as_str(), ".local", "bin"));
        }
    }
    assert(text::texts(dirs@) == install_dirs(platform, *env));
    dirs
}

/// The directories to which users install the executable themselves.
pub open spec fn common_dirs(platform: Platform, env: HostEnv) -> Seq<Seq<char>> {
    if platform == Platform::Windows {
        optional_dir(platform, env.user_profile, ".cargo"@, "bin"@)
    } else {
        seq!["/opt/homebrew/bin"@] + optional_dir(platform, env.home, ".cargo"@, "bin"@)
    }
}

fn common_dir_candidates(platform: Platform, env: &HostEnv) -> (dirs: Vec<String>)
    ensures
        text::texts(dirs@) == common_dirs(platform, *env),
{
    let mut dirs: Vec<String> = Vec::new();
    if matches!(platform, Platform::Windows) {
        if let Some(profile) = &env.user_profile {
            dirs.push(join_two(platform, profile.as_str(), ".cargo", "bin"));
        }
    } else {
        dirs.push("/opt/homebrew/bin".to_owned());
        if let Some(home) = &env.home {
            dirs.push(join_two(platform, home.as_str(), ".cargo", "bin"));
        }
    }
    assert(text::texts(dirs@) == common_dirs(platform, *env));
    dirs
}

/// The paths of the executable in each of these directories.
pub open spec fn executables_in(platform: Platform, dirs: Seq<Seq<char>>) -> Seq<Seq<char>> {
    Seq::new(dirs.len(), |i: int| platform::path_below(platform, dirs[i], bin_name(platform)))
}

/// The paths at which the executable is looked for: in every directory that an installation
/// tries, and in those to which users install it themselves.
pub open spec fn located_at(platform: Platform, env: HostEnv) -> Seq<Seq<char>> {
    executables_in(platform, install_dirs(platform, env) + common_dirs(platform, env))
}

/// Lists the paths at which the executable is looked for.
pub fn locate_candidates(platform: Platform, env: &HostEnv) -> (paths: Vec<String>)
    ensures
        text::texts(paths@) == located_at(platform, *env),
{
    let name = tp_agent_bin_name(platform);
    let install = install_dir_candidates(platform, env);
    let common = common_dir_candidates(platform, env);
    let ghost dirs = install_dirs(platform, *env) + common_dirs(platform, *env);
    let mut paths: Vec<String> = Vec::new();
    for i in 0..install.len()
        invariant
            name@ == bin_name(platform),
            dirs == text::texts(install@) + text::texts(common@),
            paths@.len() == i,
            forall|k: int|
                0 <= k < paths@.len() ==> (#[trigger] paths@[k])@ == platform::path_below(
                    platform,
                    dirs[k],
                    bin_name(platform),
                ),
    {
        assert(dirs[i as int] == install@[i as int]@);
        paths.push(join_path(platform, install[i].as_str(), name));
    }
    for i in 0..common.len()
        invariant
            name@ == bin_name(platform),
            dirs == text::texts(install@) + text::texts(common@),
            paths@.len() == install@.len() + i,
            forall|k: int|
                0 <= k < paths@.len() ==> (#[trigger] paths@[k])@ == platform::path_below(
                    platform,
                    dirs[k],
                    bin_name(platform),
                ),
    {
        assert(dirs[install@.len() + i] == common@[i as int]@);
        paths.push(join_path(platform, common[i].as_str(), name));
    }
    assert(text::texts(paths@) == executables_in(platform, dirs));
    paths
}

/// The file that records where an installation put the executable. The directory of that may not
/// be on the search path of a graphical program.
pub fn installed_path_file(platform: Platform, env: &HostEnv) -> (path: Option<String>)
    ensures
        text::opt_text(path) == config::config_file(platform, *env, "agent-path"@),
{
    config::app_config_file(platform, env, "agent-path")
}

/// The path that the record holds, of which `content` is the text if it could be read.
pub open spec fn recorded(content: Option<&str>) -> Option<Seq<char>> {
    match content {
        Some(content) => Some(text::trimmed(content@)),
        None => None,
    }
}

/// Reads the path that the record holds.
pub fn recorded_path(content: Option<&str>) -> (path: Option<String>)
    ensures
        text::opt_text(path) == recorded(content),
{
    match content {
        Some(content) => Some(text::trim(content).to_owned()),
        None => None,
    }
}

/// A path, and whether a file is there.
#[derive(Debug)]
pub struct Probe {
    pub path: String,
    pub is_file: bool,
}

/// The first of these paths at which a file is.
pub open spec fn first_file(probes: Seq<Probe>) -> Option<Seq<char>>
    decreases probes.len(),
{
    if probes.len() == 0 {
        None
    } else if probes[0].is_file {
        Some(probes[0].path@)
    } else {
        first_file(probes.drop_first())
    }
}

/// Where the executable is: at the recorded path while a file is there, else where the search
/// path leads, else at the first candidate where a file is.
pub open spec fn located(
    recorded: Option<Probe>,
    on_search_path: Option<String>,
    candidates: Seq<Probe>,
) -> Option<Seq<char>> {
    if recorded is Some && recorded->0.is_file {
        Some(recorded->0.path@)
    } else if on_search_path is Some {
        Some(on_search_path->0@)
    } else {
        first_file(candidates)
    }
}

/// Finds the executable, given the recorded path, what the search path leads to, and the
/// candidates of `locate_candidates`.
pub fn locate_tp_agent(
    recorded: Option<Probe>,
    on_search_path: Option<String>,
    candidates: &Vec<Probe>,
) -> (path: Option<String>)
    ensures
        text::opt_text(path) == located(recorded, on_search_path, candidates@),
{
    if let Some(probe) = recorded {
        if probe.is_file {
            return Some(probe.path);
        }
    }
    if let Some(found) = on_search_path {
        return Some(found);
    }
    assert(candidates@.skip(0) == candidates@);
    for i in 0..candidates.len()
        invariant
            located(recorded, on_search_path, candidates@) == first_file(candidates@),
            first_file(candidates@) == first_file(candidates@.skip(i as int)),
    {
        assert(candidates@.skip(i as int).drop_first() == candidates@.skip(i + 1));
        if candidates[i].is_file {
            return Some(candidates[i].path.clone());
        }
    }
    None
}

/// Wherever an installation puts the executable, it is looked for there.
pub proof fn law_locate_covers_every_install_dir(platform: Platform, env: HostEnv, dir: Seq<char>)
    requires
        install_dirs(platform, env).contains(dir),
    ensures
        located_at(platform, env).contains(
            platform::path_below(platform, dir, bin_name(platform)),
        ),
{
    let dirs = install_dirs(platform, env);
    let i = choose|i: int| 0 <= i < dirs.len() && dirs[i] == dir;
    assert((dirs + common_dirs(platform, env))[i] == dir);
    assert(located_at(platform, env)[i] == platform::path_below(
        platform,
        dir,
        bin_name(platform),
    ));
}

proof fn lemma_first_file(probes: Seq<Probe>, i: int)
    requires
        0 <= i < probes.len(),
        probes[i].is_file,
    ensures
        exists|k: int| 0 <= k <= i && probes[k].is_file && first_file(probes) == Some(probes[k].path@),
    decreases probes.len(),
{
    if probes[0].is_file {
        assert(first_file(probes) == Some(probes[0].path@));
    } else {
        let rest = probes.drop_first();
        lemma_first_file(rest, i - 1);
        let k = choose|k: int|
            0 <= k <= i - 1 && rest[k].is_file && first_file(rest) == Some(rest[k].path@);
        assert(probes[k + 1] == rest[k]);
        assert(first_file(probes) == Some(probes[k + 1].path@));
    }
}

/// An executable that an installation has put into one of its directories is found, whether or
/// not the record or the search path leads to it.
pub proof fn law_installed_executable_is_found(
    platform: Platform,
    env: HostEnv,
    dir: Seq<char>,
    recorded: Option<Probe>,
    on_search_path: Option<String>,
    candidates: Seq<Probe>,
)
    requires
        install_dirs(platform, env).contains(dir),
        candidates.len() == located_at(platform, env).len(),
        forall|i: int|
            0 <= i < candidates.len() ==> (#[trigger] candidates[i]).path@ == located_at(
                platform,
                env,
            )[i],
        forall|i: int|
            0 <= i < candidates.len() && candidates[i].path@ == platform::path_below(
                platform,
                dir,
                bin_name(platform),
            ) ==> (#[trigger] candidates[i]).is_file,
    ensures
        located(recorded, on_search_path, candidates) is Some,
{
    law_locate_covers_every_install_dir(platform, env, dir);
    let path = platform::path_below(platform, dir, bin_name(platform));
    let i = choose|i: int|
        0 <= i < candidates.len() && located_at(platform, env)[i] == path;
    assert(candidates[i].is_file);
    lemma_first_file(candidates, i);
}

/// What is found is a file that the record or a candidate names, or where the search path leads.
pub proof fn law_what_is_found_is_there(
    recorded: Option<Probe>,
    on_search_path: Option<String>,
    candidates: Seq<Probe>,
)
    ensures
        match located(recorded, on_search_path, candidates) {
            Some(path) => {
                ||| recorded is Some && recorded->0.is_file && recorded->0.path@ == path
                ||| on_search_path is Some && on_search_path->0@ == path
                ||| exists|i: int|
                    0 <= i < candidates.len() && candidates[i].is_file && candidates[i].path@ == path
            },
            None => {
                &&& recorded is None || !recorded->0.is_file
                &&& on_search_path is None
                &&& forall|i: int| 0 <= i < candidates.len() ==> !(#[trigger] candidates[i]).is_file
            },
        },
    decreases candidates.len(),
{
    if candidates.len() > 0 && !candidates[0].is_file {
        let rest = candidates.drop_first();
        law_what_is_found_is_there(recorded, on_search_path, rest);
        assert forall|i: int| 0 <= i < rest.len() implies (#[trigger] rest[i]) == candidates[i
            + 1] by {}
        assert forall|i: int| 1 <= i < candidates.len() implies (#[trigger] candidates[i]) == rest[i
            - 1] by {}
    }
}

/// While a file is at the recorded path, that is the executable, whatever else there is.
pub proof fn law_the_record_comes_first(
    path: String,
    on_search_path: Option<String>,
    candidates: Seq<Probe>,
)
    ensures
        located(Some(Probe { path, is_file: true }), on_search_path, candidates) == Some(path@),
{
}

/// A recorded path at which no file is any more changes nothing.
pub proof fn law_a_stale_record_is_ignored(
    path: String,
    on_search_path: Option<String>,
    candidates: Seq<Probe>,
)
    ensures
        located(Some(Probe { path, is_file: false }), on_search_path, candidates) == located(
            None,
            on_search_path,
            candidates,
        ),
{
}

/// A path that an installation has recorded is read back as it was, unless white space stands
/// around it.
pub proof fn law_recorded_path_is_read_back(path: &str)
    requires
        text::trimmed(path@) == path@,
    ensures
        recorded(Some(path)) == Some(path@),
{
}

/// Every path at which the executable is looked for ends in its name, on every platform.
pub proof fn law_located_executable_has_its_name(platform: Platform, env: HostEnv, i: int)
    requires
        0 <= i < located_at(platform, env).len(),
    ensures
        paths::file_name(platform, located_at(platform, env)[i]) == Some(bin_name(platform)),
{
    let dir = (install_dirs(platform, env) + common_dirs(platform, env))[i];
    let name = bin_name(platform);
    lemma_names_are_plain(platform);
    if platform == Platform::Windows {
        if env.local_app_data is Some {
            paths::lemma_third_name_is_no_volume(
                env.local_app_data->0@,
                "Programs"@,
                "tp-agent"@,
                name,
            );
        }
        if env.user_profile is Some {
            let base = env.user_profile->0@;
            paths::lemma_third_name_is_no_volume(base, ".tp-agent"@, "bin"@, name);
            paths::lemma_third_name_is_no_volume(base, ".cargo"@, "bin"@, name);
        }
    } else {
        paths::lemma_plain_name_is_appended(platform, dir, name);
    }
    paths::law_file_name_of_a_path_below(platform, dir, name);
}

proof fn lemma_names_are_plain(platform: Platform)
    ensures
        paths::is_plain_name(platform, bin_name(platform)),
        paths::is_plain_name(platform, "Programs"@),
        paths::is_plain_name(platform, "tp-agent"@),
        paths::is_plain_name(platform, ".tp-agent"@),
        paths::is_plain_name(platform, ".cargo"@),
        paths::is_plain_name(platform, "bin"@),
        "Programs"@.len() >= 3 && "Programs"@.last() != 'C',
        ".tp-agent"@.len() >= 3 && ".tp-agent"@.last() != 'C',
        ".cargo"@.len() >= 3 && ".cargo"@.last() != 'C',
        "Programs"@.last() != '?' && ".tp-agent"@.last() != '?' && ".cargo"@.last() != '?',
{
    reveal_strlit("tp-agent.exe");
    reveal_strlit("tp-agent");
    reveal_strlit("Programs");
    reveal_strlit(".tp-agent");
    reveal_strlit(".cargo");
    reveal_strlit("bin");
    assert("tp-agent.exe"@.len() == 12 && "tp-agent"@.len() == 8 && "Programs"@.len() == 8);
    assert(".tp-agent"@.len() == 9 && ".cargo"@.len() == 6 && "bin"@.len() == 3);
    assert(seq!['.'].len() == 1 && seq!['.', '.'].len() == 2);
}

/// Whether a variable from which the last resort of an installation follows is set.
pub open spec fn user_dir_known(platform: Platform, env: HostEnv) -> bool {
    if platform == Platform::Windows {
        env.user_profile is Some || env.local_app_data is Some
    } else {
        env.home is Some
    }
}

/// The user's own directory below which the last resort of an installation is.
pub open spec fn user_dir(platform: Platform, env: HostEnv) -> Seq<char> {
    if platform != Platform::Windows {
        env.home->0@
    } else if env.user_profile is Some {
        env.user_profile->0@
    } else {
        env.local_app_data->0@
    }
}

/// Where a directory of the user's own is known, the last directory that an installation tries
/// lies below it.
pub proof fn law_last_resort_is_the_users_own(platform: Platform, env: HostEnv)
    requires
        user_dir_known(platform, env),
    ensures
        install_dirs(platform, env).len() > 0,
        platform::lies_below(platform, install_dirs(platform, env).last(), user_dir(platform, env)),
{
    let base = user_dir(platform, env);
    let (first, second) = if platform != Platform::Windows {
        (".local"@, "bin"@)
    } else if env.user_profile is Some {
        (".tp-agent"@, "bin"@)
    } else {
        ("Programs"@, "tp-agent"@)
    };
    let below = platform::path_below(platform, base, first);
    let last = platform::path_below(platform, below, second);
    assert(install_dirs(platform, env).last() == last);
    platform::lemma_lies_below_itself(platform, base);
    platform::lemma_below_stays_below(platform, base, base, first);
    platform::lemma_below_stays_below(platform, below, base, second);
}

/// Where no file is at the recorded path, or nothing is recorded, the executable is where the
/// search path leads, whatever the candidates are.
pub proof fn law_the_search_path_comes_second(
    recorded: Option<Probe>,
    found: String,
    candidates: Seq<Probe>,
)
    requires
        recorded is None || !recorded->0.is_file,
    ensures
        located(recorded, Some(found), candidates) == Some(found@),
{
}

/// Where neither the record nor the search path leads to the executable, it is at the first
/// candidate at which a file is.
pub proof fn law_the_first_candidate_comes_last(
    recorded: Option<Probe>,
    candidates: Seq<Probe>,
    i: int,
)
    requires
        recorded is None || !recorded->0.is_file,
        0 <= i < candidates.len(),
        candidates[i].is_file,
        forall|k: int| 0 <= k < i ==> !(#[trigger] candidates[k]).is_file,
    ensures
        located(recorded, None, candidates) == Some(candidates[i].path@),
    decreases i,
{
    if i > 0 {
        assert(!candidates[0].is_file);
        let rest = candidates.drop_first();
        assert forall|k: int| 0 <= k < i - 1 implies !(#[trigger] rest[k]).is_file by {
            assert(rest[k] == candidates[k + 1]);
        }
        law_the_first_candidate_comes_last(recorded, rest, i - 1);
    }
}

/// The executable has an ending on Windows, and none elsewhere.
pub proof fn law_executable_is_named_for_its_platform(platform: Platform)
    ensures
        platform == Platform::Windows ==> bin_name(platform) == "tp-agent.exe"@,
        platform != Platform::Windows ==> bin_name(platform) == "tp-agent"@,
{
}

/// Except on Windows, an installation tries the system's directory and, where the user's is known,
/// one below that.
pub proof fn law_unix_install_dirs(platform: Platform, env: HostEnv)
    requires
        platform != Platform::Windows,
    ensures
        match env.home {
            Some(home) => install_dirs(platform, env) == seq![
                "/usr/local/bin"@,
                platform::path_below(
                    platform,
                    platform::path_below(platform, home@, ".local"@),
                    "bin"@,
                ),
            ],
            None => install_dirs(platform, env) == seq!["/usr/local/bin"@],
        },
{
    if let Some(home) = env.home {
        assert(install_dirs(platform, env) == seq![
            "/usr/local/bin"@,
            two_below(platform, home@, ".local"@, "bin"@),
        ]);
    } else {
        assert(install_dirs(platform, env) == seq!["/usr/local/bin"@]);
    }
}

/// On Windows an installation tries a directory below each of two directories of the user's, as
/// far as they are known.
pub proof fn law_windows_install_dirs(env: HostEnv)
    ensures
        ({
            let w = Platform::Windows;
            let local = platform::path_below(
                w,
                platform::path_below(w, env.local_app_data->0@, "Programs"@),
                "tp-agent"@,
            );
            let own = platform::path_below(
                w,
                platform::path_below(w, env.user_profile->0@, ".tp-agent"@),
                "bin"@,
            );
            match (env.local_app_data is Some, env.user_profile is Some) {
                (true, true) => install_dirs(w, env) == seq![local, own],
                (true, false) => install_dirs(w, env) == seq![local],
                (false, true) => install_dirs(w, env) == seq![own],
                (false, false) => install_dirs(w, env) == Seq::<Seq<char>>::empty(),
            }
        }),
{
    let w = Platform::Windows;
    let local = two_below(w, env.local_app_data->0@, "Programs"@, "tp-agent"@);
    let own = two_below(w, env.user_profile->0@, ".tp-agent"@, "bin"@);
    if env.local_app_data is Some && env.user_profile is Some {
        assert(install_dirs(w, env) == seq![local, own]);
    } else if env.local_app_data is Some {
        assert(install_dirs(w, env) == seq![local]);
    } else if env.user_profile is Some {
        assert(install_dirs(w, env) == seq![own]);
    } else {
        assert(install_dirs(w, env) == Seq::<Seq<char>>::empty());
    }
}

/// The executable is looked for in the directories of an installation first and in those of the
/// users' own installations behind them, under its name, in their order.
pub proof fn law_executable_is_looked_for_in_order(platform: Platform, env: HostEnv, i: int)
    ensures
        ({
            let install = install_dirs(platform, env);
            let common = common_dirs(platform, env);
            let paths = located_at(platform, env);
            &&& paths.len() == install.len() + common.len()
            &&& 0 <= i < install.len() ==> paths[i] == platform::path_below(
                platform,
                install[i],
                bin_name(platform),
            )
            &&& 0 <= i < common.len() ==> paths[install.len() + i] == platform::path_below(
                platform,
                common[i],
                bin_name(platform),
            )
        }),
{
}

/// The users' own installations are those of Homebrew, except on Windows, and those of Cargo below
/// the user's directory, where that is known.
pub proof fn law_common_dirs(platform: Platform, env: HostEnv)
    ensures
        ({
            let user = if platform == Platform::Windows {
                env.user_profile
            } else {
                env.home
            };
            let cargo = platform::path_below(
                platform,
                platform::path_below(platform, user->0@, ".cargo"@),
                "bin"@,
            );
            match (platform == Platform::Windows, user is Some) {
                (true, true) => common_dirs(platform, env) == seq![cargo],
                (true, false) => common_dirs(platform, env) == Seq::<Seq<char>>::empty(),
                (false, true) => common_dirs(platform, env) == seq!["/opt/homebrew/bin"@, cargo],
                (false, false) => common_dirs(platform, env) == seq!["/opt/homebrew/bin"@],
            }
        }),
{
    let user = if platform == Platform::Windows {
        env.user_profile
    } else {
        env.home
    };
    let cargo = two_below(platform, user->0@, ".cargo"@, "bin"@);
    if platform == Platform::Windows {
        if user is None {
            assert(common_dirs(platform, env) == Seq::<Seq<char>>::empty());
        }
    } else if user is Some {
        assert(common_dirs(platform, env) == seq!["/opt/homebrew/bin"@, cargo]);
    } else {
        assert(common_dirs(platform, env) == seq!["/opt/homebrew/bin"@]);
    }
}

/// The record is the text of its file without the white space around it.
pub proof fn law_record_is_trimmed(content: &str)
    ensures
        recorded(Some(content)) == Some(text::trimmed(content@)),
        recorded(None) is None,
{
}

} // verus!
