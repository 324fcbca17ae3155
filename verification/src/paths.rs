//! Where the player keeps its files: three roots (data, config, cache) and the files and
//! directories below them.
use vstd::prelude::*;

verus! {

/// The directory name of the player under each of the system's data, config and cache
/// directories.
pub const APP_NAME: &'static str = "ncm-tui-player";

/// Whether `name` is a single path component that no platform reads as a root, a drive, or
/// the current or parent directory (`.` and `..`, which a join may normalize away).
pub open spec fn plain_component(name: Seq<char>) -> bool {
    &&& name.len() > 0
    &&& name != seq!['.']
    &&& name != seq!['.', '.']
    &&& forall|i: int| 0 <= i < name.len() ==> #[trigger] name[i] != '/' && name[i] != '\\' && name[i]
        != ':'
}

/// Whether `path` begins as a Windows verbatim path does (`\\?\...`): two separators and a `?`.
/// Joining onto such a path rewrites the whole path, so the library does not join onto one.
pub open spec fn verbatim_path(path: Seq<char>) -> bool {
    &&& path.len() >= 3
    &&& (path[0] == '\\' || path[0] == '/')
    &&& (path[1] == '\\' || path[1] == '/')
    &&& path[2] == '?'
}

/// Whether `path` is `base` followed by `name`, with at most one separator between them.
pub open spec fn joined_under(path: Seq<char>, base: Seq<char>, name: Seq<char>) -> bool {
    &&& path.len() >= base.len() + name.len()
    &&& path.len() <= base.len() + name.len() + 1
    &&& path.take(base.len() as int) == base
    &&& path.skip(path.len() - name.len()) == name
}

/// `std::path::Path::join` of `name` onto `base`, as text. What separator goes between them
/// depends on the platform and on how `base` ends, so the contract states only that the result
/// is `base`, at most one character, then `name`. A verbatim `base` is left out: on Windows the
/// join then rebuilds the whole path, dropping `.` and `..` components and doubled separators.
#[verifier::external_body]
fn join_path(base: &str, name: &str) -> (r: String)
    requires
        plain_component(name@),
        !verbatim_path(base@),
    ensures
        joined_under(r@, base@, name@),
{
    std::path::Path::new(base).join(name).to_string_lossy().into_owned()
}

/// The player's directories and files.
#[derive(Clone, Debug)]
pub struct Path {
    pub data: String,
    pub config: String,
    pub cache: String,
    /// The local API program, under `data`.
    pub api_program: String,
    /// `settings.json`, under `config`.
    pub settings: String,
    /// The login cookies, under `data`.
    pub login_cookie: String,
    /// The lyrics cache, under `cache`.
    pub lyrics: String,
    /// The daily recommendation cache, under `cache`.
    pub daily_recommend: String,
    /// The default download directory, under `data`.
    pub downloads: String,
}

impl Path {
    /// The files and directories below the roots `data`, `config` and `cache` (each already
    /// the player's own directory).
    pub fn from_roots(data: String, config: String, cache: String) -> (r: Path)
        requires
            !verbatim_path(data@),
            !verbatim_path(config@),
            !verbatim_path(cache@),
        ensures
            r.data@ == data@,
            r.config@ == config@,
            r.cache@ == cache@,
            joined_under(r.api_program@, data@, "neteasecloudmusicapi"@),
            joined_under(r.settings@, config@, "settings.json"@),
            joined_under(r.login_cookie@, data@, "cookies"@),
            joined_under(r.lyrics@, cache@, "lyrics"@),
            joined_under(r.daily_recommend@, cache@, "daily_recommend"@),
            joined_under(r.downloads@, data@, "downloads"@),
    {
        proof {
            reveal_strlit("neteasecloudmusicapi");
            reveal_strlit("settings.json");
            reveal_strlit("cookies");
            reveal_strlit("lyrics");
            reveal_strlit("daily_recommend");
            reveal_strlit("downloads");
            assert(seq!['.'].len() == 1 && seq!['.', '.'].len() == 2);
            assert("neteasecloudmusicapi"@.len() > 2 && "settings.json"@.len() > 2);
            assert("cookies"@.len() > 2 && "lyrics"@.len() > 2);
            assert("daily_recommend"@.len() > 2 && "downloads"@.len() > 2);
        }
        let api_program = join_path(data.as_str(), "neteasecloudmusicapi");
        let settings = join_path(config.as_str(), "settings.json");
        let login_cookie = join_path(data.as_str(), "cookies");
        let lyrics = join_path(cache.as_str(), "lyrics");
        let daily_recommend = join_path(cache.as_str(), "daily_recommend");
        let downloads = join_path(data.as_str(), "downloads");
        Path {
            data,
            config,
            cache,
            api_program,
            settings,
            login_cookie,
            lyrics,
            daily_recommend,
            downloads,
        }
    }

    /// Where `settings.json` was kept before it moved to the config directory: under `data`.
    pub fn legacy_settings(&self) -> (r: String)
        requires
            !verbatim_path(self.data@),
        ensures
            joined_under(r@, self.data@, "settings.json"@),
    {
        proof {
            reveal_strlit("settings.json");
            assert(seq!['.'].len() == 1 && seq!['.', '.'].len() == 2);
            assert("settings.json"@.len() > 2);
        }
        join_path(self.data.as_str(), "settings.json")
    }
}

/// The player's own directory under a system directory `root`.
pub fn app_dir(root: &str) -> (r: String)
    requires
        !verbatim_path(root@),
    ensures
        joined_under(r@, root@, APP_NAME@),
{
    proof {
        reveal_strlit("ncm-tui-player");
        assert(seq!['.'].len() == 1 && seq!['.', '.'].len() == 2);
        assert(APP_NAME@.len() > 2);
    }
    join_path(root, APP_NAME)
}

} // verus!
