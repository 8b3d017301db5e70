//! Where the clean-up looks: the system's temporary directories, the cache
//! of Microsoft Teams, and the caches of the web browsers.

use vstd::prelude::*;

use crate::text::{joined, push_text, starts_with, text_views, texts_equal};

verus! {

/// The environment variables that decide the directories, each as read
/// (`None` when unset or not valid Unicode).
pub struct Environment {
    pub temp: Option<String>,
    pub tmp: Option<String>,
    pub user_profile: Option<String>,
    pub windir: Option<String>,
    pub appdata: Option<String>,
    pub local_appdata: Option<String>,
}

/// The text of a variable, or `default` when it is unset.
pub open spec fn or_default(v: Option<String>, default: Seq<char>) -> Seq<char> {
    match v {
        Some(s) => s@,
        None => default,
    }
}

/// The user's profile directory: `%USERPROFILE%`, else `C:\Users\Default`.
pub open spec fn user_profile_dir(env: Environment) -> Seq<char> {
    or_default(env.user_profile, "C:\\Users\\Default"@)
}

/// The system's temporary directory: `%TEMP%`, else `%TMP%`, else
/// `C:\Windows\Temp`.
pub open spec fn temp_dir(env: Environment) -> Seq<char> {
    or_default(env.temp, or_default(env.tmp, "C:\\Windows\\Temp"@))
}

/// The Windows directory: `%WINDIR%`, else `C:\Windows`.
pub open spec fn windows_dir(env: Environment) -> Seq<char> {
    or_default(env.windir, "C:\\Windows"@)
}

/// The roaming application data: `%APPDATA%`, else
/// `<profile>\AppData\Roaming`.
pub open spec fn roaming_dir(env: Environment) -> Seq<char> {
    or_default(env.appdata, user_profile_dir(env) + "\\AppData\\Roaming"@)
}

/// The local application data: `%LOCALAPPDATA%`, else
/// `<profile>\AppData\Local`.
pub open spec fn local_dir(env: Environment) -> Seq<char> {
    or_default(env.local_appdata, user_profile_dir(env) + "\\AppData\\Local"@)
}

/// The text of a variable, or `default` when it is unset.
fn value_or(v: &Option<String>, default: &str) -> (r: String)
    ensures
        r@ == or_default(*v, default@),
{
    match v {
        Some(s) => String::from_str(s.as_str()),
        None => String::from_str(default),
    }
}

impl Environment {
    /// The user's profile directory.
    pub fn user_profile_dir(&self) -> (r: String)
        ensures
            r@ == user_profile_dir(*self),
    {
        value_or(&self.user_profile, "C:\\Users\\Default")
    }

    /// The system's temporary directory.
    pub fn temp_dir(&self) -> (r: String)
        ensures
            r@ == temp_dir(*self),
    {
        match &self.temp {
            Some(s) => String::from_str(s.as_str()),
            None => value_or(&self.tmp, "C:\\Windows\\Temp"),
        }
    }

    /// The Windows directory.
    pub fn windows_dir(&self) -> (r: String)
        ensures
            r@ == windows_dir(*self),
    {
        value_or(&self.windir, "C:\\Windows")
    }

    /// The roaming application data directory.
    pub fn roaming_dir(&self) -> (r: String)
        ensures
            r@ == roaming_dir(*self),
    {
        match &self.appdata {
            Some(s) => String::from_str(s.as_str()),
            None => {
                let profile = self.user_profile_dir();
                joined(profile.as_str(), "\\AppData\\Roaming")
            },
        }
    }

    /// The local application data directory.
    pub fn local_dir(&self) -> (r: String)
        ensures
            r@ == local_dir(*self),
    {
        match &self.local_appdata {
            Some(s) => String::from_str(s.as_str()),
            None => {
                let profile = self.user_profile_dir();
                joined(profile.as_str(), "\\AppData\\Local")
            },
        }
    }
}

/// A directory to clean, under a heading: either the directory itself is
/// removed, or only what it holds.
pub struct DirSection {
    pub label: String,
    pub path: String,
    pub remove_root: bool,
}

/// A section taken by its heading, its path and whether the directory
/// itself goes.
pub open spec fn section_view(s: DirSection) -> (Seq<char>, Seq<char>, bool) {
    (s.label@, s.path@, s.remove_root)
}

/// The sections taken by their views.
pub open spec fn section_views(v: Seq<DirSection>) -> Seq<(Seq<char>, Seq<char>, bool)> {
    v.map_values(|s: DirSection| section_view(s))
}

/// The temporary directories cleaned first, in order: the directory that
/// Hiren's Boot CD leaves, which is removed whole, then the system and user
/// temporary directories, the prefetch files and the Windows temporary
/// directory, which are emptied.
pub open spec fn temp_sections_of(env: Environment) -> Seq<(Seq<char>, Seq<char>, bool)> {
    seq![
        ("Windows\\Temp\\TempHBCD"@, windows_dir(env) + "\\Temp\\TempHBCD"@, true),
        ("Temporários do Sistema (%TEMP%)"@, temp_dir(env), false),
        (
            "Temporários do Usuário (AppData\\Local\\Temp)"@,
            user_profile_dir(env) + "\\AppData\\Local\\Temp"@,
            false,
        ),
        ("Prefetch do Windows"@, windows_dir(env) + "\\Prefetch"@, false),
        ("Temp do Windows"@, windows_dir(env) + "\\Temp"@, false),
    ]
}

/// Appends one section.
fn push_section(v: &mut Vec<DirSection>, label: &str, path: String, remove_root: bool)
    ensures
        section_views(final(v)@) == section_views(old(v)@).push((label@, path@, remove_root)),
{
    v.push(DirSection { label: String::from_str(label), path, remove_root });
    assert(section_views(v@) =~= section_views(old(v)@).push((label@, path@, remove_root)));
}

/// The temporary directories to clean, with their headings.
pub fn temp_sections(env: &Environment) -> (r: Vec<DirSection>)
    ensures
        section_views(r@) == temp_sections_of(*env),
{
    let windir = env.windows_dir();
    let profile = env.user_profile_dir();
    let mut v: Vec<DirSection> = Vec::new();
    push_section(
        &mut v,
        "Windows\\Temp\\TempHBCD",
        joined(windir.as_str(), "\\Temp\\TempHBCD"),
        true,
    );
    push_section(&mut v, "Temporários do Sistema (%TEMP%)", env.temp_dir(), false);
    push_section(
        &mut v,
        "Temporários do Usuário (AppData\\Local\\Temp)",
        joined(profile.as_str(), "\\AppData\\Local\\Temp"),
        false,
    );
    push_section(&mut v, "Prefetch do Windows", joined(windir.as_str(), "\\Prefetch"), false);
    push_section(&mut v, "Temp do Windows", joined(windir.as_str(), "\\Temp"), false);
    assert(section_views(v@) =~= temp_sections_of(*env));
    v
}

/// How each directory is found: the variable's text when it is set, else
/// the fixed default, built from the profile directory where the default
/// depends on it.
pub proof fn lemma_directories_from_variables(env: Environment)
    ensures
        ({
            let profile = match env.user_profile {
                Some(p) => p@,
                None => "C:\\Users\\Default"@,
            };
            &&& user_profile_dir(env) == profile
            &&& temp_dir(env) == match env.temp {
                Some(t) => t@,
                None => match env.tmp {
                    Some(t) => t@,
                    None => "C:\\Windows\\Temp"@,
                },
            }
            &&& windows_dir(env) == match env.windir {
                Some(w) => w@,
                None => "C:\\Windows"@,
            }
            &&& roaming_dir(env) == match env.appdata {
                Some(a) => a@,
                None => profile + "\\AppData\\Roaming"@,
            }
            &&& local_dir(env) == match env.local_appdata {
                Some(l) => l@,
                None => profile + "\\AppData\\Local"@,
            }
        }),
{
}

/// The temporary sections clean, in order: `<windir>\Temp\TempHBCD`
/// (removed whole), the system temporary directory, `<profile>\AppData\Local\Temp`,
/// `<windir>\Prefetch` and `<windir>\Temp` (emptied); each path is the
/// directory's text followed by its fixed suffix and nothing else.
pub proof fn lemma_temp_section_paths(env: Environment)
    ensures
        ({
            let sections = temp_sections_of(env);
            let profile = match env.user_profile {
                Some(p) => p@,
                None => "C:\\Users\\Default"@,
            };
            let windir = match env.windir {
                Some(w) => w@,
                None => "C:\\Windows"@,
            };
            let temp = match env.temp {
                Some(t) => t@,
                None => match env.tmp {
                    Some(t) => t@,
                    None => "C:\\Windows\\Temp"@,
                },
            };
            &&& sections.len() == 5
            &&& sections[0].1 == windir + "\\Temp\\TempHBCD"@ && sections[0].2
            &&& sections[1].1 == temp && !sections[1].2
            &&& sections[2].1 == profile + "\\AppData\\Local\\Temp"@ && !sections[2].2
            &&& sections[3].1 == windir + "\\Prefetch"@ && !sections[3].2
            &&& sections[4].1 == windir + "\\Temp"@ && !sections[4].2
        }),
{
}

/// The subdirectories of the Teams data that are emptied, in order.
pub open spec fn teams_subdirs() -> Seq<Seq<char>> {
    seq!["tmp"@, "blob_storage"@, "Cache"@, "IndexedDB"@, "GPUCache"@, "databases"@]
}

/// A directory whose contents are removed, with the label it is reported
/// under.
pub struct LabeledDir {
    pub label: String,
    pub path: String,
}

/// The labelled directories taken by their label and path.
pub open spec fn labeled_views(v: Seq<LabeledDir>) -> Seq<(Seq<char>, Seq<char>)> {
    v.map_values(|d: LabeledDir| (d.label@, d.path@))
}

/// The label and the path of the Teams directory `sub` under the roaming
/// data `roaming`.
pub open spec fn teams_dir_of(roaming: Seq<char>, sub: Seq<char>) -> (Seq<char>, Seq<char>) {
    ("  Teams\\"@ + sub, roaming + "\\Microsoft\\teams\\"@ + sub)
}

/// The Teams subdirectory number `k`.
fn teams_subdir(k: usize) -> (r: &'static str)
    requires
        k < 6,
    ensures
        r@ == teams_subdirs()[k as int],
{
    match k {
        0 => "tmp",
        1 => "blob_storage",
        2 => "Cache",
        3 => "IndexedDB",
        4 => "GPUCache",
        _ => "databases",
    }
}

/// The Teams directories to empty, under the roaming data `roaming`, each
/// with its label.
pub fn teams_dirs(roaming: &str) -> (r: Vec<LabeledDir>)
    ensures
        labeled_views(r@) == teams_subdirs().map_values(|sub: Seq<char>| teams_dir_of(roaming@, sub)),
{
    let mut v: Vec<LabeledDir> = Vec::new();
    let mut k: usize = 0;
    while k < 6
        invariant
            k <= 6,
            teams_subdirs().len() == 6,
            labeled_views(v@) == teams_subdirs().take(k as int).map_values(
                |sub: Seq<char>| teams_dir_of(roaming@, sub),
            ),
        decreases 6 - k,
    {
        let sub = teams_subdir(k);
        let base = joined(roaming, "\\Microsoft\\teams\\");
        let label = joined("  Teams\\", sub);
        let path = joined(base.as_str(), sub);
        let ghost before = v@;
        v.push(LabeledDir { label, path });
        assert(teams_subdirs().take(k as int + 1) =~= teams_subdirs().take(k as int).push(sub@));
        assert(labeled_views(v@) =~= labeled_views(before).push(teams_dir_of(roaming@, sub@)));
        assert(teams_subdirs().take(k as int + 1).map_values(
            |sub: Seq<char>| teams_dir_of(roaming@, sub),
        ) =~= teams_subdirs().take(k as int).map_values(
            |sub: Seq<char>| teams_dir_of(roaming@, sub),
        ).push(teams_dir_of(roaming@, sub@)));
        k = k + 1;
    }
    assert(teams_subdirs().take(6) =~= teams_subdirs());
    v
}

/// The Teams directories emptied under the roaming data `roaming`: the six
/// folders `tmp`, `blob_storage`, `Cache`, `IndexedDB`, `GPUCache` and
/// `databases` of `<roaming>\Microsoft\teams`, each path being exactly that
/// concatenation, with the label `  Teams\<folder>`.
pub proof fn lemma_teams_paths(roaming: Seq<char>)
    ensures
        ({
            let dirs = teams_subdirs().map_values(|sub: Seq<char>| teams_dir_of(roaming, sub));
            let base = roaming + "\\Microsoft\\teams\\"@;
            &&& dirs.len() == 6
            &&& dirs[0] == ("  Teams\\"@ + "tmp"@, base + "tmp"@)
            &&& dirs[1] == ("  Teams\\"@ + "blob_storage"@, base + "blob_storage"@)
            &&& dirs[2] == ("  Teams\\"@ + "Cache"@, base + "Cache"@)
            &&& dirs[3] == ("  Teams\\"@ + "IndexedDB"@, base + "IndexedDB"@)
            &&& dirs[4] == ("  Teams\\"@ + "GPUCache"@, base + "GPUCache"@)
            &&& dirs[5] == ("  Teams\\"@ + "databases"@, base + "databases"@)
        }),
{
}

/// The application data directory a cache lives under.
#[derive(PartialEq, Eq, Structural, Clone, Copy, Debug)]
pub enum AppDataBase {
    /// `%LOCALAPPDATA%`.
    Local,
    /// `%APPDATA%`.
    Roaming,
}

/// A cache directory (or file) of a browser, relative to an application data
/// directory.
pub struct CacheDir {
    pub base: AppDataBase,
    pub rel: String,
}

/// A browser: its name, the executable to stop before cleaning, and its
/// caches.
pub struct Browser {
    pub name: String,
    pub process: String,
    pub cache_dirs: Vec<CacheDir>,
}

/// The caches taken by their base and relative path.
pub open spec fn cache_dir_views(v: Seq<CacheDir>) -> Seq<(AppDataBase, Seq<char>)> {
    v.map_values(|d: CacheDir| (d.base, d.rel@))
}

/// A browser taken by its name, its executable and its caches.
pub open spec fn browser_view(b: Browser) -> (Seq<char>, Seq<char>, Seq<(AppDataBase, Seq<char>)>) {
    (b.name@, b.process@, cache_dir_views(b.cache_dirs@))
}

/// The caches of Google Chrome.
pub open spec fn chrome_caches() -> Seq<(AppDataBase, Seq<char>)> {
    seq![
        (AppDataBase::Local, "Google\\Chrome\\User Data\\Default\\Cache"@),
        (AppDataBase::Local, "Google\\Chrome\\User Data\\Default\\Code Cache"@),
        (AppDataBase::Local, "Google\\Chrome\\User Data\\Default\\GPUCache"@),
        (AppDataBase::Local, "Google\\Chrome\\User Data\\Default\\Media Cache"@),
        (AppDataBase::Local, "Google\\Chrome\\User Data\\Default\\Service Worker\\CacheStorage"@),
        (AppDataBase::Local, "Google\\Chrome\\User Data\\Default\\Service Worker\\ScriptCache"@),
        (AppDataBase::Local, "Google\\Chrome\\User Data\\ShaderCache"@),
    ]
}

/// The caches of Microsoft Edge.
pub open spec fn edge_caches() -> Seq<(AppDataBase, Seq<char>)> {
    seq![
        (AppDataBase::Local, "Microsoft\\Edge\\User Data\\Default\\Cache"@),
        (AppDataBase::Local, "Microsoft\\Edge\\User Data\\Default\\Code Cache"@),
        (AppDataBase::Local, "Microsoft\\Edge\\User Data\\Default\\GPUCache"@),
        (AppDataBase::Local, "Microsoft\\Edge\\User Data\\Default\\Media Cache"@),
        (AppDataBase::Local, "Microsoft\\Edge\\User Data\\Default\\Service Worker\\CacheStorage"@),
        (AppDataBase::Local, "Microsoft\\Edge\\User Data\\Default\\Service Worker\\ScriptCache"@),
        (AppDataBase::Local, "Microsoft\\Edge\\User Data\\ShaderCache"@),
    ]
}

/// The caches of Mozilla Firefox: its profiles directory, whose profiles
/// are cleaned one by one.
pub open spec fn firefox_caches() -> Seq<(AppDataBase, Seq<char>)> {
    seq![(AppDataBase::Roaming, "Mozilla\\Firefox\\Profiles"@)]
}

/// The browsers that are cleaned, in order.
pub open spec fn browser_table() -> Seq<(Seq<char>, Seq<char>, Seq<(AppDataBase, Seq<char>)>)> {
    seq![
        ("Google Chrome"@, "chrome.exe"@, chrome_caches()),
        ("Microsoft Edge"@, "msedge.exe"@, edge_caches()),
        ("Mozilla Firefox"@, "firefox.exe"@, firefox_caches()),
    ]
}

/// The browsers cleaned are Google Chrome (`chrome.exe`), Microsoft Edge
/// (`msedge.exe`) and Mozilla Firefox (`firefox.exe`), in that order. Chrome's
/// caches are its seven cache directories under the local
/// `Google\Chrome\User Data`, Edge's the same seven under
/// `Microsoft\Edge\User Data`, and Firefox's its roaming profiles directory.
pub proof fn lemma_browser_caches()
    ensures
        browser_table().len() == 3,
        browser_table()[0].0 == "Google Chrome"@ && browser_table()[0].1 == "chrome.exe"@,
        browser_table()[1].0 == "Microsoft Edge"@ && browser_table()[1].1 == "msedge.exe"@,
        browser_table()[2].0 == "Mozilla Firefox"@ && browser_table()[2].1 == "firefox.exe"@,
        browser_table()[0].2 == seq![
            (AppDataBase::Local, "Google\\Chrome\\User Data\\Default\\Cache"@),
            (AppDataBase::Local, "Google\\Chrome\\User Data\\Default\\Code Cache"@),
            (AppDataBase::Local, "Google\\Chrome\\User Data\\Default\\GPUCache"@),
            (AppDataBase::Local, "Google\\Chrome\\User Data\\Default\\Media Cache"@),
            (AppDataBase::Local, "Google\\Chrome\\User Data\\Default\\Service Worker\\CacheStorage"@),
            (AppDataBase::Local, "Google\\Chrome\\User Data\\Default\\Service Worker\\ScriptCache"@),
            (AppDataBase::Local, "Google\\Chrome\\User Data\\ShaderCache"@),
        ],
        browser_table()[1].2 == seq![
            (AppDataBase::Local, "Microsoft\\Edge\\User Data\\Default\\Cache"@),
            (AppDataBase::Local, "Microsoft\\Edge\\User Data\\Default\\Code Cache"@),
            (AppDataBase::Local, "Microsoft\\Edge\\User Data\\Default\\GPUCache"@),
            (AppDataBase::Local, "Microsoft\\Edge\\User Data\\Default\\Media Cache"@),
            (AppDataBase::Local, "Microsoft\\Edge\\User Data\\Default\\Service Worker\\CacheStorage"@),
            (AppDataBase::Local, "Microsoft\\Edge\\User Data\\Default\\Service Worker\\ScriptCache"@),
            (AppDataBase::Local, "Microsoft\\Edge\\User Data\\ShaderCache"@),
        ],
        browser_table()[2].2 == seq![(AppDataBase::Roaming, "Mozilla\\Firefox\\Profiles"@)],
        forall|i: int|
            0 <= i < browser_table()[0].2.len() ==> starts_with(
                (#[trigger] browser_table()[0].2[i]).1,
                "Google\\Chrome\\User Data\\"@,
            ),
        forall|i: int|
            0 <= i < browser_table()[1].2.len() ==> starts_with(
                (#[trigger] browser_table()[1].2[i]).1,
                "Microsoft\\Edge\\User Data\\"@,
            ),
{
    lemma_chrome_caches_under_user_data();
    lemma_edge_caches_under_user_data();
}

/// Each Chrome cache path begins with `Google\Chrome\User Data\`.
proof fn lemma_chrome_caches_under_user_data()
    ensures
        forall|i: int|
            0 <= i < chrome_caches().len() ==> starts_with(
                (#[trigger] chrome_caches()[i]).1,
                "Google\\Chrome\\User Data\\"@,
            ),
{
    let p = "Google\\Chrome\\User Data\\"@;
    reveal_strlit("Google\\Chrome\\User Data\\");
    reveal_strlit("Google\\Chrome\\User Data\\Default\\Cache");
    reveal_strlit("Google\\Chrome\\User Data\\Default\\Code Cache");
    reveal_strlit("Google\\Chrome\\User Data\\Default\\GPUCache");
    reveal_strlit("Google\\Chrome\\User Data\\Default\\Media Cache");
    reveal_strlit("Google\\Chrome\\User Data\\Default\\Service Worker\\CacheStorage");
    reveal_strlit("Google\\Chrome\\User Data\\Default\\Service Worker\\ScriptCache");
    reveal_strlit("Google\\Chrome\\User Data\\ShaderCache");
    let c = chrome_caches();
    assert(c[0].1.take(p.len() as int) =~= p);
    assert(c[1].1.take(p.len() as int) =~= p);
    assert(c[2].1.take(p.len() as int) =~= p);
    assert(c[3].1.take(p.len() as int) =~= p);
    assert(c[4].1.take(p.len() as int) =~= p);
    assert(c[5].1.take(p.len() as int) =~= p);
    assert(c[6].1.take(p.len() as int) =~= p);
}

/// Each Edge cache path begins with `Microsoft\Edge\User Data\`.
proof fn lemma_edge_caches_under_user_data()
    ensures
        forall|i: int|
            0 <= i < edge_caches().len() ==> starts_with(
                (#[trigger] edge_caches()[i]).1,
                "Microsoft\\Edge\\User Data\\"@,
            ),
{
    let p = "Microsoft\\Edge\\User Data\\"@;
    reveal_strlit("Microsoft\\Edge\\User Data\\");
    reveal_strlit("Microsoft\\Edge\\User Data\\Default\\Cache");
    reveal_strlit("Microsoft\\Edge\\User Data\\Default\\Code Cache");
    reveal_strlit("Microsoft\\Edge\\User Data\\Default\\GPUCache");
    reveal_strlit("Microsoft\\Edge\\User Data\\Default\\Media Cache");
    reveal_strlit("Microsoft\\Edge\\User Data\\Default\\Service Worker\\CacheStorage");
    reveal_strlit("Microsoft\\Edge\\User Data\\Default\\Service Worker\\ScriptCache");
    reveal_strlit("Microsoft\\Edge\\User Data\\ShaderCache");
    let c = edge_caches();
    assert(c[0].1.take(p.len() as int) =~= p);
    assert(c[1].1.take(p.len() as int) =~= p);
    assert(c[2].1.take(p.len() as int) =~= p);
    assert(c[3].1.take(p.len() as int) =~= p);
    assert(c[4].1.take(p.len() as int) =~= p);
    assert(c[5].1.take(p.len() as int) =~= p);
    assert(c[6].1.take(p.len() as int) =~= p);
}

/// Appends one cache.
fn push_cache(v: &mut Vec<CacheDir>, base: AppDataBase, rel: &str)
    ensures
        cache_dir_views(final(v)@) == cache_dir_views(old(v)@).push((base, rel@)),
{
    v.push(CacheDir { base, rel: String::from_str(rel) });
    assert(cache_dir_views(v@) =~= cache_dir_views(old(v)@).push((base, rel@)));
}

/// The caches of Google Chrome.
fn chrome_cache_dirs() -> (r: Vec<CacheDir>)
    ensures
        cache_dir_views(r@) == chrome_caches(),
{
    let mut v: Vec<CacheDir> = Vec::new();
    push_cache(&mut v, AppDataBase::Local, "Google\\Chrome\\User Data\\Default\\Cache");
    push_cache(&mut v, AppDataBase::Local, "Google\\Chrome\\User Data\\Default\\Code Cache");
    push_cache(&mut v, AppDataBase::Local, "Google\\Chrome\\User Data\\Default\\GPUCache");
    push_cache(&mut v, AppDataBase::Local, "Google\\Chrome\\User Data\\Default\\Media Cache");
    push_cache(
        &mut v,
        AppDataBase::Local,
        "Google\\Chrome\\User Data\\Default\\Service Worker\\CacheStorage",
    );
    push_cache(
        &mut v,
        AppDataBase::Local,
        "Google\\Chrome\\User Data\\Default\\Service Worker\\ScriptCache",
    );
    push_cache(&mut v, AppDataBase::Local, "Google\\Chrome\\User Data\\ShaderCache");
    assert(cache_dir_views(v@) =~= chrome_caches());
    v
}

/// The caches of Microsoft Edge.
fn edge_cache_dirs() -> (r: Vec<CacheDir>)
    ensures
        cache_dir_views(r@) == edge_caches(),
{
    let mut v: Vec<CacheDir> = Vec::new();
    push_cache(&mut v, AppDataBase::Local, "Microsoft\\Edge\\User Data\\Default\\Cache");
    push_cache(&mut v, AppDataBase::Local, "Microsoft\\Edge\\User Data\\Default\\Code Cache");
    push_cache(&mut v, AppDataBase::Local, "Microsoft\\Edge\\User Data\\Default\\GPUCache");
    push_cache(&mut v, AppDataBase::Local, "Microsoft\\Edge\\User Data\\Default\\Media Cache");
    push_cache(
        &mut v,
        AppDataBase::Local,
        "Microsoft\\Edge\\User Data\\Default\\Service Worker\\CacheStorage",
    );
    push_cache(
        &mut v,
        AppDataBase::Local,
        "Microsoft\\Edge\\User Data\\Default\\Service Worker\\ScriptCache",
    );
    push_cache(&mut v, AppDataBase::Local, "Microsoft\\Edge\\User Data\\ShaderCache");
    assert(cache_dir_views(v@) =~= edge_caches());
    v
}

/// The browsers to clean, with their executables and caches.
pub fn known_browsers() -> (r: Vec<Browser>)
    ensures
        r@.map_values(|b: Browser| browser_view(b)) == browser_table(),
{
    let mut firefox_dirs: Vec<CacheDir> = Vec::new();
    push_cache(&mut firefox_dirs, AppDataBase::Roaming, "Mozilla\\Firefox\\Profiles");
    assert(cache_dir_views(firefox_dirs@) =~= firefox_caches());
    let chrome = Browser {
        name: String::from_str("Google Chrome"),
        process: String::from_str("chrome.exe"),
        cache_dirs: chrome_cache_dirs(),
    };
    let edge = Browser {
        name: String::from_str("Microsoft Edge"),
        process: String::from_str("msedge.exe"),
        cache_dirs: edge_cache_dirs(),
    };
    let firefox = Browser {
        name: String::from_str("Mozilla Firefox"),
        process: String::from_str("firefox.exe"),
        cache_dirs: firefox_dirs,
    };
    let ghost views = seq![browser_view(chrome), browser_view(edge), browser_view(firefox)];
    let mut v: Vec<Browser> = Vec::new();
    v.push(chrome);
    v.push(edge);
    v.push(firefox);
    assert(v@.map_values(|b: Browser| browser_view(b)) =~= views);
    assert(views =~= browser_table());
    v
}

/// Whether `b` is Mozilla Firefox, whose profiles are found and cleaned one
/// by one.
pub fn is_firefox(b: &Browser) -> (r: bool)
    ensures
        r == (b.name@ == "Mozilla Firefox"@),
{
    texts_equal(b.name.as_str(), "Mozilla Firefox")
}

/// The application data directory `base` names.
pub open spec fn base_root(base: AppDataBase, local: Seq<char>, roaming: Seq<char>) -> Seq<char> {
    match base {
        AppDataBase::Local => local,
        AppDataBase::Roaming => roaming,
    }
}

/// The full path of a browser cache, given the local and roaming application
/// data directories.
pub fn cache_dir_path(dir: &CacheDir, local: &str, roaming: &str) -> (r: String)
    ensures
        r@ == base_root(dir.base, local@, roaming@) + "\\"@ + dir.rel@,
{
    let root = match dir.base {
        AppDataBase::Local => local,
        AppDataBase::Roaming => roaming,
    };
    let with_sep = joined(root, "\\");
    joined(with_sep.as_str(), dir.rel.as_str())
}

/// The directory holding the Firefox profiles.
pub fn firefox_profiles_root(roaming: &str) -> (r: String)
    ensures
        r@ == roaming@ + "\\Mozilla\\Firefox\\Profiles"@,
{
    joined(roaming, "\\Mozilla\\Firefox\\Profiles")
}

/// The cache directories inside a Firefox profile, in order.
pub open spec fn firefox_profile_caches() -> Seq<Seq<char>> {
    seq![
        "cache2"@,
        "OfflineCache"@,
        "startupCache"@,
        "thumbnails"@,
        "shader-cache"@,
        "storage"@,
    ]
}

/// The cache directories inside a Firefox profile, relative to it.
pub fn firefox_cache_subdirs() -> (r: Vec<String>)
    ensures
        text_views(r@) == firefox_profile_caches(),
{
    let mut v: Vec<String> = Vec::new();
    push_text(&mut v, "cache2");
    push_text(&mut v, "OfflineCache");
    push_text(&mut v, "startupCache");
    push_text(&mut v, "thumbnails");
    push_text(&mut v, "shader-cache");
    push_text(&mut v, "storage");
    assert(text_views(v@) =~= firefox_profile_caches());
    v
}

/// The arguments of `taskkill` that force the executable `process` to stop.
pub fn taskkill_arguments(process: &str) -> (r: Vec<String>)
    ensures
        text_views(r@) == seq!["/F"@, "/IM"@, process@],
{
    let mut v: Vec<String> = Vec::new();
    push_text(&mut v, "/F");
    push_text(&mut v, "/IM");
    push_text(&mut v, process);
    assert(text_views(v@) =~= seq!["/F"@, "/IM"@, process@]);
    v
}

} // verus!
