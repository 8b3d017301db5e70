use cleanup::locations::{
    cache_dir_path, firefox_cache_subdirs, firefox_profiles_root, is_firefox, known_browsers,
    taskkill_arguments, teams_dirs, temp_sections, AppDataBase, CacheDir, Environment,
};

fn unset() -> Environment {
    Environment {
        temp: None,
        tmp: None,
        user_profile: None,
        windir: None,
        appdata: None,
        local_appdata: None,
    }
}

fn set() -> Environment {
    Environment {
        temp: Some("T:\\temp".to_string()),
        tmp: Some("T:\\tmp".to_string()),
        user_profile: Some("C:\\Users\\ana".to_string()),
        windir: Some("D:\\Win".to_string()),
        appdata: Some("R:\\roam".to_string()),
        local_appdata: Some("L:\\local".to_string()),
    }
}

#[test]
fn defaults_when_nothing_is_set() {
    let env = unset();
    assert_eq!(env.user_profile_dir(), "C:\\Users\\Default");
    assert_eq!(env.temp_dir(), "C:\\Windows\\Temp");
    assert_eq!(env.windows_dir(), "C:\\Windows");
    assert_eq!(env.roaming_dir(), "C:\\Users\\Default\\AppData\\Roaming");
    assert_eq!(env.local_dir(), "C:\\Users\\Default\\AppData\\Local");
}

#[test]
fn variables_win_over_defaults() {
    let env = set();
    assert_eq!(env.user_profile_dir(), "C:\\Users\\ana");
    assert_eq!(env.temp_dir(), "T:\\temp");
    assert_eq!(env.windows_dir(), "D:\\Win");
    assert_eq!(env.roaming_dir(), "R:\\roam");
    assert_eq!(env.local_dir(), "L:\\local");
}

#[test]
fn fallbacks_go_through_the_profile_and_tmp() {
    let mut env = unset();
    env.user_profile = Some("C:\\Users\\bo".to_string());
    env.tmp = Some("X:\\t".to_string());
    assert_eq!(env.temp_dir(), "X:\\t");
    assert_eq!(env.roaming_dir(), "C:\\Users\\bo\\AppData\\Roaming");
    assert_eq!(env.local_dir(), "C:\\Users\\bo\\AppData\\Local");
}

#[test]
fn temporary_sections_follow_the_readme_table() {
    let sections = temp_sections(&set());
    let got: Vec<(String, String, bool)> = sections
        .into_iter()
        .map(|s| (s.label, s.path, s.remove_root))
        .collect();
    let expected = vec![
        ("Windows\\Temp\\TempHBCD", "D:\\Win\\Temp\\TempHBCD", true),
        ("Temporários do Sistema (%TEMP%)", "T:\\temp", false),
        ("Temporários do Usuário (AppData\\Local\\Temp)", "C:\\Users\\ana\\AppData\\Local\\Temp", false),
        ("Prefetch do Windows", "D:\\Win\\Prefetch", false),
        ("Temp do Windows", "D:\\Win\\Temp", false),
    ];
    let expected: Vec<(String, String, bool)> = expected
        .into_iter()
        .map(|(a, b, c)| (a.to_string(), b.to_string(), c))
        .collect();
    assert_eq!(got, expected);
}

#[test]
fn teams_directories() {
    let dirs = teams_dirs("R:\\roam");
    let got: Vec<(String, String)> = dirs.into_iter().map(|d| (d.label, d.path)).collect();
    let subs = ["tmp", "blob_storage", "Cache", "IndexedDB", "GPUCache", "databases"];
    let expected: Vec<(String, String)> = subs
        .iter()
        .map(|s| (format!("  Teams\\{}", s), format!("R:\\roam\\Microsoft\\teams\\{}", s)))
        .collect();
    assert_eq!(got, expected);
}

#[test]
fn browser_table() {
    let browsers = known_browsers();
    assert_eq!(browsers.len(), 3);
    assert_eq!(browsers[0].name, "Google Chrome");
    assert_eq!(browsers[0].process, "chrome.exe");
    assert_eq!(browsers[0].cache_dirs.len(), 7);
    assert_eq!(browsers[0].cache_dirs[6].rel, "Google\\Chrome\\User Data\\ShaderCache");
    assert!(browsers[0].cache_dirs.iter().all(|d| !d.rel.contains("Cookies")));
    assert_eq!(browsers[1].name, "Microsoft Edge");
    assert_eq!(browsers[1].process, "msedge.exe");
    assert_eq!(browsers[1].cache_dirs.len(), 7);
    assert_eq!(browsers[1].cache_dirs[6].rel, "Microsoft\\Edge\\User Data\\ShaderCache");
    assert_eq!(browsers[2].name, "Mozilla Firefox");
    assert_eq!(browsers[2].process, "firefox.exe");
    assert_eq!(browsers[2].cache_dirs.len(), 1);
    assert_eq!(browsers[2].cache_dirs[0].base, AppDataBase::Roaming);
    for b in &browsers[..2] {
        for d in &b.cache_dirs {
            assert_eq!(d.base, AppDataBase::Local);
        }
    }
    assert!(!is_firefox(&browsers[0]));
    assert!(!is_firefox(&browsers[1]));
    assert!(is_firefox(&browsers[2]));
}

#[test]
fn cache_paths() {
    let local = CacheDir { base: AppDataBase::Local, rel: "A\\B".to_string() };
    let roaming = CacheDir { base: AppDataBase::Roaming, rel: "C".to_string() };
    assert_eq!(cache_dir_path(&local, "L:", "R:"), "L:\\A\\B");
    assert_eq!(cache_dir_path(&roaming, "L:", "R:"), "R:\\C");
}

#[test]
fn firefox_locations() {
    assert_eq!(firefox_profiles_root("R:\\roam"), "R:\\roam\\Mozilla\\Firefox\\Profiles");
    assert_eq!(
        firefox_cache_subdirs(),
        vec![
            "cache2",
            "OfflineCache",
            "startupCache",
            "thumbnails",
            "shader-cache",
            "storage",
        ]
    );
}

#[test]
fn taskkill_command() {
    assert_eq!(taskkill_arguments("chrome.exe"), vec!["/F", "/IM", "chrome.exe"]);
}
