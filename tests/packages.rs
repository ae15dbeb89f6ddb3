use virtualenv_rs::packages::{
    bootstrap_packages, cached_wheel_path, console_script_launchers, entry_point_launchers,
    launchers_from_entry_points, plan_wheel_fetch, split_entry_point, wheel_cache_dir,
    EntryPointError, WheelFetch,
};

#[test]
fn entry_point_with_colon_splits() {
    let (m, f) = split_entry_point("package.module:main").unwrap();
    assert_eq!(m, "package.module");
    assert_eq!(f, "main");
    let (m, f) = split_entry_point("a:b:c").unwrap();
    assert_eq!(m, "a");
    assert_eq!(f, "b:c");
}

#[test]
fn entry_point_without_colon_is_none() {
    assert!(split_entry_point("package.module").is_none());
    assert!(split_entry_point("").is_none());
}

#[test]
fn console_scripts_section_gives_launcher() {
    let r = launchers_from_entry_points(
        "demo",
        "[console_scripts]\nfoo = package.module:main\n".to_string(),
        "/v/bin",
        "/v/bin/python",
    );
    let ls = match r {
        Ok(ls) => ls,
        Err(_) => panic!("expected launchers"),
    };
    assert_eq!(ls.len(), 1);
    assert_eq!(ls[0].path, "/v/bin/foo");
    assert_eq!(ls[0].module, "package.module");
    assert_eq!(ls[0].function, "main");
    assert!(ls[0].script.starts_with("#!/v/bin/python\n"));
    assert!(ls[0].script.contains("from package.module import main\n"));
}

#[test]
fn console_scripts_without_colon_is_malformed() {
    let r = launchers_from_entry_points(
        "demo",
        "[console_scripts]\nfoo = package.module\n".to_string(),
        "/v/bin",
        "/v/bin/python",
    );
    match r {
        Err(EntryPointError::Malformed { package, key, value }) => {
            assert_eq!(package, "demo");
            assert_eq!(key, "foo");
            assert_eq!(value.as_deref(), Some("package.module"));
        }
        _ => panic!("expected a malformed entry point"),
    }
}

#[test]
fn key_without_value_is_malformed() {
    let r = launchers_from_entry_points("demo", "[console_scripts]\nfoo\n".to_string(), "/b", "/p");
    assert!(matches!(r, Err(EntryPointError::Malformed { value: None, .. })));
}

#[test]
fn other_sections_are_ignored() {
    let r = launchers_from_entry_points(
        "demo",
        "[distutils.commands]\nbdist_wheel = wheel.bdist:cmd\n".to_string(),
        "/b",
        "/p",
    );
    assert!(matches!(r, Ok(ref ls) if ls.is_empty()));
}

#[test]
fn unreadable_entry_points_file() {
    let r = launchers_from_entry_points("demo", "[console_scripts\nfoo = a:b\n".to_string(), "/b", "/p");
    assert!(matches!(r, Err(EntryPointError::InvalidFile { ref package, .. }) if package == "demo"));
    let r = launchers_from_entry_points("demo", "[console_scripts]\n = a:b\n".to_string(), "/b", "/p");
    assert!(matches!(r, Err(EntryPointError::InvalidFile { .. })));
}

#[test]
fn launchers_keep_entry_order_and_stop_at_first_malformed() {
    let entries = vec![
        ("pip".to_string(), Some("pip._internal.cli.main:main".to_string())),
        ("pip3".to_string(), Some("pip._internal.cli.main:main".to_string())),
    ];
    let ls = match entry_point_launchers("pip", &entries, "/v/bin", "/v/bin/python") {
        Ok(ls) => ls,
        Err(_) => panic!("expected launchers"),
    };
    assert_eq!(ls.len(), 2);
    assert_eq!(ls[0].path, "/v/bin/pip");
    assert_eq!(ls[1].path, "/v/bin/pip3");
    let bad = vec![
        ("a".to_string(), Some("m:f".to_string())),
        ("b".to_string(), Some("nocolon".to_string())),
        ("c".to_string(), None),
    ];
    assert!(matches!(
        entry_point_launchers("pkg", &bad, "/b", "/p"),
        Err(EntryPointError::Malformed { ref key, .. }) if key == "b"
    ));
}

#[test]
fn first_console_scripts_section_is_used() {
    let sections = vec![
        ("gui_scripts".to_string(), vec![("g".to_string(), Some("m:g".to_string()))]),
        ("console_scripts".to_string(), vec![("c".to_string(), Some("m:c".to_string()))]),
    ];
    let ls = match console_script_launchers("p", &sections, "/b", "/py") {
        Ok(ls) => ls,
        Err(_) => panic!("expected launchers"),
    };
    assert_eq!(ls.len(), 1);
    assert_eq!(ls[0].path, "/b/c");
    assert_eq!(ls[0].function, "c");
}

#[test]
fn bootstrap_package_list() {
    let p = bootstrap_packages();
    let names: Vec<(String, String)> = p.iter().map(|p| (p.name.clone(), p.version.clone())).collect();
    assert_eq!(
        names,
        vec![
            ("pip".to_string(), "23.2.1".to_string()),
            ("setuptools".to_string(), "68.2.0".to_string()),
            ("wheel".to_string(), "0.41.2".to_string()),
        ]
    );
    assert_eq!(
        p[0].unpacked_wheel_dir("/home/u/.local/share"),
        "/home/u/.local/share/virtualenv/wheel/3.11/image/1/CopyPipInstall/pip-23.2.1-py3-none-any"
    );
    assert_eq!(
        p[2].entry_points_file("/v/lib/python3.11/site-packages"),
        "/v/lib/python3.11/site-packages/wheel-0.41.2.dist-info/entry_points.txt"
    );
}

#[test]
fn archive_cache_hit_needs_no_download() {
    match plan_wheel_fetch("/c", "pip-23.2.1-py3-none-any.whl", "https://x/pip.whl", true) {
        WheelFetch::Cached { path } => assert_eq!(path, "/c/wheels/pip-23.2.1-py3-none-any.whl"),
        WheelFetch::Download { .. } => panic!("a cached archive must not be downloaded"),
    }
}

#[test]
fn archive_cache_miss_downloads_to_exact_name() {
    match plan_wheel_fetch("/c", "pip-23.2.1-py3-none-any.whl", "https://x/pip.whl", false) {
        WheelFetch::Download { dir, url, path } => {
            assert_eq!(dir, "/c/wheels");
            assert_eq!(url, "https://x/pip.whl");
            assert_eq!(path, "/c/wheels/pip-23.2.1-py3-none-any.whl");
        }
        WheelFetch::Cached { .. } => panic!("an absent archive must be downloaded"),
    }
    assert_eq!(wheel_cache_dir("/c/"), "/c/wheels");
    assert_eq!(cached_wheel_path("/c", "x.whl"), "/c/wheels/x.whl");
}
