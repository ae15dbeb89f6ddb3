use virtualenv_rs::bare::{
    plan_bare_venv, pyvenv_cfg, render_template, unix_launcher_script, write_cfg, LayoutError,
    LayoutResources, LayoutStep, VenvLayout,
};
use virtualenv_rs::interpreter::InterpreterInfo;
use virtualenv_rs::text::decimal_string;

fn info_311() -> InterpreterInfo {
    InterpreterInfo {
        base_exec_prefix: "/usr".to_string(),
        base_prefix: "/usr/local".to_string(),
        major: 3,
        minor: 11,
        python_version: "3.11.4 (main, Jun  7 2023)".to_string(),
    }
}

fn resources() -> LayoutResources {
    LayoutResources {
        templates: vec![
            (
                "activate".to_string(),
                "VIRTUAL_ENV='{{ VIRTUAL_ENV_DIR }}'\nSITE={{ RELATIVE_SITE_PACKAGES }}\n".to_string(),
            ),
            ("activate.fish".to_string(), "set -gx VIRTUAL_ENV {{ VIRTUAL_ENV_DIR }}\n".to_string()),
        ],
        virtualenv_patch: "# compatibility shim\n".to_string(),
    }
}

fn plan() -> VenvLayout {
    match plan_bare_venv("/work/.venv", "/usr/bin/python3.11", &info_311(), &resources(), "0.1.0") {
        Ok(l) => l,
        Err(_) => panic!("the plan must succeed"),
    }
}

fn describe(step: &LayoutStep) -> String {
    match step {
        LayoutStep::ResetDir { path } => format!("reset {}", path),
        LayoutStep::CreateDir { path } => format!("mkdir {}", path),
        LayoutStep::CreateDirAll { path } => format!("mkdir -p {}", path),
        LayoutStep::Symlink { target, link } => format!("ln -s {} {}", target, link),
        LayoutStep::WriteFile { path, contents } => format!("write {} <<{}>>", path, contents),
    }
}

#[test]
fn decimal_rendering() {
    assert_eq!(decimal_string(0), "0");
    assert_eq!(decimal_string(7), "7");
    assert_eq!(decimal_string(10), "10");
    assert_eq!(decimal_string(1234567890), "1234567890");
    assert_eq!(decimal_string(u64::MAX), "18446744073709551615");
}

#[test]
fn write_cfg_appends_key_value_lines() {
    let mut out = "# head\n".to_string();
    let data = vec![("a".to_string(), "1".to_string()), ("b c".to_string(), "x = y".to_string())];
    write_cfg(&mut out, &data);
    assert_eq!(out, "# head\na = 1\nb c = x = y\n");
    let mut empty = String::new();
    write_cfg(&mut empty, &Vec::new());
    assert_eq!(empty, "");
}

#[test]
fn descriptor_has_eight_lines_in_fixed_order() {
    let text = pyvenv_cfg("/usr/bin", &info_311(), "0.1.0", "/usr/bin/python3.11");
    assert_eq!(
        text,
        "home = /usr/bin\n\
         implementation = CPython\n\
         version_info = 3.11.4 (main, Jun  7 2023)\n\
         virtualenv-rs = 0.1.0\n\
         include-system-site-packages = false\n\
         base-prefix = /usr/local\n\
         base-exec-prefix = /usr\n\
         base-executable = /usr/bin/python3.11\n"
    );
    let lines: Vec<&str> = text.lines().collect();
    assert_eq!(lines.len(), 8);
    for line in &lines {
        assert!(line.contains(" = "));
    }
    assert_eq!(lines[2], "version_info = 3.11.4 (main, Jun  7 2023)");
}

#[test]
fn launcher_script_text() {
    let script = unix_launcher_script("/venv/bin/python", "pip._internal.cli.main", "main");
    assert_eq!(
        script,
        "#!/venv/bin/python\n    # -*- coding: utf-8 -*-\nimport re\nimport sys\n\
         from pip._internal.cli.main import main\n\
         if __name__ == '__main__':\n    \
         sys.argv[0] = re.sub(r'(-script\\.pyw|\\.exe)?$', '', sys.argv[0])\n    \
         sys.exit(main())\n"
    );
}

#[test]
fn template_placeholders_are_filled() {
    let out = render_template(
        "A={{ VIRTUAL_ENV_DIR }};B={{ RELATIVE_SITE_PACKAGES }};C={{ VIRTUAL_ENV_DIR }}",
        "/r",
        &info_311(),
    );
    assert_eq!(out, "A=/r;B=../lib/python3.11/site-packages;C=/r");
    assert_eq!(render_template("no placeholders", "/r", &info_311()), "no placeholders");
}

#[test]
fn plan_paths() {
    let l = plan();
    assert_eq!(l.paths.root, "/work/.venv");
    assert_eq!(l.paths.bin, "/work/.venv/bin");
    assert_eq!(l.paths.interpreter, "/work/.venv/bin/python");
    assert_eq!(l.paths.site_packages, "/work/.venv/lib/python3.11/site-packages");
}

#[test]
fn plan_steps_in_order() {
    let l = plan();
    let steps: Vec<String> = l.steps.iter().map(describe).collect();
    assert_eq!(
        steps,
        vec![
            "reset /work/.venv".to_string(),
            "mkdir /work/.venv/bin".to_string(),
            "ln -s /usr/bin/python3.11 /work/.venv/bin/python".to_string(),
            "ln -s python /work/.venv/bin/python3".to_string(),
            "ln -s python /work/.venv/bin/python3.11".to_string(),
            "write /work/.venv/bin/activate <<VIRTUAL_ENV='/work/.venv'\nSITE=../lib/python3.11/site-packages\n>>"
                .to_string(),
            "write /work/.venv/bin/activate.fish <<set -gx VIRTUAL_ENV /work/.venv\n>>".to_string(),
            "write /work/.venv/.gitignore <<*>>".to_string(),
            format!(
                "write /work/.venv/pyvenv.cfg <<{}>>",
                pyvenv_cfg("/usr/bin", &info_311(), "0.1.0", "/usr/bin/python3.11")
            ),
            "mkdir -p /work/.venv/lib/python3.11/site-packages".to_string(),
            "write /work/.venv/lib/python3.11/site-packages/_virtualenv.py <<# compatibility shim\n>>"
                .to_string(),
            "write /work/.venv/lib/python3.11/site-packages/_virtualenv.pth <<import _virtualenv>>"
                .to_string(),
        ]
    );
}

#[test]
fn symlink_aliases_point_at_python_link() {
    let l = plan();
    let mut aliases = 0;
    for step in &l.steps {
        if let LayoutStep::Symlink { target, link } = step {
            if link.ends_with("/python3") || link.ends_with("/python3.11") {
                assert_eq!(target, "python");
                aliases += 1;
            } else {
                assert_eq!(link, &l.paths.interpreter);
                assert_eq!(target, "/usr/bin/python3.11");
            }
        }
    }
    assert_eq!(aliases, 2);
}

#[test]
fn rebuilding_gives_identical_plan() {
    let first: Vec<String> = plan().steps.iter().map(describe).collect();
    let second: Vec<String> = plan().steps.iter().map(describe).collect();
    assert_eq!(first, second);
    assert!(matches!(plan().steps[0], LayoutStep::ResetDir { .. }));
}

#[test]
fn root_slash_joins_without_double_separator() {
    let l = match plan_bare_venv("/", "/usr/bin/python3.11", &info_311(), &resources(), "0.1.0") {
        Ok(l) => l,
        Err(_) => panic!("the plan must succeed"),
    };
    assert_eq!(l.paths.bin, "/bin");
    assert_eq!(l.paths.site_packages, "/lib/python3.11/site-packages");
}

#[test]
fn interpreter_without_parent_is_refused() {
    let r = plan_bare_venv("/work/.venv", "/", &info_311(), &resources(), "0.1.0");
    assert!(matches!(r, Err(LayoutError::InterpreterWithoutParent)));
}

#[test]
fn relative_interpreter_has_empty_home() {
    let l = match plan_bare_venv("/w", "python3", &info_311(), &resources(), "0.1.0") {
        Ok(l) => l,
        Err(_) => panic!("the plan must succeed"),
    };
    let cfg = l.steps.iter().find_map(|s| match s {
        LayoutStep::WriteFile { path, contents } if path == "/w/pyvenv.cfg" => Some(contents.clone()),
        _ => None,
    });
    assert!(cfg.unwrap().starts_with("home = \n"));
}
