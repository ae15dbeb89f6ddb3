//! The layout of an environment without packages: its directories, the
//! interpreter links, the activation scripts and the descriptor file, as an
//! ordered list of file-system steps.
use vstd::prelude::*;
use crate::interpreter::{InfoModel, InterpreterInfo};
use crate::paths::{join, parent, parent_of, path_join};
use crate::text::{decimal, decimal_string, replace_all, replaced};

verus! {

/// The pairs of a list of string pairs, as sequences of characters.
pub open spec fn pairs_view(data: Seq<(String, String)>) -> Seq<(Seq<char>, Seq<char>)> {
    data.map_values(|p: (String, String)| (p.0@, p.1@))
}

/// One `key = value` line.
pub open spec fn cfg_line(key: Seq<char>, value: Seq<char>) -> Seq<char> {
    key + " = "@ + value + "\n"@
}

/// The `.cfg` text of `data`: one `key = value` line per pair, in order,
/// without quoting.
pub open spec fn cfg_text(data: Seq<(Seq<char>, Seq<char>)>) -> Seq<char>
    decreases data.len(),
{
    if data.len() == 0 {
        Seq::empty()
    } else {
        cfg_text(data.drop_last()) + cfg_line(data.last().0, data.last().1)
    }
}

/// Appends the `.cfg` text of `data` to `f`.
pub fn write_cfg(f: &mut String, data: &Vec<(String, String)>)
    ensures
        final(f)@ == old(f)@ + cfg_text(pairs_view(data@)),
{
    let ghost start = f@;
    let mut i: usize = 0;
    while i < data.len()
        invariant
            0 <= i <= data@.len(),
            f@ == start + cfg_text(pairs_view(data@).take(i as int)),
        decreases data@.len() - i,
    {
        let ghost before = f@;
        f.append(data[i].0.as_str());
        f.append(" = ");
        f.append(data[i].1.as_str());
        f.append("\n");
        proof {
            let v = pairs_view(data@);
            assert(v.take(i + 1).drop_last() =~= v.take(i as int));
            assert(f@ =~= start + cfg_text(v.take(i + 1)));
        }
        i = i + 1;
    }
    proof {
        assert(pairs_view(data@).take(data@.len() as int) =~= pairs_view(data@));
    }
}

/// The text of a launcher script that runs `function` from the module
/// `import_from` with the interpreter at `python`.
pub open spec fn launcher_text(python: Seq<char>, import_from: Seq<char>, function: Seq<char>) -> Seq<char> {
    "#!"@ + python + "\n    # -*- coding: utf-8 -*-\nimport re\nimport sys\nfrom "@ + import_from
        + " import "@ + function + "\nif __name__ == '__main__':\n"@
        + "    sys.argv[0] = re.sub(r'(-script\\.pyw|\\.exe)?$', '', sys.argv[0])\n"@
        + "    sys.exit("@ + function + "())\n"@
}

/// The console script for the `bin` directory: it runs `function` from the
/// module `import_from` with the interpreter at `python`.
pub fn unix_launcher_script(python: &str, import_from: &str, function: &str) -> (r: String)
    ensures
        r@ == launcher_text(python@, import_from@, function@),
{
    let mut s = String::from_str("#!");
    s.append(python);
    s.append("\n    # -*- coding: utf-8 -*-\nimport re\nimport sys\nfrom ");
    s.append(import_from);
    s.append(" import ");
    s.append(function);
    s.append("\nif __name__ == '__main__':\n");
    s.append("    sys.argv[0] = re.sub(r'(-script\\.pyw|\\.exe)?$', '', sys.argv[0])\n");
    s.append("    sys.exit(");
    s.append(function);
    s.append("())\n");
    proof {
        assert(s@ =~= launcher_text(python@, import_from@, function@));
    }
    s
}

/// Absolute paths of an environment.
pub struct VenvPaths {
    /// The environment's root directory.
    pub root: String,
    /// The interpreter link inside it, `<root>/bin/python`.
    pub interpreter: String,
    /// The directory of scripts, `<root>/bin`.
    pub bin: String,
    /// Where packages go, e.g. `<root>/lib/python3.11/site-packages`.
    pub site_packages: String,
}

/// One file-system step of a build.
pub enum LayoutStep {
    /// Remove the directory if it exists, then create it and its parents.
    ResetDir { path: String },
    /// Create a directory whose parent exists.
    CreateDir { path: String },
    /// Create a directory and any missing parents.
    CreateDirAll { path: String },
    /// Create a symbolic link at `link` that points to `target`.
    Symlink { target: String, link: String },
    /// Write `contents` to the file at `path`.
    WriteFile { path: String, contents: String },
}

/// Mathematical form of a [`LayoutStep`].
pub enum StepModel {
    ResetDir { path: Seq<char> },
    CreateDir { path: Seq<char> },
    CreateDirAll { path: Seq<char> },
    Symlink { target: Seq<char>, link: Seq<char> },
    WriteFile { path: Seq<char>, contents: Seq<char> },
}

impl View for LayoutStep {
    type V = StepModel;

    open spec fn view(&self) -> StepModel {
        match self {
            LayoutStep::ResetDir { path } => StepModel::ResetDir { path: path@ },
            LayoutStep::CreateDir { path } => StepModel::CreateDir { path: path@ },
            LayoutStep::CreateDirAll { path } => StepModel::CreateDirAll { path: path@ },
            LayoutStep::Symlink { target, link } => StepModel::Symlink { target: target@, link: link@ },
            LayoutStep::WriteFile { path, contents } => StepModel::WriteFile {
                path: path@,
                contents: contents@,
            },
        }
    }
}

/// The steps of a list, as models.
pub open spec fn steps_view(s: Seq<LayoutStep>) -> Seq<StepModel> {
    s.map_values(|x: LayoutStep| x@)
}

/// The data a build writes verbatim or fills in: the activation templates, by
/// file name, and the compatibility module placed in site-packages.
pub struct LayoutResources {
    pub templates: Vec<(String, String)>,
    pub virtualenv_patch: String,
}

/// A build: where things go, and the steps that put them there, in order.
pub struct VenvLayout {
    pub paths: VenvPaths,
    pub steps: Vec<LayoutStep>,
}

/// Why a layout cannot be made.
pub enum LayoutError {
    /// The base interpreter's path has no parent directory.
    InterpreterWithoutParent,
}

/// `MAJOR.MINOR` of an interpreter.
pub open spec fn version_tag(info: InfoModel) -> Seq<char> {
    decimal(info.major) + "."@ + decimal(info.minor)
}

/// The directory of scripts below `root`.
pub open spec fn bin_dir_of(root: Seq<char>) -> Seq<char> {
    path_join(root, "bin"@)
}

/// The site-packages directory below `root`.
pub open spec fn site_packages_of(root: Seq<char>, info: InfoModel) -> Seq<char> {
    path_join(path_join(path_join(root, "lib"@), "python"@ + version_tag(info)), "site-packages"@)
}

/// site-packages as seen from the directory of scripts.
pub open spec fn relative_site_packages(info: InfoModel) -> Seq<char> {
    "../lib/python"@ + version_tag(info) + "/site-packages"@
}

/// An activation template with its two placeholders filled in.
pub open spec fn rendered(template: Seq<char>, root: Seq<char>, info: InfoModel) -> Seq<char> {
    replaced(
        replaced(template, "{{ VIRTUAL_ENV_DIR }}"@, root),
        "{{ RELATIVE_SITE_PACKAGES }}"@,
        relative_site_packages(info),
    )
}

/// The eight entries of the environment descriptor, in their fixed order.
pub open spec fn descriptor_entries(
    home: Seq<char>,
    info: InfoModel,
    tool_version: Seq<char>,
    base_python: Seq<char>,
) -> Seq<(Seq<char>, Seq<char>)> {
    seq![
        ("home"@, home),
        ("implementation"@, "CPython"@),
        ("version_info"@, info.python_version),
        ("virtualenv-rs"@, tool_version),
        ("include-system-site-packages"@, "false"@),
        ("base-prefix"@, info.base_prefix),
        ("base-exec-prefix"@, info.base_exec_prefix),
        ("base-executable"@, base_python),
    ]
}

/// The steps that write the activation scripts.
pub open spec fn template_steps(
    templates: Seq<(Seq<char>, Seq<char>)>,
    root: Seq<char>,
    info: InfoModel,
) -> Seq<StepModel> {
    templates.map_values(
        |t: (Seq<char>, Seq<char>)|
            StepModel::WriteFile { path: path_join(bin_dir_of(root), t.0), contents: rendered(t.1, root, info) },
    )
}

/// The links of the interpreter, after the reset of the root and the
/// creation of the directory of scripts.
pub open spec fn head_steps(root: Seq<char>, base_python: Seq<char>, info: InfoModel) -> Seq<StepModel> {
    let bin = bin_dir_of(root);
    seq![
        StepModel::ResetDir { path: root },
        StepModel::CreateDir { path: bin },
        StepModel::Symlink { target: base_python, link: path_join(bin, "python"@) },
        StepModel::Symlink { target: "python"@, link: path_join(bin, "python"@ + decimal(info.major)) },
        StepModel::Symlink { target: "python"@, link: path_join(bin, "python"@ + version_tag(info)) },
    ]
}

/// The steps after the activation scripts: the ignore file, the descriptor,
/// site-packages and its two support files.
pub open spec fn tail_steps(
    root: Seq<char>,
    base_python: Seq<char>,
    home: Seq<char>,
    info: InfoModel,
    tool_version: Seq<char>,
    patch: Seq<char>,
) -> Seq<StepModel> {
    let site = site_packages_of(root, info);
    seq![
        StepModel::WriteFile { path: path_join(root, ".gitignore"@), contents: "*"@ },
        StepModel::WriteFile {
            path: path_join(root, "pyvenv.cfg"@),
            contents: cfg_text(descriptor_entries(home, info, tool_version, base_python)),
        },
        StepModel::CreateDirAll { path: site },
        StepModel::WriteFile { path: path_join(site, "_virtualenv.py"@), contents: patch },
        StepModel::WriteFile { path: path_join(site, "_virtualenv.pth"@), contents: "import _virtualenv"@ },
    ]
}

/// All steps of a build, in order.
pub open spec fn layout_steps(
    root: Seq<char>,
    base_python: Seq<char>,
    home: Seq<char>,
    info: InfoModel,
    templates: Seq<(Seq<char>, Seq<char>)>,
    tool_version: Seq<char>,
    patch: Seq<char>,
) -> Seq<StepModel> {
    head_steps(root, base_python, info) + template_steps(templates, root, info) + tail_steps(
        root,
        base_python,
        home,
        info,
        tool_version,
        patch,
    )
}

/// How many line breaks a text holds.
pub open spec fn line_breaks(s: Seq<char>) -> nat
    decreases s.len(),
{
    if s.len() == 0 {
        0
    } else {
        line_breaks(s.drop_last()) + if s.last() == '\n' { 1nat } else { 0nat }
    }
}

/// Whether a text holds no line break.
pub open spec fn single_line(s: Seq<char>) -> bool {
    forall|i: int| 0 <= i < s.len() ==> s[i] != '\n'
}

proof fn lemma_line_breaks_concat(a: Seq<char>, b: Seq<char>)
    ensures
        line_breaks(a + b) == line_breaks(a) + line_breaks(b),
    decreases b.len(),
{
    if b.len() == 0 {
        assert(a + b =~= a);
    } else {
        lemma_line_breaks_concat(a, b.drop_last());
        assert((a + b).drop_last() =~= a + b.drop_last());
    }
}

proof fn lemma_single_line_breaks(s: Seq<char>)
    requires
        single_line(s),
    ensures
        line_breaks(s) == 0,
    decreases s.len(),
{
    if s.len() > 0 {
        lemma_single_line_breaks(s.drop_last());
    }
}

proof fn lemma_cfg_line_breaks(key: Seq<char>, value: Seq<char>)
    requires
        single_line(key),
        single_line(value),
    ensures
        line_breaks(cfg_line(key, value)) == 1,
{
    reveal_strlit(" = ");
    reveal_strlit("\n");
    lemma_single_line_breaks(key);
    lemma_single_line_breaks(value);
    lemma_single_line_breaks(" = "@);
    assert(" = "@ =~= seq![' ', '=', ' ']);
    lemma_line_breaks_concat(key, " = "@);
    lemma_line_breaks_concat(key + " = "@, value);
    lemma_line_breaks_concat(key + " = "@ + value, "\n"@);
    assert(line_breaks("\n"@) == 1) by {
        reveal_strlit("\n");
        assert("\n"@ =~= seq!['\n']);
        assert(seq!['\n'].drop_last() =~= Seq::<char>::empty());
        assert(line_breaks(Seq::<char>::empty()) == 0);
    }
}

proof fn lemma_cfg_text_breaks(data: Seq<(Seq<char>, Seq<char>)>)
    requires
        forall|i: int| 0 <= i < data.len() ==> single_line(#[trigger] data[i].0) && single_line(data[i].1),
    ensures
        line_breaks(cfg_text(data)) == data.len(),
    decreases data.len(),
{
    if data.len() > 0 {
        let init = data.drop_last();
        assert forall|i: int| 0 <= i < init.len() implies single_line(#[trigger] init[i].0) && single_line(
            init[i].1,
        ) by {
            assert(init[i] == data[i]);
        }
        lemma_cfg_text_breaks(init);
        assert(single_line(data[data.len() - 1].0));
        lemma_cfg_line_breaks(data.last().0, data.last().1);
        lemma_line_breaks_concat(cfg_text(init), cfg_line(data.last().0, data.last().1));
    }
}

/// The descriptor holds eight `key = value` lines, with the keys in a fixed
/// order and without quoting; `version_info` is the interpreter's version
/// string verbatim. When no value holds a line break, the text has exactly
/// eight lines.
pub proof fn lemma_descriptor_format(
    home: Seq<char>,
    info: InfoModel,
    tool_version: Seq<char>,
    base_python: Seq<char>,
)
    ensures
        ({
            let e = descriptor_entries(home, info, tool_version, base_python);
            &&& e.len() == 8
            &&& e[2] == ("version_info"@, info.python_version)
            &&& cfg_text(e) == cfg_line(e[0].0, e[0].1) + cfg_line(e[1].0, e[1].1) + cfg_line(e[2].0, e[2].1)
                + cfg_line(e[3].0, e[3].1) + cfg_line(e[4].0, e[4].1) + cfg_line(e[5].0, e[5].1) + cfg_line(
                e[6].0,
                e[6].1,
            ) + cfg_line(e[7].0, e[7].1)
            &&& (single_line(home) && single_line(info.python_version) && single_line(tool_version)
                && single_line(info.base_prefix) && single_line(info.base_exec_prefix) && single_line(
                base_python,
            )) ==> line_breaks(cfg_text(e)) == 8
        }),
{
    let e = descriptor_entries(home, info, tool_version, base_python);
    reveal_with_fuel(cfg_text, 9);
    assert(e.drop_last().drop_last().drop_last().drop_last().drop_last().drop_last().drop_last().drop_last()
        =~= Seq::<(Seq<char>, Seq<char>)>::empty());
    assert(cfg_text(e) =~= cfg_line(e[0].0, e[0].1) + cfg_line(e[1].0, e[1].1) + cfg_line(e[2].0, e[2].1)
        + cfg_line(e[3].0, e[3].1) + cfg_line(e[4].0, e[4].1) + cfg_line(e[5].0, e[5].1) + cfg_line(
        e[6].0,
        e[6].1,
    ) + cfg_line(e[7].0, e[7].1));
    if single_line(home) && single_line(info.python_version) && single_line(tool_version) && single_line(
        info.base_prefix,
    ) && single_line(info.base_exec_prefix) && single_line(base_python) {
        reveal_strlit("home");
        reveal_strlit("implementation");
        reveal_strlit("CPython");
        reveal_strlit("version_info");
        reveal_strlit("virtualenv-rs");
        reveal_strlit("include-system-site-packages");
        reveal_strlit("false");
        reveal_strlit("base-prefix");
        reveal_strlit("base-exec-prefix");
        reveal_strlit("base-executable");
        lemma_cfg_text_breaks(e);
    }
}

fn version_tag_string(info: &InterpreterInfo) -> (r: String)
    ensures
        r@ == version_tag(info@),
{
    let mut s = decimal_string(info.major as u64);
    s.append(".");
    let minor = decimal_string(info.minor as u64);
    s.append(minor.as_str());
    s
}

fn prefixed(prefix: &str, rest: &str) -> (r: String)
    ensures
        r@ == prefix@ + rest@,
{
    let mut s = String::from_str(prefix);
    s.append(rest);
    s
}

/// The entries of the environment descriptor for an interpreter at
/// `base_python`, whose parent directory is `home`.
pub fn pyvenv_cfg_entries(home: &str, info: &InterpreterInfo, tool_version: &str, base_python: &str) -> (r:
    Vec<(String, String)>)
    ensures
        pairs_view(r@) == descriptor_entries(home@, info@, tool_version@, base_python@),
{
    let mut v: Vec<(String, String)> = Vec::new();
    v.push((String::from_str("home"), String::from_str(home)));
    v.push((String::from_str("implementation"), String::from_str("CPython")));
    v.push((String::from_str("version_info"), info.python_version.clone()));
    v.push((String::from_str("virtualenv-rs"), String::from_str(tool_version)));
    v.push((String::from_str("include-system-site-packages"), String::from_str("false")));
    v.push((String::from_str("base-prefix"), info.base_prefix.clone()));
    v.push((String::from_str("base-exec-prefix"), info.base_exec_prefix.clone()));
    v.push((String::from_str("base-executable"), String::from_str(base_python)));
    proof {
        assert(pairs_view(v@) =~= descriptor_entries(home@, info@, tool_version@, base_python@));
    }
    v
}

/// The text of the environment descriptor `pyvenv.cfg`.
pub fn pyvenv_cfg(home: &str, info: &InterpreterInfo, tool_version: &str, base_python: &str) -> (r: String)
    ensures
        r@ == cfg_text(descriptor_entries(home@, info@, tool_version@, base_python@)),
{
    let entries = pyvenv_cfg_entries(home, info, tool_version, base_python);
    let mut text = String::new();
    write_cfg(&mut text, &entries);
    proof {
        assert(text@ =~= cfg_text(descriptor_entries(home@, info@, tool_version@, base_python@)));
    }
    text
}

/// Fills in an activation template: the environment root and the path from
/// the directory of scripts to site-packages.
pub fn render_template(template: &str, root: &str, info: &InterpreterInfo) -> (r: String)
    ensures
        r@ == rendered(template@, root@, info@),
{
    let rel_head = prefixed("../lib/python", version_tag_string(info).as_str());
    let rel = prefixed(rel_head.as_str(), "/site-packages");
    proof {
        reveal_strlit("{{ VIRTUAL_ENV_DIR }}");
        reveal_strlit("{{ RELATIVE_SITE_PACKAGES }}");
        assert(rel@ =~= relative_site_packages(info@));
    }
    let first = replace_all(template, "{{ VIRTUAL_ENV_DIR }}", root);
    replace_all(first.as_str(), "{{ RELATIVE_SITE_PACKAGES }}", rel.as_str())
}

/// Plans the build of an environment without packages at `root`, a
/// canonical path, for the interpreter at `base_python` described by `info`.
/// The plan first empties the root, then creates the directory of scripts,
/// the interpreter link and its two version aliases (which point to the link,
/// not to the interpreter), the activation scripts, the ignore file, the
/// descriptor, and site-packages with its two support files.
pub fn plan_bare_venv(
    root: &str,
    base_python: &str,
    info: &InterpreterInfo,
    resources: &LayoutResources,
    tool_version: &str,
) -> (r: Result<VenvLayout, LayoutError>)
    ensures
        r is Err <==> parent_of(base_python@) is None,
        r matches Ok(l) ==> {
            &&& steps_view(l.steps@) == layout_steps(
                root@,
                base_python@,
                parent_of(base_python@)->0,
                info@,
                pairs_view(resources.templates@),
                tool_version@,
                resources.virtualenv_patch@,
            )
            &&& l.paths.root@ == root@
            &&& l.paths.bin@ == bin_dir_of(root@)
            &&& l.paths.interpreter@ == path_join(bin_dir_of(root@), "python"@)
            &&& l.paths.site_packages@ == site_packages_of(root@, info@)
        },
{
    let home = match parent(base_python) {
        Some(h) => h,
        None => { return Err(LayoutError::InterpreterWithoutParent); },
    };
    let bin = join(root, "bin");
    let interpreter = join(bin.as_str(), "python");
    let tag = version_tag_string(info);
    let major = decimal_string(info.major as u64);
    let mut steps: Vec<LayoutStep> = Vec::new();
    steps.push(LayoutStep::ResetDir { path: String::from_str(root) });
    steps.push(LayoutStep::CreateDir { path: bin.clone() });
    steps.push(LayoutStep::Symlink { target: String::from_str(base_python), link: interpreter.clone() });
    let major_name = prefixed("python", major.as_str());
    steps.push(LayoutStep::Symlink { target: String::from_str("python"), link: join(bin.as_str(), major_name.as_str()) });
    let minor_name = prefixed("python", tag.as_str());
    steps.push(LayoutStep::Symlink { target: String::from_str("python"), link: join(bin.as_str(), minor_name.as_str()) });
    let ghost head = head_steps(root@, base_python@, info@);
    let ghost tv = pairs_view(resources.templates@);
    proof {
        assert(steps_view(steps@) =~= head);
    }
    let mut i: usize = 0;
    while i < resources.templates.len()
        invariant
            0 <= i <= resources.templates@.len(),
            tv == pairs_view(resources.templates@),
            bin@ == bin_dir_of(root@),
            steps_view(steps@) == head + template_steps(tv.take(i as int), root@, info@),
        decreases resources.templates@.len() - i,
    {
        let name = &resources.templates[i].0;
        let template = &resources.templates[i].1;
        let path = join(bin.as_str(), name.as_str());
        let contents = render_template(template.as_str(), root, info);
        let ghost before = steps@;
        steps.push(LayoutStep::WriteFile { path, contents });
        proof {
            assert(tv.take(i + 1) =~= tv.take(i as int).push(tv[i as int]));
            assert(steps_view(steps@) =~= steps_view(before).push(steps@.last()@));
            assert(template_steps(tv.take(i + 1), root@, info@) =~= template_steps(tv.take(i as int), root@, info@).push(
                steps@.last()@));
        }
        i = i + 1;
    }
    proof {
        assert(tv.take(tv.len() as int) =~= tv);
    }
    let ghost mid = steps@;
    steps.push(LayoutStep::WriteFile { path: join(root, ".gitignore"), contents: String::from_str("*") });
    steps.push(LayoutStep::WriteFile {
        path: join(root, "pyvenv.cfg"),
        contents: pyvenv_cfg(home.as_str(), info, tool_version, base_python),
    });
    let lib = join(root, "lib");
    let version_dir = join(lib.as_str(), minor_name.as_str());
    let site_packages = join(version_dir.as_str(), "site-packages");
    steps.push(LayoutStep::CreateDirAll { path: site_packages.clone() });
    steps.push(LayoutStep::WriteFile {
        path: join(site_packages.as_str(), "_virtualenv.py"),
        contents: resources.virtualenv_patch.clone(),
    });
    steps.push(LayoutStep::WriteFile {
        path: join(site_packages.as_str(), "_virtualenv.pth"),
        contents: String::from_str("import _virtualenv"),
    });
    proof {
        let tail = tail_steps(root@, base_python@, home@, info@, tool_version@, resources.virtualenv_patch@);
        assert(steps_view(steps@) =~= steps_view(mid) + tail);
        assert(steps_view(steps@) =~= layout_steps(
            root@,
            base_python@,
            home@,
            info@,
            tv,
            tool_version@,
            resources.virtualenv_patch@,
        ));
    }
    Ok(VenvLayout {
        paths: VenvPaths { root: String::from_str(root), interpreter, bin, site_packages },
        steps,
    })
}

} // verus!
