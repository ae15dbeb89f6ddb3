//! A model of the file system that a build acts on, and what a build's steps
//! leave in it.
use vstd::prelude::*;
use crate::bare::{
    bin_dir_of, head_steps, layout_steps, site_packages_of, tail_steps, template_steps,
    version_tag, StepModel,
};
use crate::interpreter::InfoModel;
use crate::paths::{is_plain_name, is_under, lemma_join_under, lemma_under_trans, path_join};
use crate::text::{decimal, lemma_decimal_no_slash};

verus! {

/// What a path of the file system holds.
pub enum Node {
    Dir,
    Link(Seq<char>),
    File(Seq<char>),
}

/// The file system as a map from path to what the path holds.
pub type Disk = Map<Seq<char>, Node>;

/// The path a step creates.
pub open spec fn step_path(s: StepModel) -> Seq<char> {
    match s {
        StepModel::ResetDir { path } => path,
        StepModel::CreateDir { path } => path,
        StepModel::CreateDirAll { path } => path,
        StepModel::Symlink { target, link } => link,
        StepModel::WriteFile { path, contents } => path,
    }
}

/// The file system after one successful step. A reset removes the directory
/// and all below it, then creates the directory again.
pub open spec fn apply_step(d: Disk, s: StepModel) -> Disk {
    match s {
        StepModel::ResetDir { path } => d.restrict(Set::new(|q: Seq<char>| !is_under(q, path))).insert(
            path,
            Node::Dir,
        ),
        StepModel::CreateDir { path } => d.insert(path, Node::Dir),
        StepModel::CreateDirAll { path } => d.insert(path, Node::Dir),
        StepModel::Symlink { target, link } => d.insert(link, Node::Link(target)),
        StepModel::WriteFile { path, contents } => d.insert(path, Node::File(contents)),
    }
}

/// The file system after a sequence of successful steps, taken in order.
pub open spec fn apply_steps(d: Disk, steps: Seq<StepModel>) -> Disk
    decreases steps.len(),
{
    if steps.len() == 0 {
        d
    } else {
        apply_step(apply_steps(d, steps.drop_last()), steps.last())
    }
}

/// The part of the file system at `root` and below.
pub open spec fn subtree(d: Disk, root: Seq<char>) -> Disk {
    d.restrict(Set::new(|q: Seq<char>| is_under(q, root)))
}

/// Whether a step may change what `k` holds.
pub open spec fn touches(s: StepModel, k: Seq<char>) -> bool {
    match s {
        StepModel::ResetDir { path } => is_under(k, path),
        _ => step_path(s) == k,
    }
}

proof fn lemma_apply_concat(d: Disk, a: Seq<StepModel>, b: Seq<StepModel>)
    ensures
        apply_steps(d, a + b) == apply_steps(apply_steps(d, a), b),
    decreases b.len(),
{
    if b.len() == 0 {
        assert(a + b =~= a);
    } else {
        lemma_apply_concat(d, a, b.drop_last());
        assert((a + b).drop_last() =~= a + b.drop_last());
        assert((a + b).last() == b.last());
    }
}

proof fn lemma_untouched(d: Disk, steps: Seq<StepModel>, k: Seq<char>)
    requires
        forall|i: int| 0 <= i < steps.len() ==> !touches(#[trigger] steps[i], k),
    ensures
        apply_steps(d, steps).contains_key(k) == d.contains_key(k),
        d.contains_key(k) ==> apply_steps(d, steps)[k] == d[k],
    decreases steps.len(),
{
    if steps.len() > 0 {
        let init = steps.drop_last();
        assert forall|i: int| 0 <= i < init.len() implies !touches(#[trigger] init[i], k) by {
            assert(init[i] == steps[i]);
        }
        lemma_untouched(d, init, k);
        assert(!touches(steps[steps.len() - 1], k));
    }
}

/// Whether two file systems hold the same at `root` and below.
pub open spec fn agree_under(a: Disk, b: Disk, root: Seq<char>) -> bool {
    forall|p: Seq<char>|
        is_under(p, root) ==> (a.contains_key(p) == b.contains_key(p) && (a.contains_key(p) ==> a[p]
            == b[p]))
}

proof fn lemma_steps_agree(d1: Disk, d2: Disk, steps: Seq<StepModel>, root: Seq<char>)
    requires
        steps.len() > 0,
        steps[0] == (StepModel::ResetDir { path: root }),
        forall|i: int| 1 <= i < steps.len() ==> is_under(step_path(#[trigger] steps[i]), root),
    ensures
        agree_under(apply_steps(d1, steps), apply_steps(d2, steps), root),
    decreases steps.len(),
{
    let init = steps.drop_last();
    if steps.len() == 1 {
        assert(init.len() == 0);
        assert(apply_steps(d1, init) == d1);
        assert(apply_steps(d2, init) == d2);
    } else {
        assert forall|i: int| 1 <= i < init.len() implies is_under(step_path(#[trigger] init[i]), root) by {
            assert(init[i] == steps[i]);
        }
        lemma_steps_agree(d1, d2, init, root);
        let s = steps.last();
        assert(is_under(step_path(steps[steps.len() - 1]), root));
        let a = apply_steps(d1, init);
        let b = apply_steps(d2, init);
        match s {
            StepModel::ResetDir { path } => {
                assert forall|p: Seq<char>| is_under(p, root) implies (apply_step(a, s).contains_key(p)
                    == apply_step(b, s).contains_key(p) && (apply_step(a, s).contains_key(p) ==> apply_step(
                    a,
                    s,
                )[p] == apply_step(b, s)[p])) by {
                    if p != path && !is_under(p, path) {
                        assert(a.contains_key(p) == b.contains_key(p));
                    }
                }
            },
            _ => {},
        }
    }
}

/// The plain names a build gives to entries below the root.
proof fn lemma_literal_names()
    ensures
        is_plain_name("bin"@),
        is_plain_name("python"@),
        is_plain_name("lib"@),
        is_plain_name("site-packages"@),
        is_plain_name(".gitignore"@),
        is_plain_name("pyvenv.cfg"@),
        is_plain_name("_virtualenv.py"@),
        is_plain_name("_virtualenv.pth"@),
{
    reveal_strlit("bin");
    reveal_strlit("python");
    reveal_strlit("lib");
    reveal_strlit("site-packages");
    reveal_strlit(".gitignore");
    reveal_strlit("pyvenv.cfg");
    reveal_strlit("_virtualenv.py");
    reveal_strlit("_virtualenv.pth");
}

proof fn lemma_plain_concat(a: Seq<char>, b: Seq<char>)
    requires
        is_plain_name(a),
        forall|i: int| 0 <= i < b.len() ==> b[i] != '/',
    ensures
        is_plain_name(a + b),
{
    assert forall|i: int| 0 <= i < (a + b).len() implies (a + b)[i] != '/' by {
        if i >= a.len() {
            assert((a + b)[i] == b[i - a.len()]);
        }
    }
}

/// The names `pythonMAJOR` and `pythonMAJOR.MINOR` are plain names.
proof fn lemma_alias_names(info: InfoModel)
    ensures
        is_plain_name("python"@ + decimal(info.major)),
        is_plain_name("python"@ + version_tag(info)),
{
    lemma_literal_names();
    lemma_decimal_no_slash(info.major);
    lemma_decimal_no_slash(info.minor);
    reveal_strlit(".");
    lemma_plain_concat("python"@, decimal(info.major));
    lemma_plain_concat("python"@ + decimal(info.major), "."@);
    lemma_plain_concat("python"@ + decimal(info.major) + "."@, decimal(info.minor));
    assert(version_tag(info) == decimal(info.major) + "."@ + decimal(info.minor));
    assert("python"@ + version_tag(info) =~= "python"@ + decimal(info.major) + "."@ + decimal(info.minor));
}

/// Every step of a build after the first creates a path below the root.
proof fn lemma_layout_under_root(
    root: Seq<char>,
    base_python: Seq<char>,
    home: Seq<char>,
    info: InfoModel,
    templates: Seq<(Seq<char>, Seq<char>)>,
    tool_version: Seq<char>,
    patch: Seq<char>,
)
    requires
        root.len() > 0,
        forall|i: int| 0 <= i < templates.len() ==> is_plain_name(#[trigger] templates[i].0),
    ensures
        ({
            let steps = layout_steps(root, base_python, home, info, templates, tool_version, patch);
            &&& steps.len() > 0
            &&& steps[0] == (StepModel::ResetDir { path: root })
            &&& forall|i: int| 1 <= i < steps.len() ==> is_under(step_path(#[trigger] steps[i]), root)
        }),
{
    lemma_literal_names();
    lemma_alias_names(info);
    let bin = bin_dir_of(root);
    lemma_join_under(root, "bin"@);
    let head = head_steps(root, base_python, info);
    let mid = template_steps(templates, root, info);
    let tail = tail_steps(root, base_python, home, info, tool_version, patch);
    let steps = layout_steps(root, base_python, home, info, templates, tool_version, patch);
    assert(steps == head + mid + tail);
    let lib = path_join(root, "lib"@);
    let vdir = path_join(lib, "python"@ + version_tag(info));
    let site = site_packages_of(root, info);
    lemma_join_under(root, "lib"@);
    lemma_join_under(lib, "python"@ + version_tag(info));
    lemma_join_under(vdir, "site-packages"@);
    lemma_under_trans(vdir, lib, root);
    lemma_under_trans(site, vdir, root);
    lemma_join_under(site, "_virtualenv.py"@);
    lemma_join_under(site, "_virtualenv.pth"@);
    lemma_under_trans(path_join(site, "_virtualenv.py"@), site, root);
    lemma_under_trans(path_join(site, "_virtualenv.pth"@), site, root);
    lemma_join_under(root, ".gitignore"@);
    lemma_join_under(root, "pyvenv.cfg"@);
    assert forall|i: int| 1 <= i < steps.len() implies is_under(step_path(#[trigger] steps[i]), root) by {
        if i < head.len() {
            let n = if i == 1 {
                "python"@
            } else if i == 2 {
                "python"@
            } else if i == 3 {
                "python"@ + decimal(info.major)
            } else {
                "python"@ + version_tag(info)
            };
            if i >= 2 {
                lemma_join_under(bin, n);
                lemma_under_trans(path_join(bin, n), bin, root);
            }
        } else if i < head.len() + mid.len() {
            let t = templates[i - head.len()];
            lemma_join_under(bin, t.0);
            lemma_under_trans(path_join(bin, t.0), bin, root);
        }
    }
}

/// A build removes whatever stood at its root before it, so building twice in
/// a row leaves the root exactly as building once: the same directories, the
/// same link targets and the same file contents, whatever the file system
/// held before.
pub proof fn lemma_rebuild_idempotent(
    before: Disk,
    root: Seq<char>,
    base_python: Seq<char>,
    home: Seq<char>,
    info: InfoModel,
    templates: Seq<(Seq<char>, Seq<char>)>,
    tool_version: Seq<char>,
    patch: Seq<char>,
)
    requires
        root.len() > 0,
        forall|i: int| 0 <= i < templates.len() ==> is_plain_name(#[trigger] templates[i].0),
    ensures
        ({
            let steps = layout_steps(root, base_python, home, info, templates, tool_version, patch);
            let once = apply_steps(before, steps);
            subtree(apply_steps(once, steps), root) == subtree(once, root)
        }),
{
    let steps = layout_steps(root, base_python, home, info, templates, tool_version, patch);
    let once = apply_steps(before, steps);
    lemma_layout_under_root(root, base_python, home, info, templates, tool_version, patch);
    lemma_steps_agree(once, before, steps, root);
    assert(subtree(apply_steps(once, steps), root) =~= subtree(once, root));
}

/// The index at which a name adjoined to `base` starts.
pub open spec fn name_start(base: Seq<char>) -> int {
    if base.last() == '/' { base.len() as int } else { base.len() + 1 as int }
}

proof fn lemma_join_extends(base: Seq<char>, n: Seq<char>)
    requires
        base.len() > 0,
        is_plain_name(n),
    ensures
        path_join(base, n).len() == name_start(base) + n.len(),
        forall|i: int| 0 <= i < base.len() ==> path_join(base, n)[i] == base[i],
        forall|i: int| 0 <= i < n.len() ==> path_join(base, n)[name_start(base) + i] == n[i],
{
}

proof fn lemma_join_injective(base: Seq<char>, a: Seq<char>, b: Seq<char>)
    requires
        base.len() > 0,
        is_plain_name(a),
        is_plain_name(b),
        a != b,
    ensures
        path_join(base, a) != path_join(base, b),
{
    lemma_join_extends(base, a);
    lemma_join_extends(base, b);
    if path_join(base, a) == path_join(base, b) {
        assert(a =~= b) by {
            assert forall|i: int| 0 <= i < a.len() implies a[i] == b[i] by {
                assert(path_join(base, a)[name_start(base) + i] == a[i]);
            }
        }
    }
}

/// A path below `root` whose first name below `root` is `n` differs from one
/// whose first name is `m`, when `n` and `m` start with different characters.
proof fn lemma_first_names_differ(
    root: Seq<char>,
    n: Seq<char>,
    p: Seq<char>,
    m: Seq<char>,
    q: Seq<char>,
)
    requires
        root.len() > 0,
        is_plain_name(n),
        is_plain_name(m),
        n[0] != m[0],
        p.len() > name_start(root),
        q.len() > name_start(root),
        p[name_start(root)] == n[0],
        q[name_start(root)] == m[0],
    ensures
        p != q,
{
}

proof fn lemma_nested_first_char(base: Seq<char>, n: Seq<char>, k: int)
    requires
        base.len() > 0,
        is_plain_name(n),
        0 <= k < base.len(),
    ensures
        path_join(base, n).len() > base.len(),
        path_join(base, n)[k] == base[k],
{
    lemma_join_extends(base, n);
}

/// The steps after the links leave a path `bin/<n>` alone, when no
/// activation script is named `n`.
proof fn lemma_rest_untouched(
    root: Seq<char>,
    base_python: Seq<char>,
    home: Seq<char>,
    info: InfoModel,
    templates: Seq<(Seq<char>, Seq<char>)>,
    tool_version: Seq<char>,
    patch: Seq<char>,
    n: Seq<char>,
)
    requires
        root.len() > 0,
        is_plain_name(n),
        forall|i: int| 0 <= i < templates.len() ==> is_plain_name(#[trigger] templates[i].0),
        forall|i: int| 0 <= i < templates.len() ==> #[trigger] templates[i].0 != n,
    ensures
        ({
            let rest = template_steps(templates, root, info) + tail_steps(
                root,
                base_python,
                home,
                info,
                tool_version,
                patch,
            );
            forall|i: int|
                0 <= i < rest.len() ==> !touches(#[trigger] rest[i], path_join(bin_dir_of(root), n))
        }),
{
    lemma_literal_names();
    lemma_alias_names(info);
    reveal_strlit("bin");
    reveal_strlit("lib");
    reveal_strlit(".gitignore");
    reveal_strlit("pyvenv.cfg");
    let bin = bin_dir_of(root);
    let mid = template_steps(templates, root, info);
    let tail = tail_steps(root, base_python, home, info, tool_version, patch);
    let rest = mid + tail;
    let n2 = "python"@ + version_tag(info);
    let lib = path_join(root, "lib"@);
    let vdir = path_join(lib, n2);
    let site = site_packages_of(root, info);
    let k0 = name_start(root);
    let k = path_join(bin, n);
    lemma_join_extends(root, "bin"@);
    lemma_join_extends(root, "lib"@);
    lemma_nested_first_char(bin, n, k0);
    lemma_nested_first_char(lib, n2, k0);
    lemma_nested_first_char(vdir, "site-packages"@, k0);
    lemma_nested_first_char(site, "_virtualenv.py"@, k0);
    lemma_nested_first_char(site, "_virtualenv.pth"@, k0);
    lemma_join_extends(root, ".gitignore"@);
    lemma_join_extends(root, "pyvenv.cfg"@);
    assert forall|i: int| 0 <= i < rest.len() implies !touches(#[trigger] rest[i], k) by {
        if i < mid.len() {
            lemma_join_injective(bin, templates[i].0, n);
        } else if i == mid.len() {
            lemma_first_names_differ(root, "bin"@, k, ".gitignore"@, path_join(root, ".gitignore"@));
        } else if i == mid.len() + 1 {
            lemma_first_names_differ(root, "bin"@, k, "pyvenv.cfg"@, path_join(root, "pyvenv.cfg"@));
        } else if i == mid.len() + 2 {
            lemma_first_names_differ(root, "bin"@, k, "lib"@, site);
        } else if i == mid.len() + 3 {
            lemma_first_names_differ(root, "bin"@, k, "lib"@, path_join(site, "_virtualenv.py"@));
        } else {
            lemma_first_names_differ(root, "bin"@, k, "lib"@, path_join(site, "_virtualenv.pth"@));
        }
    }
}

/// After a build, `bin/pythonMAJOR` and `bin/pythonMAJOR.MINOR` are links to
/// `python`, which is read from their own directory and so names the link
/// `bin/python`; that one, and only it, points to the base interpreter.
/// This holds when no activation script is named like one of the links.
pub proof fn lemma_symlink_chain(
    before: Disk,
    root: Seq<char>,
    base_python: Seq<char>,
    home: Seq<char>,
    info: InfoModel,
    templates: Seq<(Seq<char>, Seq<char>)>,
    tool_version: Seq<char>,
    patch: Seq<char>,
)
    requires
        root.len() > 0,
        forall|i: int| 0 <= i < templates.len() ==> is_plain_name(#[trigger] templates[i].0),
        forall|i: int|
            0 <= i < templates.len() ==> {
                &&& #[trigger] templates[i].0 != "python"@
                &&& templates[i].0 != "python"@ + decimal(info.major)
                &&& templates[i].0 != "python"@ + version_tag(info)
            },
    ensures
        ({
            let after = apply_steps(
                before,
                layout_steps(root, base_python, home, info, templates, tool_version, patch),
            );
            let bin = bin_dir_of(root);
            &&& after.contains_key(path_join(bin, "python"@))
            &&& after[path_join(bin, "python"@)] == Node::Link(base_python)
            &&& after.contains_key(path_join(bin, "python"@ + decimal(info.major)))
            &&& after[path_join(bin, "python"@ + decimal(info.major))] == Node::Link("python"@)
            &&& after.contains_key(path_join(bin, "python"@ + version_tag(info)))
            &&& after[path_join(bin, "python"@ + version_tag(info))] == Node::Link("python"@)
        }),
{
    lemma_literal_names();
    lemma_alias_names(info);
    reveal_strlit("bin");
    reveal_strlit("lib");
    reveal_strlit(".gitignore");
    reveal_strlit("pyvenv.cfg");
    let bin = bin_dir_of(root);
    let head = head_steps(root, base_python, info);
    let mid = template_steps(templates, root, info);
    let tail = tail_steps(root, base_python, home, info, tool_version, patch);
    let rest = mid + tail;
    let steps = layout_steps(root, base_python, home, info, templates, tool_version, patch);
    assert(steps =~= head + rest);
    lemma_apply_concat(before, head, rest);
    let n0 = "python"@;
    let n1 = "python"@ + decimal(info.major);
    let n2 = "python"@ + version_tag(info);
    lemma_join_extends(root, "bin"@);
    lemma_join_injective(bin, n0, n1);
    lemma_join_injective(bin, n0, n2);
    lemma_join_injective(bin, n1, n2);
    let after_head = apply_steps(before, head);
    let h3 = head.take(3);
    let h4 = head.take(4);
    assert(head.drop_last() =~= h4);
    assert(h4.drop_last() =~= h3);
    assert(h3.last() == head[2]);
    assert(h4.last() == head[3]);
    let d3 = apply_steps(before, h3);
    let d4 = apply_steps(before, h4);
    assert(d3 == apply_step(apply_steps(before, h3.drop_last()), head[2]));
    assert(d4 == apply_step(d3, head[3]));
    assert(after_head == apply_step(d4, head[4]));
    assert(d3.contains_key(path_join(bin, n0)) && d3[path_join(bin, n0)] == Node::Link(base_python));
    let lib = path_join(root, "lib"@);
    let vdir = path_join(lib, n2);
    let site = site_packages_of(root, info);
    let k0 = name_start(root);
    lemma_join_extends(root, "lib"@);
    lemma_nested_first_char(lib, n2, k0);
    lemma_nested_first_char(vdir, "site-packages"@, k0);
    lemma_nested_first_char(site, "_virtualenv.py"@, k0);
    lemma_nested_first_char(site, "_virtualenv.pth"@, k0);
    lemma_join_extends(root, ".gitignore"@);
    lemma_join_extends(root, "pyvenv.cfg"@);
    lemma_rest_untouched(root, base_python, home, info, templates, tool_version, patch, n0);
    lemma_rest_untouched(root, base_python, home, info, templates, tool_version, patch, n1);
    lemma_rest_untouched(root, base_python, home, info, templates, tool_version, patch, n2);
    lemma_untouched(after_head, rest, path_join(bin, n0));
    lemma_untouched(after_head, rest, path_join(bin, n1));
    lemma_untouched(after_head, rest, path_join(bin, n2));
}

} // verus!
