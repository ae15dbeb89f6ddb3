//! The bootstrap packages: where their unpacked contents and archives are
//! found, how their declared entry points are read, and the launcher scripts
//! made from them.
use vstd::prelude::*;
use crate::bare::{launcher_text, unix_launcher_script};
use crate::paths::{join, path_join};
use crate::text::str_eq;

verus! {

/// A package placed in every environment that is not bare.
pub struct BootstrapPackage {
    pub name: String,
    pub version: String,
}

/// Name and version of each bootstrap package, in installation order.
pub open spec fn bootstrap_list() -> Seq<(Seq<char>, Seq<char>)> {
    seq![("pip"@, "23.2.1"@), ("setuptools"@, "68.2.0"@), ("wheel"@, "0.41.2"@)]
}

/// The fixed list of bootstrap packages: the package manager, the build
/// tooling and the wheel library.
pub fn bootstrap_packages() -> (r: Vec<BootstrapPackage>)
    ensures
        r@.len() == bootstrap_list().len(),
        forall|i: int|
            0 <= i < r@.len() ==> (#[trigger] r@[i]).name@ == bootstrap_list()[i].0 && r@[i].version@
                == bootstrap_list()[i].1,
{
    let mut v: Vec<BootstrapPackage> = Vec::new();
    v.push(BootstrapPackage { name: String::from_str("pip"), version: String::from_str("23.2.1") });
    v.push(BootstrapPackage { name: String::from_str("setuptools"), version: String::from_str("68.2.0") });
    v.push(BootstrapPackage { name: String::from_str("wheel"), version: String::from_str("0.41.2") });
    v
}

/// Where unpacked wheels are kept below the data directory.
pub open spec fn wheel_store_prefix() -> Seq<char> {
    "virtualenv/wheel/3.11/image/1/CopyPipInstall/"@
}

/// The directory of a package's unpacked wheel below the data directory.
pub open spec fn unpacked_wheel_dir_of(data_dir: Seq<char>, name: Seq<char>, version: Seq<char>) -> Seq<char> {
    path_join(path_join(data_dir, wheel_store_prefix()), name + "-"@ + version + "-py3-none-any"@)
}

/// The declared entry points of an installed package.
pub open spec fn entry_points_file_of(site_packages: Seq<char>, name: Seq<char>, version: Seq<char>) -> Seq<
    char,
> {
    path_join(path_join(site_packages, name + "-"@ + version + ".dist-info"@), "entry_points.txt"@)
}

impl BootstrapPackage {
    /// The directory that holds this package unpacked, below `data_dir`.
    pub fn unpacked_wheel_dir(&self, data_dir: &str) -> (r: String)
        ensures
            r@ == unpacked_wheel_dir_of(data_dir@, self.name@, self.version@),
    {
        let store = join(data_dir, "virtualenv/wheel/3.11/image/1/CopyPipInstall/");
        let mut dir_name = self.name.clone();
        dir_name.append("-");
        dir_name.append(self.version.as_str());
        dir_name.append("-py3-none-any");
        join(store.as_str(), dir_name.as_str())
    }

    /// The entry-points file of this package once placed in `site_packages`.
    pub fn entry_points_file(&self, site_packages: &str) -> (r: String)
        ensures
            r@ == entry_points_file_of(site_packages@, self.name@, self.version@),
    {
        let mut dist_info = self.name.clone();
        dist_info.append("-");
        dist_info.append(self.version.as_str());
        dist_info.append(".dist-info");
        let dir = join(site_packages, dist_info.as_str());
        join(dir.as_str(), "entry_points.txt")
    }
}

/// An optional text as an optional sequence of characters.
pub open spec fn opt_view(o: Option<String>) -> Option<Seq<char>> {
    match o {
        Some(s) => Some(s@),
        None => None,
    }
}

/// Whether `v` is `module:callable`: `module` followed by the first colon of
/// `v`, then `callable`.
pub open spec fn is_colon_split(v: Seq<char>, module: Seq<char>, callable: Seq<char>) -> bool {
    v == module + seq![':'] + callable && !module.contains(':')
}

/// Whether an entry-point value can be split into module and callable.
pub open spec fn is_well_formed(value: Option<Seq<char>>) -> bool {
    value matches Some(v) && v.contains(':')
}

fn find_colon(s: &str) -> (r: Option<usize>)
    ensures
        r matches Some(i) ==> i < s@.len() && s@[i as int] == ':' && forall|j: int| 0 <= j < i ==> s@[j] != ':',
        r is None ==> !s@.contains(':'),
{
    let n = s.unicode_len();
    let mut i: usize = 0;
    while i < n
        invariant
            n == s@.len(),
            0 <= i <= n,
            forall|j: int| 0 <= j < i ==> s@[j] != ':',
        decreases n - i,
    {
        if s.get_char(i) == ':' {
            return Some(i);
        }
        i = i + 1;
    }
    None
}

/// Splits an entry-point value `module:callable` at its first colon; `None`
/// when the value has no colon.
pub fn split_entry_point(value: &str) -> (r: Option<(String, String)>)
    ensures
        r is Some <==> value@.contains(':'),
        r matches Some((m, f)) ==> is_colon_split(value@, m@, f@),
{
    match find_colon(value) {
        Some(i) => {
            let n = value.unicode_len();
            let module = value.substring_char(0, i);
            let callable = value.substring_char(i + 1, n);
            proof {
                assert(value@ =~= module@ + seq![':'] + callable@);
                assert(!module@.contains(':')) by {
                    if module@.contains(':') {
                        let k = choose|k: int| 0 <= k < module@.len() && module@[k] == ':';
                        assert(value@[k] == ':');
                    }
                }
            }
            Some((String::from_str(module), String::from_str(callable)))
        },
        None => None,
    }
}

/// A launcher to write: its path, and what it runs.
pub struct Launcher {
    pub path: String,
    pub module: String,
    pub function: String,
    pub script: String,
}

/// Why the entry points of a package could not be turned into launchers.
pub enum EntryPointError {
    /// The entry-points file is not valid sectioned key/value text.
    InvalidFile { package: String, message: String },
    /// The value under `key` is missing or has no colon.
    Malformed { package: String, key: String, value: Option<String> },
}

/// Whether `l` is the launcher for entry `key = value` of the directory `bin`,
/// run by the interpreter at `python`.
pub open spec fn is_launcher_for(
    l: Launcher,
    key: Seq<char>,
    value: Seq<char>,
    bin: Seq<char>,
    python: Seq<char>,
) -> bool {
    &&& l.path@ == path_join(bin, key)
    &&& is_colon_split(value, l.module@, l.function@)
    &&& l.script@ == launcher_text(python, l.module@, l.function@)
}

/// What turning the console-script entries `entries` of `package` into
/// launchers gives: a launcher per entry, in order, when every value is
/// well formed; else the first entry whose value is not.
pub open spec fn launchers_result(
    package: Seq<char>,
    entries: Seq<(String, Option<String>)>,
    bin: Seq<char>,
    python: Seq<char>,
    r: Result<Vec<Launcher>, EntryPointError>,
) -> bool {
    &&& r is Ok <==> forall|i: int| 0 <= i < entries.len() ==> is_well_formed(opt_view(#[trigger] entries[i].1))
    &&& r matches Ok(ls) ==> ls@.len() == entries.len() && forall|i: int|
        0 <= i < entries.len() ==> is_launcher_for(
            #[trigger] ls@[i],
            entries[i].0@,
            entries[i].1->0@,
            bin,
            python,
        )
    &&& match r {
        Ok(_) => true,
        Err(EntryPointError::Malformed { package: p, key, value }) => p@ == package && exists|i: int|
            0 <= i < entries.len() && #[trigger] entries[i].0@ == key@ && opt_view(entries[i].1) == opt_view(
                value,
            ) && !is_well_formed(opt_view(value)) && forall|j: int|
                0 <= j < i ==> is_well_formed(opt_view(#[trigger] entries[j].1)),
        Err(_) => false,
    }
}

/// Turns console-script entries of `package` into launchers in `bin`, run
/// by the interpreter at `python`.
pub fn entry_point_launchers(
    package: &str,
    entries: &Vec<(String, Option<String>)>,
    bin: &str,
    python: &str,
) -> (r: Result<Vec<Launcher>, EntryPointError>)
    ensures
        launchers_result(package@, entries@, bin@, python@, r),
{
    let mut out: Vec<Launcher> = Vec::new();
    let mut i: usize = 0;
    while i < entries.len()
        invariant
            0 <= i <= entries@.len(),
            out@.len() == i,
            forall|j: int| 0 <= j < i ==> is_well_formed(opt_view(#[trigger] entries@[j].1)),
            forall|j: int|
                0 <= j < i ==> is_launcher_for(#[trigger] out@[j], entries@[j].0@, entries@[j].1->0@, bin@, python@),
        decreases entries@.len() - i,
    {
        let key = &entries[i].0;
        let split = match &entries[i].1 {
            Some(v) => split_entry_point(v.as_str()),
            None => None,
        };
        match split {
            Some((module, function)) => {
                let script = unix_launcher_script(python, module.as_str(), function.as_str());
                let path = join(bin, key.as_str());
                out.push(Launcher { path, module, function, script });
            },
            None => {
                let value = match &entries[i].1 {
                    Some(v) => Some(v.clone()),
                    None => None,
                };
                let k = key.clone();
                proof {
                    assert(k@ == entries@[i as int].0@);
                    assert(opt_view(value) == opt_view(entries@[i as int].1));
                    assert(!is_well_formed(opt_view(value)));
                }
                return Err(EntryPointError::Malformed { package: String::from_str(package), key: k, value });
            },
        }
        i = i + 1;
    }
    Ok(out)
}

/// The keys of a section and their optional values, as a map.
pub open spec fn entries_map(entries: Seq<(String, Option<String>)>) -> Map<Seq<char>, Option<Seq<char>>>
    decreases entries.len(),
{
    if entries.len() == 0 {
        Map::empty()
    } else {
        entries_map(entries.drop_last()).insert(entries.last().0@, opt_view(entries.last().1))
    }
}

/// The sections of a parsed file, each a map from key to optional value.
pub open spec fn sections_map(sections: Seq<(String, Vec<(String, Option<String>)>)>) -> Map<
    Seq<char>,
    Map<Seq<char>, Option<Seq<char>>>,
>
    decreases sections.len(),
{
    if sections.len() == 0 {
        Map::empty()
    } else {
        sections_map(sections.drop_last()).insert(sections.last().0@, entries_map(sections.last().1@))
    }
}

/// Whether no two sections share a name, and no two keys of a section
/// share a key.
pub open spec fn names_distinct(sections: Seq<(String, Vec<(String, Option<String>)>)>) -> bool {
    &&& forall|i: int, j: int|
        0 <= i < j < sections.len() ==> (#[trigger] sections[i]).0@ != (#[trigger] sections[j]).0@
    &&& forall|k: int, i: int, j: int|
        0 <= k < sections.len() && 0 <= i < j < sections[k].1@.len() ==> (#[trigger] sections[k].1@[i]).0@
            != (#[trigger] sections[k].1@[j]).0@
}

/// What configparser's case-sensitive reader makes of a text: its sections,
/// each a map from key to optional value, or `None` when it refuses the text.
pub uninterp spec fn ini_of(text: Seq<char>) -> Option<Map<Seq<char>, Map<Seq<char>, Option<Seq<char>>>>>;

/// Relies on configparser's `Ini::new_cs().read`: it parses the text into
/// sections of case-sensitive keys with optional values, or returns an error
/// message. Its maps are listed in their own order, each name once.
#[verifier::external_body]
fn read_ini(text: String) -> (r: Result<Vec<(String, Vec<(String, Option<String>)>)>, String>)
    ensures
        r is Ok <==> ini_of(text@) is Some,
        r matches Ok(s) ==> ini_of(text@) == Some(sections_map(s@)) && names_distinct(s@),
{
    configparser::ini::Ini::new_cs().read(text).map(
        |m| m.into_iter().map(|(name, section)| (name, section.into_iter().collect())).collect(),
    )
}

/// The entries of the first section named `console_scripts`, or none.
pub open spec fn console_entries(sections: Seq<(String, Vec<(String, Option<String>)>)>) -> Seq<
    (String, Option<String>),
>
    decreases sections.len(),
{
    if sections.len() == 0 {
        Seq::empty()
    } else if sections[0].0@ == "console_scripts"@ {
        sections[0].1@
    } else {
        console_entries(sections.drop_first())
    }
}

/// The launchers for the `console_scripts` section of the parsed entry
/// points `sections` of `package`; a missing section gives none.
pub fn console_script_launchers(
    package: &str,
    sections: &Vec<(String, Vec<(String, Option<String>)>)>,
    bin: &str,
    python: &str,
) -> (r: Result<Vec<Launcher>, EntryPointError>)
    ensures
        launchers_result(package@, console_entries(sections@), bin@, python@, r),
{
    let mut i: usize = 0;
    proof {
        assert(sections@.subrange(0, sections@.len() as int) =~= sections@);
    }
    while i < sections.len()
        invariant
            0 <= i <= sections@.len(),
            console_entries(sections@) == console_entries(sections@.subrange(i as int, sections@.len() as int)),
        decreases sections@.len() - i,
    {
        let rest = Ghost(sections@.subrange(i as int, sections@.len() as int));
        if str_eq(sections[i].0.as_str(), "console_scripts") {
            return entry_point_launchers(package, &sections[i].1, bin, python);
        }
        proof {
            assert(rest@.drop_first() =~= sections@.subrange(i + 1, sections@.len() as int));
        }
        i = i + 1;
    }
    let none: Vec<(String, Option<String>)> = Vec::new();
    proof {
        assert(console_entries(sections@.subrange(i as int, sections@.len() as int)) =~= none@);
    }
    entry_point_launchers(package, &none, bin, python)
}

/// Reads the entry-points file text of `package` and makes the launchers of
/// its `console_scripts` section. The file is refused exactly when the
/// reader refuses it; otherwise the result is that of
/// [`console_script_launchers`] on what the reader returned.
pub fn launchers_from_entry_points(package: &str, text: String, bin: &str, python: &str) -> (r: Result<
    Vec<Launcher>,
    EntryPointError,
>)
    ensures
        r matches Err(EntryPointError::InvalidFile { package: p, message: _ }) <==> ini_of(text@) is None,
        r matches Err(EntryPointError::InvalidFile { package: p, message: _ }) ==> p@ == package@,
        ini_of(text@) is Some ==> exists|s: Seq<(String, Vec<(String, Option<String>)>)>|
            ini_of(text@) == Some(sections_map(s)) && names_distinct(s) && launchers_result(
                package@,
                console_entries(s),
                bin@,
                python@,
                r,
            ),
{
    let ghost t = text@;
    match read_ini(text) {
        Ok(sections) => {
            let r = console_script_launchers(package, &sections, bin, python);
            proof {
                assert(ini_of(t) == Some(sections_map(sections@)) && names_distinct(sections@) && launchers_result(
                    package@,
                    console_entries(sections@),
                    bin@,
                    python@,
                    r,
                ));
            }
            r
        },
        Err(message) => Err(EntryPointError::InvalidFile { package: String::from_str(package), message }),
    }
}

/// What to do to have a package archive in the local archive cache.
pub enum WheelFetch {
    /// The archive is there: use the file, with no network access.
    Cached { path: String },
    /// Download `url` into a temporary file in `dir`, then rename it to `path`.
    Download { dir: String, url: String, path: String },
}

/// The directory of cached archives below the tool's cache directory.
pub open spec fn wheel_cache_dir_of(cache_root: Seq<char>) -> Seq<char> {
    path_join(cache_root, "wheels"@)
}

/// The directory of cached archives below the tool's cache directory.
pub fn wheel_cache_dir(cache_root: &str) -> (r: String)
    ensures
        r@ == wheel_cache_dir_of(cache_root@),
{
    join(cache_root, "wheels")
}

/// The cached archive `filename`: the file of exactly that name in the
/// archive cache.
pub fn cached_wheel_path(cache_root: &str, filename: &str) -> (r: String)
    ensures
        r@ == path_join(wheel_cache_dir_of(cache_root@), filename@),
{
    let dir = wheel_cache_dir(cache_root);
    join(dir.as_str(), filename)
}

/// Decides how to obtain the archive `filename` from `url`, given whether a
/// file of that name is in the archive cache. A present file is used as it
/// is; an absent one is downloaded once, into the cache directory, and ends
/// under exactly the requested name.
pub fn plan_wheel_fetch(cache_root: &str, filename: &str, url: &str, present: bool) -> (r: WheelFetch)
    ensures
        present <==> r is Cached,
        r matches WheelFetch::Cached { path } ==> path@ == path_join(wheel_cache_dir_of(cache_root@), filename@),
        r matches WheelFetch::Download { dir, url: u, path } ==> dir@ == wheel_cache_dir_of(cache_root@) && u@
            == url@ && path@ == path_join(wheel_cache_dir_of(cache_root@), filename@),
{
    let path = cached_wheel_path(cache_root, filename);
    if present {
        WheelFetch::Cached { path }
    } else {
        WheelFetch::Download { dir: wheel_cache_dir(cache_root), url: String::from_str(url), path }
    }
}

} // verus!
