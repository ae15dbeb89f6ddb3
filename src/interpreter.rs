//! What an interpreter reports about itself, how that report is checked, and
//! the per-interpreter cache of it.
use vstd::prelude::*;
use vstd::string::StringSliceAdditionalSpecFns;
use crate::paths::{join, path_join};
use crate::text::{decimal, decimal_string, str_eq};

verus! {

/// The identity of a Python interpreter, as it reports it.
#[derive(Clone, Debug)]
pub struct InterpreterInfo {
    pub base_exec_prefix: String,
    pub base_prefix: String,
    pub major: u8,
    pub minor: u8,
    pub python_version: String,
}

/// Mathematical form of an [`InterpreterInfo`].
pub struct InfoModel {
    pub base_exec_prefix: Seq<char>,
    pub base_prefix: Seq<char>,
    pub major: nat,
    pub minor: nat,
    pub python_version: Seq<char>,
}

impl View for InterpreterInfo {
    type V = InfoModel;

    open spec fn view(&self) -> InfoModel {
        InfoModel {
            base_exec_prefix: self.base_exec_prefix@,
            base_prefix: self.base_prefix@,
            major: self.major as nat,
            minor: self.minor as nat,
            python_version: self.python_version@,
        }
    }
}

impl InterpreterInfo {
    /// A copy with the same contents.
    pub fn duplicate(&self) -> (r: InterpreterInfo)
        ensures
            r@ == self@,
    {
        InterpreterInfo {
            base_exec_prefix: self.base_exec_prefix.clone(),
            base_prefix: self.base_prefix.clone(),
            major: self.major,
            minor: self.minor,
            python_version: self.python_version.clone(),
        }
    }
}

/// A stored report: the interpreter it is about, the modification time of
/// that interpreter's file in milliseconds when it was probed, and the report.
#[derive(Clone, Debug)]
pub struct CacheEntry {
    pub interpreter: String,
    pub modified: u128,
    pub interpreter_info: InterpreterInfo,
}

/// What to do after looking at the cache file of an interpreter.
pub enum CacheDecision {
    /// The stored report is current: use it and run nothing.
    Hit(InterpreterInfo),
    /// Probe the interpreter and store a new entry; `remove_broken` says that
    /// the cache file could not be read and is to be deleted first.
    Probe { remove_broken: bool },
}

/// How a cache file read went: absent, unreadable, or read.
pub enum CacheRead {
    Missing,
    Broken(String),
    Found(CacheEntry),
}

/// Whether `read` holds a current report for the interpreter at `interpreter`
/// whose file has the modification time `modified`.
pub open spec fn is_cache_hit(read: CacheRead, interpreter: Seq<char>, modified: u128) -> bool {
    match read {
        CacheRead::Found(e) => e.modified == modified && e.interpreter@ == interpreter,
        _ => false,
    }
}

/// Decides between the stored report and a fresh probe. A stored entry is
/// used only when both its path and its modification time equal the current
/// ones; an unreadable file is to be removed, then the interpreter probed.
pub fn check_cache_entry(read: CacheRead, interpreter: &str, modified: u128) -> (r: CacheDecision)
    ensures
        (r is Hit) == is_cache_hit(read, interpreter@, modified),
        r matches CacheDecision::Hit(info) ==> read matches CacheRead::Found(e) && info@
            == e.interpreter_info@,
        r matches CacheDecision::Probe { remove_broken } ==> remove_broken == (read is Broken),
{
    match read {
        CacheRead::Missing => CacheDecision::Probe { remove_broken: false },
        CacheRead::Broken(_) => CacheDecision::Probe { remove_broken: true },
        CacheRead::Found(entry) => {
            if entry.modified == modified && str_eq(entry.interpreter.as_str(), interpreter) {
                CacheDecision::Hit(entry.interpreter_info)
            } else {
                CacheDecision::Probe { remove_broken: false }
            }
        },
    }
}

/// The entry stored after probing `interpreter`.
pub fn new_cache_entry(interpreter: &str, modified: u128, info: &InterpreterInfo) -> (r: CacheEntry)
    ensures
        r.interpreter@ == interpreter@,
        r.modified == modified,
        r.interpreter_info@ == info@,
{
    CacheEntry { interpreter: String::from_str(interpreter), modified, interpreter_info: info.duplicate() }
}

/// The 64-bit SeaHash of a byte string.
pub uninterp spec fn seahash_of(bytes: Seq<u8>) -> u64;

/// Relies on `seahash::hash`: a fixed function of the bytes.
#[verifier::external_body]
fn seahash_bytes(bytes: &[u8]) -> (r: u64)
    ensures
        r == seahash_of(bytes@),
{
    seahash::hash(bytes)
}

/// The name of the cache file for the path hash `index`.
pub open spec fn cache_file_name_of(index: u64) -> Seq<char> {
    decimal(index as nat) + ".json"@
}

/// The name of the cache file for the path hash `index`: the hash in decimal
/// with a `.json` extension.
pub fn cache_file_name(index: u64) -> (r: String)
    ensures
        r@ == cache_file_name_of(index),
{
    let mut s = decimal_string(index);
    s.append(".json");
    s
}

/// The cache file of `interpreter` in the directory `cache_dir`, which holds
/// the interpreter reports of this tool.
pub fn cache_file_path(cache_dir: &str, interpreter: &str) -> (r: String)
    ensures
        r@ == path_join(
            path_join(cache_dir@, "interpreter_info"@),
            cache_file_name_of(seahash_of(interpreter.spec_bytes())),
        ),
{
    let dir = join(cache_dir, "interpreter_info");
    let index = seahash_bytes(interpreter.as_bytes());
    let name = cache_file_name(index);
    join(dir.as_str(), name.as_str())
}

/// The text `String::from_utf8_lossy` makes of a byte string.
pub uninterp spec fn lossy_text(bytes: Seq<u8>) -> Seq<char>;

/// `str::trim` of a text: without leading and trailing white space.
pub uninterp spec fn trimmed(s: Seq<char>) -> Seq<char>;

/// Relies on `String::from_utf8_lossy`: decodes UTF-8, putting U+FFFD in
/// place of each invalid sequence; never fails.
#[verifier::external_body]
fn decode_lossy(bytes: &[u8]) -> (r: String)
    ensures
        r@ == lossy_text(bytes@),
{
    String::from_utf8_lossy(bytes).into_owned()
}

/// Relies on `str::trim`: the text without leading and trailing white space.
#[verifier::external_body]
fn trim(s: &str) -> (r: &str)
    ensures
        r@ == trimmed(s@),
{
    s.trim()
}

/// Why an interpreter's report was refused.
pub enum ProbeError {
    /// It exited with a failure, or wrote to its error stream; both streams
    /// are kept, trimmed, for the message.
    Failed { stdout: String, stderr: String },
}

/// Whether a probe failed, from its exit status and its trimmed error stream.
pub fn probe_failed(success: bool, trimmed_stderr: &str) -> (r: bool)
    ensures
        r == (!success || trimmed_stderr@.len() > 0),
{
    !success || trimmed_stderr.unicode_len() > 0
}

/// Checks what a probe of an interpreter produced. The probe succeeded when
/// the process exited with success and wrote nothing but white space to its
/// error stream; then its standard output, decoded, is returned. Invalid UTF-8
/// never fails the check: it is decoded with replacement characters.
pub fn check_probe_output(success: bool, stdout: &[u8], stderr: &[u8]) -> (r: Result<String, ProbeError>)
    ensures
        r is Err <==> (!success || trimmed(lossy_text(stderr@)).len() > 0),
        r matches Ok(out) ==> out@ == lossy_text(stdout@),
        r matches Err(ProbeError::Failed { stdout: o, stderr: e }) ==> o@ == trimmed(lossy_text(stdout@))
            && e@ == trimmed(lossy_text(stderr@)),
{
    let out = decode_lossy(stdout);
    let err = decode_lossy(stderr);
    let err_trimmed = trim(err.as_str());
    if probe_failed(success, err_trimmed) {
        let out_trimmed = trim(out.as_str());
        Err(ProbeError::Failed { stdout: String::from_str(out_trimmed), stderr: String::from_str(err_trimmed) })
    } else {
        Ok(out)
    }
}

/// An entry stored after a probe is used, without a new probe, while the
/// interpreter's file keeps its modification time; once that changes, it is
/// probed again.
pub proof fn lemma_cache_hit_until_touched(
    interpreter: &str,
    modified: u128,
    info: InterpreterInfo,
    stored: CacheEntry,
    now: u128,
)
    requires
        stored.interpreter@ == interpreter@,
        stored.modified == modified,
        stored.interpreter_info@ == info@,
    ensures
        now == modified ==> is_cache_hit(CacheRead::Found(stored), interpreter@, now),
        now != modified ==> !is_cache_hit(CacheRead::Found(stored), interpreter@, now),
{
}

/// A cache file that cannot be read never fails the lookup: it is to be
/// removed and the interpreter probed; the entry then written is used by the
/// next lookup.
pub proof fn lemma_broken_cache_recovers(
    garbage: String,
    interpreter: &str,
    modified: u128,
    written: CacheEntry,
)
    requires
        written.interpreter@ == interpreter@,
        written.modified == modified,
    ensures
        !is_cache_hit(CacheRead::Broken(garbage), interpreter@, modified),
        is_cache_hit(CacheRead::Found(written), interpreter@, modified),
{
}

} // verus!
