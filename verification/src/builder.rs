//! The manifest reader and the build stages' decision logic: reading the
//! project manifest, deriving the runtime identifier, detecting the package
//! manager, planning the dependency install and build-script subprocesses,
//! and planning the archive contents.
//!
//! Everything here is a pure function from plain values to plain values;
//! callers probe the filesystem and run the planned subprocesses, then hand
//! the outcomes back.

use vstd::prelude::*;
use vstd::string::{StrSliceExecFns, StringExecFns};
use crate::error::{AetherError, StageError};
use crate::utils::{dec_of, str_eq, u64_to_string};

verus! {

/// The `engines` block of a manifest: the declared runtime version, if any.
pub struct Engines {
    pub node: Option<String>,
}


/// The project manifest, as read from the manifest file: the fields the
/// pipeline consumes. `name` is required; a manifest without it, or whose
/// fields are not of these shapes, is malformed.
pub struct PackageJson {
    pub name: String,
    pub version: Option<String>,
    pub scripts: Vec<(String, String)>,
    pub engines: Engines,
}

/// What `parse_package_json` returns for a given manifest text: `None` for
/// text that is not valid JSON or does not fit the manifest schema, and the
/// extracted manifest otherwise.
pub uninterp spec fn package_json_of(text: Seq<char>) -> Option<PackageJson>;

/// Relies on `serde_json::from_str` (and the `Value` accessors `get`,
/// `as_str` and `as_object`) to parse the manifest text. The schema: a JSON
/// object with a required string `name` and an optional `scripts` object
/// whose values must all be strings — anything else is malformed; an
/// optional `version` or `engines.node` entry counts only where it is a
/// string. The result depends on the text alone.
#[verifier::external_body]
fn parse_package_json(text: &str) -> (r: Option<PackageJson>)
    ensures
        r == package_json_of(text@),
{
    let v: serde_json::Value = serde_json::from_str(text).ok()?;
    let name = v.get("name")?.as_str()?.to_owned();
    let version = v.get("version").and_then(|x| x.as_str()).map(str::to_owned);
    let node = v.get("engines").and_then(|e| e.get("node")).and_then(|x| x.as_str()).map(str::to_owned);
    let mut scripts: Vec<(String, String)> = Vec::new();
    if let Some(m) = v.get("scripts") {
        for (k, x) in m.as_object()? {
            scripts.push((k.clone(), x.as_str()?.to_owned()));
        }
    }
    Some(PackageJson { name, version, scripts, engines: Engines { node } })
}

/// Reads the manifest handed in by the caller: `None` stands for an absent
/// manifest file, `Some` for its text.
pub fn read_manifest(text: Option<&str>) -> (r: Result<PackageJson, StageError>)
    ensures
        match r {
            Ok(pj) => text matches Some(t) && package_json_of(t@) == Some(pj),
            Err(e) => (text is None && e == StageError::MissingManifest) || (text matches Some(t)
                && package_json_of(t@) is None && e == StageError::MalformedManifest),
        },
{
    match text {
        None => Err(StageError::MissingManifest),
        Some(t) => match parse_package_json(t) {
            None => Err(StageError::MalformedManifest),
            Some(pj) => Ok(pj),
        },
    }
}

/// A project rooted at a directory, with its manifest already read.
pub struct ProjectBuilder {
    pub project_path: String,
    pub package_json: PackageJson,
}

/// The declared runtime version of a manifest: `engines.node`, with "20"
/// as the default wherever it is absent.
pub open spec fn spec_node_version(pj: PackageJson) -> Seq<char> {
    match pj.engines.node {
        Some(n) => n@,
        None => "20"@,
    }
}

/// The declared version of a manifest, with the fixed default.
pub open spec fn spec_version(pj: PackageJson) -> Seq<char> {
    match pj.version {
        Some(v) => v@,
        None => "1.0.0"@,
    }
}

pub open spec fn is_digit_char(c: char) -> bool {
    48 <= c as u32 && c as u32 <= 57
}

/// How many leading characters of `s` are ASCII digits.
pub open spec fn digits_prefix_len(s: Seq<char>) -> nat
    decreases s.len(),
{
    if s.len() == 0 || !is_digit_char(s[0]) {
        0
    } else {
        1 + digits_prefix_len(s.drop_first())
    }
}

/// The numeric value of a sequence of digit characters, most significant
/// first.
pub open spec fn digits_value(s: Seq<char>) -> int
    decreases s.len(),
{
    if s.len() == 0 {
        0
    } else {
        digits_value(s.drop_last()) * 10 + (s.last() as u32 - 48)
    }
}

/// The runtime identifier derived from a declared version string: the
/// numeric major version behind a fixed family prefix, or the fixed
/// default where the string has no digits prefix or its value does not fit.
pub open spec fn spec_runtime_identifier(node_version: Seq<char>) -> Seq<char> {
    let k = digits_prefix_len(node_version);
    let v = digits_value(node_version.take(k as int));
    if k == 0 || v > u32::MAX {
        "node:20"@
    } else {
        "node:"@ + dec_of(v as nat)
    }
}

/// The law of runtime derivation: a version string beginning with digits
/// whose value fits yields the family prefix and that major number; one
/// with no digits prefix yields the fixed default.
pub proof fn lemma_runtime_identifier_derivation(s: Seq<char>)
    ensures
        digits_prefix_len(s) > 0 && digits_value(s.take(digits_prefix_len(s) as int)) <= u32::MAX
            ==> spec_runtime_identifier(s) == "node:"@ + dec_of(
            digits_value(s.take(digits_prefix_len(s) as int)) as nat,
        ),
        digits_prefix_len(s) == 0 ==> spec_runtime_identifier(s) == "node:20"@,
{
}

proof fn lemma_digits_prefix_len_is(s: Seq<char>, k: nat)
    requires
        k <= s.len(),
        forall|j: int| 0 <= j < k ==> is_digit_char(#[trigger] s[j]),
        k == s.len() || !is_digit_char(s[k as int]),
    ensures
        digits_prefix_len(s) == k,
    decreases k,
{
    if k == 0 {
    } else {
        assert(is_digit_char(s[0]));
        let t = s.drop_first();
        assert(forall|j: int| 0 <= j < k - 1 ==> #[trigger] t[j] == s[j + 1]);
        lemma_digits_prefix_len_is(t, (k - 1) as nat);
    }
}

/// The value of a digit string never shrinks as more digits follow.
proof fn lemma_digits_value_extend(s: Seq<char>, i: int, k: int)
    requires
        0 <= i <= k <= s.len(),
        forall|j: int| 0 <= j < k ==> is_digit_char(#[trigger] s[j]),
    ensures
        0 <= digits_value(s.take(i)),
        digits_value(s.take(i)) <= digits_value(s.take(k)),
    decreases k - i,
{
    if i == k {
        lemma_digits_value_nonneg(s.take(i));
    } else {
        lemma_digits_value_extend(s, i + 1, k);
        let u = s.take(i + 1);
        assert(u.drop_last() =~= s.take(i));
        lemma_digits_value_nonneg(s.take(i));
        assert(digits_value(u) == digits_value(s.take(i)) * 10 + (s[i] as u32 - 48));
    }
}

proof fn lemma_digits_value_nonneg(s: Seq<char>)
    requires
        forall|j: int| 0 <= j < s.len() ==> is_digit_char(#[trigger] s[j]),
    ensures
        digits_value(s) >= 0,
    decreases s.len(),
{
    if s.len() > 0 {
        let t = s.drop_last();
        assert(forall|j: int| 0 <= j < t.len() ==> #[trigger] t[j] == s[j]);
        lemma_digits_value_nonneg(t);
    }
}

/// Parses the numeric major version from the front of a version string:
/// `None` where no digits lead it or where the value does not fit.
fn parse_major(s: &str) -> (r: Option<u32>)
    ensures
        match r {
            Some(v) => digits_prefix_len(s@) > 0 && digits_value(
                s@.take(digits_prefix_len(s@) as int),
            ) == v as int,
            None => digits_prefix_len(s@) == 0 || digits_value(
                s@.take(digits_prefix_len(s@) as int),
            ) > u32::MAX,
        },
{
    let n = s.unicode_len();
    let mut k: usize = 0;
    loop
        invariant
            n == s@.len(),
            k <= n,
            forall|j: int| 0 <= j < k ==> is_digit_char(#[trigger] s@[j]),
        ensures
            k <= n,
            forall|j: int| 0 <= j < k ==> is_digit_char(#[trigger] s@[j]),
            k == n || !is_digit_char(s@[k as int]),
        decreases n - k,
    {
        if k >= n {
            break ;
        }
        let c = s.get_char(k);
        let u = c as u32;
        if !(48 <= u && u <= 57) {
            break ;
        }
        k = k + 1;
    }
    proof {
        lemma_digits_prefix_len_is(s@, k as nat);
    }
    if k == 0 {
        return None;
    }
    let mut i: usize = 0;
    let mut val: u32 = 0;
    while i < k
        invariant
            n == s@.len(),
            0 < k <= n,
            i <= k,
            digits_prefix_len(s@) == k,
            forall|j: int| 0 <= j < k ==> is_digit_char(#[trigger] s@[j]),
            val as int == digits_value(s@.take(i as int)),
        decreases k - i,
    {
        let c = s.get_char(i);
        let d: u32 = c as u32 - 48;
        proof {
            assert(is_digit_char(s@[i as int]));
        }
        let wide: u64 = (val as u64) * 10 + (d as u64);
        proof {
            let u = s@.take(i + 1);
            assert(u.drop_last() =~= s@.take(i as int));
            assert(wide as int == digits_value(s@.take(i + 1)));
        }
        if wide > 0xffffffffu64 {
            proof {
                lemma_digits_value_extend(s@, i + 1, k as int);
            }
            return None;
        }
        val = wide as u32;
        i = i + 1;
    }
    Some(val)
}

impl ProjectBuilder {
    /// Builds the project handle from the directory path and the manifest
    /// text, if a manifest file was found there.
    pub fn new(project_path: String, manifest_text: Option<&str>) -> (r: Result<
        ProjectBuilder,
        AetherError,
    >)
        ensures
            match r {
                Ok(b) => manifest_text matches Some(t) && package_json_of(t@) == Some(
                    b.package_json,
                ) && b.project_path == project_path,
                Err(e) => (manifest_text is None && (e matches AetherError::InvalidProject(m) && m@
                    == "No package.json found in project directory"@)) || (manifest_text matches Some(
                    t,
                ) && package_json_of(t@) is None && (e matches AetherError::Serialization(_))),
            },
    {
        match read_manifest(manifest_text) {
            Ok(pj) => Ok(ProjectBuilder { project_path, package_json: pj }),
            Err(StageError::MissingManifest) => Err(
                AetherError::invalid_project("No package.json found in project directory".to_owned()),
            ),
            Err(_) => Err(
                AetherError::Serialization("manifest does not fit the package schema".to_owned()),
            ),
        }
    }

    pub fn get_app_name(&self) -> (r: &String)
        ensures
            r@ == self.package_json.name@,
    {
        &self.package_json.name
    }

    /// The declared version, or the fixed default where none is declared.
    pub fn get_version(&self) -> (r: String)
        ensures
            r@ == spec_version(self.package_json),
    {
        match &self.package_json.version {
            Some(v) => v.clone(),
            None => "1.0.0".to_owned(),
        }
    }

    /// The declared runtime version, or the fixed default.
    pub fn get_node_version(&self) -> (r: String)
        ensures
            r@ == spec_node_version(self.package_json),
    {
        match &self.package_json.engines.node {
            Some(v) => v.clone(),
            None => "20".to_owned(),
        }
    }

    /// Derives the runtime identifier from the declared runtime version:
    /// the digits prefix as the major version, or the fixed default where
    /// there is none.
    pub fn detect_runtime(&self) -> (r: String)
        ensures
            r@ == spec_runtime_identifier(spec_node_version(self.package_json)),
    {
        let nv = self.get_node_version();
        match parse_major(nv.as_str()) {
            Some(major) => {
                let mut s = String::from_str("node:");
                s.append(u64_to_string(major as u64).as_str());
                proof {
                    assert(s@ =~= spec_runtime_identifier(spec_node_version(self.package_json)));
                }
                s
            },
            None => "node:20".to_owned(),
        }
    }

    pub fn get_project_path(&self) -> (r: &String)
        ensures
            r@ == self.project_path@,
    {
        &self.project_path
    }

    pub fn get_package_json(&self) -> (r: &PackageJson)
        ensures
            r == &self.package_json,
    {
        &self.package_json
    }

    /// Selects the package manager by the lock files present, first match
    /// in a fixed precedence order, with the default manager last.
    pub fn detect_package_manager(p: &ProjectPresence) -> (r: PackageManager)
        ensures
            r == spec_detect_manager(*p),
    {
        if p.has_yarn_lock {
            PackageManager::Yarn
        } else if p.has_pnpm_lock {
            PackageManager::Pnpm
        } else {
            PackageManager::Npm
        }
    }
}

/// Which conventionally named files and directories are present in the
/// project directory; the caller probes the filesystem once and fills this.
#[derive(Clone, Copy)]
pub struct ProjectPresence {
    pub has_package_lock: bool,
    pub has_yarn_lock: bool,
    pub has_pnpm_lock: bool,
    pub has_node_modules: bool,
    pub has_src: bool,
    pub has_lib: bool,
    pub has_dist: bool,
    pub has_build: bool,
    pub has_public: bool,
    pub has_views: bool,
    pub has_index_js: bool,
    pub has_server_js: bool,
    pub has_app_js: bool,
    pub has_main_js: bool,
    pub has_env_example: bool,
}

/// The closed set of supported package managers.
#[derive(Clone, Copy, PartialEq, Eq, Structural, Debug)]
pub enum PackageManager {
    Npm,
    Yarn,
    Pnpm,
}

pub open spec fn spec_detect_manager(p: ProjectPresence) -> PackageManager {
    if p.has_yarn_lock {
        PackageManager::Yarn
    } else if p.has_pnpm_lock {
        PackageManager::Pnpm
    } else {
        PackageManager::Npm
    }
}

/// A subprocess the caller is asked to run in the project directory.
pub struct CommandSpec {
    pub program: String,
    pub args: Vec<String>,
}

pub open spec fn manager_program(m: PackageManager) -> Seq<char> {
    match m {
        PackageManager::Npm => "npm"@,
        PackageManager::Yarn => "yarn"@,
        PackageManager::Pnpm => "pnpm"@,
    }
}

/// The production-only install arguments of each manager.
pub open spec fn manager_install_args(m: PackageManager) -> Seq<Seq<char>> {
    match m {
        PackageManager::Pnpm => seq!["install"@, "--prod"@],
        _ => seq!["install"@, "--production"@],
    }
}

/// The arguments that run a named script under each manager.
pub open spec fn manager_run_args(m: PackageManager, script: Seq<char>) -> Seq<Seq<char>> {
    seq!["run"@, script]
}

/// Whether an ensure-dependencies run invokes the package manager: only
/// when the dependency cache is not already populated.
pub open spec fn install_runs(cache_populated: bool) -> bool {
    !cache_populated
}

/// Whether the dependency cache is populated after an ensure-dependencies
/// run: it stays populated, and a successful install populates it.
pub open spec fn cache_populated_after(cache_populated: bool, install_ok: bool) -> bool {
    cache_populated || (install_runs(cache_populated) && install_ok)
}

/// Ensuring dependencies is idempotent: a run on a populated cache plans
/// no subprocess at all, and after a run whose install succeeded the next
/// run plans none either — so two consecutive runs on a directory whose
/// cache ends up populated invoke the package manager at most once, and on
/// an already-populated cache not at all.
pub proof fn lemma_ensure_dependencies_idempotent(cache_populated: bool)
    ensures
        cache_populated ==> !install_runs(cache_populated),
        !install_runs(cache_populated_after(cache_populated, true)),
{
}

/// Plans the dependency install: a no-op where the dependency cache is
/// already populated, otherwise the detected manager's production install
/// command.
pub fn ensure_dependencies_plan(cache_populated: bool, p: &ProjectPresence) -> (r: Option<
    CommandSpec,
>)
    ensures
        r is Some == install_runs(cache_populated),
        r matches Some(c) ==> c.program@ == manager_program(spec_detect_manager(*p))
            && c.args.deep_view() == manager_install_args(spec_detect_manager(*p)),
{
    if cache_populated {
        None
    } else {
        let m = ProjectBuilder::detect_package_manager(p);
        let program: String = match m {
            PackageManager::Npm => "npm".to_owned(),
            PackageManager::Yarn => "yarn".to_owned(),
            PackageManager::Pnpm => "pnpm".to_owned(),
        };
        let mut args: Vec<String> = Vec::new();
        args.push("install".to_owned());
        if matches!(m, PackageManager::Pnpm) {
            args.push("--prod".to_owned());
        } else {
            args.push("--production".to_owned());
        }
        proof {
            assert(args.deep_view() =~= manager_install_args(spec_detect_manager(*p)));
        }
        Some(CommandSpec { program, args })
    }
}

/// Turns the install subprocess outcome into the stage result, carrying
/// the subprocess diagnostics on failure.
pub fn interpret_install_result(exit_ok: bool, stderr: String) -> (r: Result<(), StageError>)
    ensures
        exit_ok ==> r is Ok,
        !exit_ok ==> r == Result::<(), StageError>::Err(
            StageError::DependencyInstallFailed { stderr },
        ),
{
    if exit_ok {
        Ok(())
    } else {
        Err(StageError::DependencyInstallFailed { stderr })
    }
}

/// Whether an association list holds a key.
pub open spec fn spec_has_key(m: Seq<(Seq<char>, Seq<char>)>, k: Seq<char>) -> bool {
    exists|i: int| 0 <= i < m.len() && (#[trigger] m[i]).0 == k
}

fn scripts_contain(pairs: &Vec<(String, String)>, key: &str) -> (r: bool)
    ensures
        r == spec_has_key(pairs.deep_view(), key@),
{
    let ghost m = pairs.deep_view();
    let mut i: usize = 0;
    while i < pairs.len()
        invariant
            i <= pairs@.len(),
            m == pairs.deep_view(),
            m.len() == pairs@.len(),
            forall|j: int| 0 <= j < pairs@.len() ==> (#[trigger] m[j]).0 == pairs@[j].0@,
            forall|j: int| 0 <= j < i ==> (#[trigger] m[j]).0 != key@,
        decreases pairs@.len() - i,
    {
        if str_eq(pairs[i].0.as_str(), key) {
            proof {
                assert((m[i as int]).0 == key@);
            }
            return true;
        }
        i = i + 1;
    }
    false
}

/// The first defined script among the fixed candidate names, in order.
pub open spec fn spec_selected_script(pj: PackageJson) -> Option<Seq<char>> {
    let m = pj.scripts.deep_view();
    if spec_has_key(m, "build"@) {
        Some("build"@)
    } else if spec_has_key(m, "compile"@) {
        Some("compile"@)
    } else if spec_has_key(m, "prepare"@) {
        Some("prepare"@)
    } else {
        None
    }
}

/// Plans the build script run: a no-op success where no candidate script
/// is defined, otherwise the manager's run command for the first defined
/// candidate.
pub fn run_build_script_plan(pj: &PackageJson, p: &ProjectPresence) -> (r: Option<CommandSpec>)
    ensures
        r is Some == spec_selected_script(*pj) is Some,
        r matches Some(c) ==> spec_selected_script(*pj) matches Some(script) && c.program@
            == manager_program(spec_detect_manager(*p)) && c.args.deep_view() == manager_run_args(
            spec_detect_manager(*p),
            script,
        ),
{
    let scripts = &pj.scripts;
    let selected: &'static str = if scripts_contain(scripts, "build") {
        "build"
    } else if scripts_contain(scripts, "compile") {
        "compile"
    } else if scripts_contain(scripts, "prepare") {
        "prepare"
    } else {
        return None;
    };
    let m = ProjectBuilder::detect_package_manager(p);
    let program: String = match m {
        PackageManager::Npm => "npm".to_owned(),
        PackageManager::Yarn => "yarn".to_owned(),
        PackageManager::Pnpm => "pnpm".to_owned(),
    };
    let mut args: Vec<String> = Vec::new();
    args.push("run".to_owned());
    args.push(selected.to_owned());
    proof {
        assert(args.deep_view() =~= manager_run_args(
            spec_detect_manager(*p),
            spec_selected_script(*pj).unwrap(),
        ));
    }
    Some(CommandSpec { program, args })
}

/// One planned archive entry: a single file or a whole directory tree,
/// named by its path relative to the project root.
pub enum ArchiveEntry {
    File(String),
    Dir(String),
}

/// The mathematical form of an archive entry.
pub enum EntryV {
    File(Seq<char>),
    Dir(Seq<char>),
}

impl View for ArchiveEntry {
    type V = EntryV;

    open spec fn view(&self) -> EntryV {
        match self {
            ArchiveEntry::File(s) => EntryV::File(s@),
            ArchiveEntry::Dir(s) => EntryV::Dir(s@),
        }
    }
}

pub open spec fn entries_view(v: Seq<ArchiveEntry>) -> Seq<EntryV> {
    v.map_values(|e: ArchiveEntry| e@)
}

/// One optional archive entry: present or absent.
pub open spec fn opt_entry(present: bool, e: EntryV) -> Seq<EntryV> {
    if present {
        seq![e]
    } else {
        Seq::<EntryV>::empty()
    }
}

/// The exact archive contents for a project: the manifest file, any lock
/// file variants present, the dependency directory if present, the fixed
/// list of conventional source and output directories present, and the
/// fixed list of conventional entry-point files present — nothing else,
/// in this order.
pub open spec fn spec_archive_entries(p: ProjectPresence) -> Seq<EntryV> {
    seq![EntryV::File("package.json"@)] + opt_entry(
        p.has_package_lock,
        EntryV::File("package-lock.json"@),
    ) + opt_entry(
        p.has_yarn_lock,
        EntryV::File("yarn.lock"@),
    ) + opt_entry(
        p.has_pnpm_lock,
        EntryV::File("pnpm-lock.yaml"@),
    ) + opt_entry(
        p.has_node_modules,
        EntryV::Dir("node_modules"@),
    ) + opt_entry(
        p.has_src,
        EntryV::Dir("src"@),
    ) + opt_entry(
        p.has_lib,
        EntryV::Dir("lib"@),
    ) + opt_entry(
        p.has_dist,
        EntryV::Dir("dist"@),
    ) + opt_entry(
        p.has_build,
        EntryV::Dir("build"@),
    ) + opt_entry(
        p.has_public,
        EntryV::Dir("public"@),
    ) + opt_entry(
        p.has_views,
        EntryV::Dir("views"@),
    ) + opt_entry(
        p.has_index_js,
        EntryV::File("index.js"@),
    ) + opt_entry(
        p.has_server_js,
        EntryV::File("server.js"@),
    ) + opt_entry(
        p.has_app_js,
        EntryV::File("app.js"@),
    ) + opt_entry(
        p.has_main_js,
        EntryV::File("main.js"@),
    ) + opt_entry(
        p.has_env_example,
        EntryV::File(".env.example"@),
    )
}

proof fn lemma_entries_view_push(v: Seq<ArchiveEntry>, e: ArchiveEntry)
    ensures
        entries_view(v.push(e)) == entries_view(v).push(e@),
{
    assert(entries_view(v.push(e)) =~= entries_view(v).push(e@));
}

/// Appends the entry when it is present in the project, so that the planned
/// views grow by exactly `opt_entry(present, ...)`.
fn push_entry(r: &mut Vec<ArchiveEntry>, present: bool, e: ArchiveEntry)
    ensures
        entries_view(final(r)@) == entries_view(old(r)@) + opt_entry(present, e@),
{
    let ghost ev = e@;
    let ghost before = r@;
    if present {
        r.push(e);
        proof {
            lemma_entries_view_push(before, e);
            assert(entries_view(before).push(ev) =~= entries_view(before) + opt_entry(true, ev));
        }
    } else {
        proof {
            assert(entries_view(before) + opt_entry(false, ev) =~= entries_view(before));
        }
    }
}

/// Plans the archive contents for the project as it stands: missing items
/// are silently skipped, never errors, and nothing outside the fixed rules
/// is ever included.
pub fn archive_entries(p: &ProjectPresence) -> (r: Vec<ArchiveEntry>)
    ensures
        entries_view(r@) == spec_archive_entries(*p),
{
    let mut r: Vec<ArchiveEntry> = Vec::new();
    r.push(ArchiveEntry::File("package.json".to_owned()));
    proof {
        assert(entries_view(r@) =~= seq![EntryV::File("package.json"@)]);
    }
    push_entry(&mut r, p.has_package_lock, ArchiveEntry::File("package-lock.json".to_owned()));
    push_entry(&mut r, p.has_yarn_lock, ArchiveEntry::File("yarn.lock".to_owned()));
    push_entry(&mut r, p.has_pnpm_lock, ArchiveEntry::File("pnpm-lock.yaml".to_owned()));
    push_entry(&mut r, p.has_node_modules, ArchiveEntry::Dir("node_modules".to_owned()));
    push_entry(&mut r, p.has_src, ArchiveEntry::Dir("src".to_owned()));
    push_entry(&mut r, p.has_lib, ArchiveEntry::Dir("lib".to_owned()));
    push_entry(&mut r, p.has_dist, ArchiveEntry::Dir("dist".to_owned()));
    push_entry(&mut r, p.has_build, ArchiveEntry::Dir("build".to_owned()));
    push_entry(&mut r, p.has_public, ArchiveEntry::Dir("public".to_owned()));
    push_entry(&mut r, p.has_views, ArchiveEntry::Dir("views".to_owned()));
    push_entry(&mut r, p.has_index_js, ArchiveEntry::File("index.js".to_owned()));
    push_entry(&mut r, p.has_server_js, ArchiveEntry::File("server.js".to_owned()));
    push_entry(&mut r, p.has_app_js, ArchiveEntry::File("app.js".to_owned()));
    push_entry(&mut r, p.has_main_js, ArchiveEntry::File("main.js".to_owned()));
    push_entry(&mut r, p.has_env_example, ArchiveEntry::File(".env.example".to_owned()));
    r
}

/// Packaging is deterministic: two runs over the same project presence
/// plan exactly the same entry names.
pub proof fn lemma_packaging_deterministic(
    p: ProjectPresence,
    e1: Seq<ArchiveEntry>,
    e2: Seq<ArchiveEntry>,
)
    requires
        entries_view(e1) == spec_archive_entries(p),
        entries_view(e2) == spec_archive_entries(p),
    ensures
        entries_view(e1) == entries_view(e2),
{
}

/// Turns the archive-writing outcome into the stage result; on failure the
/// caller has already removed the partially written archive.
pub fn interpret_package_result(io_ok: bool, detail: String) -> (r: Result<(), StageError>)
    ensures
        io_ok ==> r is Ok,
        !io_ok ==> r == Result::<(), StageError>::Err(StageError::PackagingIoFailure { detail }),
{
    if io_ok {
        Ok(())
    } else {
        Err(StageError::PackagingIoFailure { detail })
    }
}

/// Turns the build-script subprocess outcome into the stage result.
pub fn interpret_build_result(exit_ok: bool, stderr: String) -> (r: Result<(), StageError>)
    ensures
        exit_ok ==> r is Ok,
        !exit_ok ==> r == Result::<(), StageError>::Err(StageError::BuildScriptFailed { stderr }),
{
    if exit_ok {
        Ok(())
    } else {
        Err(StageError::BuildScriptFailed { stderr })
    }
}

} // verus!
