use vstd::prelude::*;

verus! {

/// How the host application was built: from sources, or as a packaged release.
#[derive(Clone, Copy, Debug, PartialEq, Eq, Structural)]
pub enum RunMode {
    Development,
    Production,
}

/// The class of operating system the host runs on.
#[derive(Clone, Copy, Debug, PartialEq, Eq, Structural)]
pub enum Platform {
    Windows,
    Other,
}

/// A filesystem path as its sequence of components (a root, if any, is the
/// first component).
#[derive(Debug)]
pub struct HostPath {
    pub parts: Vec<String>,
}

impl View for HostPath {
    type V = Seq<Seq<char>>;

    open spec fn view(&self) -> Seq<Seq<char>> {
        self.parts@.map_values(|s: String| s@)
    }
}

/// Everything needed to start the worker process.
#[derive(Debug)]
pub struct LaunchSpec {
    pub executable: HostPath,
    pub arguments: Vec<HostPath>,
    pub working_directory: HostPath,
    pub hide_console_window: bool,
}

/// Why no launch spec could be produced.
#[derive(Debug)]
pub enum ResolveError {
    /// The packaged worker binary could not be located; the host's reason.
    ResourceUnavailable(String),
    /// The located binary path has no containing directory.
    NoContainingDirectory,
}

/// The views of the argument paths of a spec.
pub open spec fn argument_views(args: Seq<HostPath>) -> Seq<Seq<Seq<char>>> {
    args.map_values(|p: HostPath| p@)
}

/// File name of the packaged worker binary on a platform.
pub open spec fn binary_name(platform: Platform) -> Seq<char> {
    match platform {
        Platform::Windows => "rag_api_server.exe"@,
        Platform::Other => "rag_api_server"@,
    }
}

/// The interpreter that runs the worker's entry script in development.
pub open spec fn interpreter() -> Seq<char> {
    "python"@
}

/// Name of the directory of the host's own sources inside the project.
pub open spec fn host_source_dir() -> Seq<char> {
    "src-tauri"@
}

/// The project's root: the current directory, or its parent when the current
/// directory is the host's source directory.
pub open spec fn project_root(cwd: Seq<Seq<char>>) -> Seq<Seq<char>> {
    if cwd.len() > 0 && cwd.last() == host_source_dir() {
        cwd.drop_last()
    } else {
        cwd
    }
}

/// The worker's entry script, relative to the project root.
pub open spec fn entry_script(root: Seq<Seq<char>>) -> Seq<Seq<char>> {
    root + seq!["rag"@, "rag_api_server.py"@]
}

/// Whether the console window of the worker is hidden on a platform.
pub open spec fn hides_console(platform: Platform) -> bool {
    platform == Platform::Windows
}

/// The development launch spec, as its parts' views.
pub open spec fn is_development_spec(s: LaunchSpec, platform: Platform, cwd: Seq<Seq<char>>) -> bool {
    &&& s.executable@ == seq![interpreter()]
    &&& argument_views(s.arguments@) == seq![entry_script(project_root(cwd))]
    &&& s.working_directory@ == project_root(cwd)
    &&& s.hide_console_window == hides_console(platform)
}

/// The production launch spec for the located binary `bin`.
pub open spec fn is_production_spec(s: LaunchSpec, platform: Platform, bin: Seq<Seq<char>>) -> bool {
    &&& s.executable@ == bin
    &&& s.arguments@.len() == 0
    &&& s.working_directory@ == bin.drop_last()
    &&& s.hide_console_window == hides_console(platform)
}

/// The outcome owed by a production run for the lookup result `located`.
pub open spec fn is_production_outcome(
    r: Result<LaunchSpec, ResolveError>,
    platform: Platform,
    located: Result<HostPath, String>,
) -> bool {
    match located {
        Err(reason) => match r {
            Err(ResolveError::ResourceUnavailable(m)) => m@ == reason@,
            _ => false,
        },
        Ok(bin) => if bin@.len() < 2 {
            r matches Err(ResolveError::NoContainingDirectory)
        } else {
            match r {
                Ok(s) => is_production_spec(s, platform, bin@),
                Err(_) => false,
            }
        },
    }
}

/// The outcome owed by `resolve`.
pub open spec fn is_resolve_outcome(
    r: Result<LaunchSpec, ResolveError>,
    mode: RunMode,
    platform: Platform,
    cwd: Seq<Seq<char>>,
    located: Result<HostPath, String>,
) -> bool {
    match mode {
        RunMode::Development => match r {
            Ok(s) => is_development_spec(s, platform, cwd),
            Err(_) => false,
        },
        RunMode::Production => is_production_outcome(r, platform, located),
    }
}

/// The file name of the packaged worker binary.
pub fn worker_binary_name(platform: Platform) -> (r: String)
    ensures
        r@ == binary_name(platform),
{
    match platform {
        Platform::Windows => "rag_api_server.exe".to_owned(),
        Platform::Other => "rag_api_server".to_owned(),
    }
}

/// The first `n` components of `p`.
fn path_prefix(p: &HostPath, n: usize) -> (r: HostPath)
    requires
        n <= p@.len(),
    ensures
        r@ == p@.subrange(0, n as int),
{
    let mut parts: Vec<String> = Vec::new();
    let mut i: usize = 0;
    while i < n
        invariant
            n <= p@.len(),
            i <= n,
            parts@.map_values(|s: String| s@) == p@.subrange(0, i as int),
        decreases n - i,
    {
        let part = p.parts[i].clone();
        proof {
            assert(parts@.push(part).map_values(|s: String| s@)
                =~= parts@.map_values(|s: String| s@).push(part@));
            assert(p@.subrange(0, i + 1) =~= p@.subrange(0, i as int).push(p@[i as int]));
        }
        parts.push(part);
        i = i + 1;
    }
    HostPath { parts }
}

/// A copy of `p`.
fn copy_path(p: &HostPath) -> (r: HostPath)
    ensures
        r@ == p@,
{
    let r = path_prefix(p, p.parts.len());
    assert(p@.subrange(0, p@.len() as int) =~= p@);
    r
}

/// The project root for the current directory `cwd`.
pub fn resolve_project_root(cwd: &HostPath) -> (r: HostPath)
    ensures
        r@ == project_root(cwd@),
{
    let n = cwd.parts.len();
    if n > 0 && cwd.parts[n - 1] == "src-tauri".to_owned() {
        let r = path_prefix(cwd, n - 1);
        assert(cwd@.subrange(0, n - 1) =~= cwd@.drop_last());
        r
    } else {
        copy_path(cwd)
    }
}

/// Launch spec for development: the interpreter runs the entry script under
/// the project root, which is also the working directory.
pub fn resolve_development(platform: Platform, cwd: &HostPath) -> (r: LaunchSpec)
    ensures
        is_development_spec(r, platform, cwd@),
{
    let root = resolve_project_root(cwd);
    let mut script = copy_path(&root);
    let ghost root_parts = script.parts@;
    script.parts.push("rag".to_owned());
    script.parts.push("rag_api_server.py".to_owned());
    assert(script@ =~= entry_script(project_root(cwd@)));
    let mut exe: Vec<String> = Vec::new();
    exe.push("python".to_owned());
    let executable = HostPath { parts: exe };
    assert(executable@ =~= seq![interpreter()]);
    let mut arguments: Vec<HostPath> = Vec::new();
    arguments.push(script);
    assert(argument_views(arguments@) =~= seq![entry_script(project_root(cwd@))]);
    LaunchSpec {
        executable,
        arguments,
        working_directory: root,
        hide_console_window: platform == Platform::Windows,
    }
}

/// Launch spec for a packaged release, from the outcome of looking up the
/// worker binary among the host's resources: the binary runs with no
/// arguments in its own directory.
pub fn resolve_production(platform: Platform, located: Result<HostPath, String>) -> (r: Result<LaunchSpec, ResolveError>)
    ensures
        is_production_outcome(r, platform, located),
{
    match located {
        Err(reason) => Err(ResolveError::ResourceUnavailable(reason)),
        Ok(bin) => {
            if bin.parts.len() < 2 {
                Err(ResolveError::NoContainingDirectory)
            } else {
                let dir = path_prefix(&bin, bin.parts.len() - 1);
                assert(bin@.subrange(0, bin@.len() - 1) =~= bin@.drop_last());
                Ok(LaunchSpec {
                    executable: bin,
                    arguments: Vec::new(),
                    working_directory: dir,
                    hide_console_window: platform == Platform::Windows,
                })
            }
        },
    }
}

/// Launch spec for a run mode. `located` is the host's lookup of the packaged
/// binary, which only a production run consults.
pub fn resolve(mode: RunMode, platform: Platform, cwd: &HostPath, located: Result<HostPath, String>) -> (r: Result<LaunchSpec, ResolveError>)
    ensures
        is_resolve_outcome(r, mode, platform, cwd@, located),
{
    match mode {
        RunMode::Development => Ok(resolve_development(platform, cwd)),
        RunMode::Production => resolve_production(platform, located),
    }
}

/// Two resolution outcomes that agree in every part's view.
pub open spec fn same_outcome(r1: Result<LaunchSpec, ResolveError>, r2: Result<LaunchSpec, ResolveError>) -> bool {
    match (r1, r2) {
        (Ok(a), Ok(b)) => {
            &&& a.executable@ == b.executable@
            &&& argument_views(a.arguments@) == argument_views(b.arguments@)
            &&& a.working_directory@ == b.working_directory@
            &&& a.hide_console_window == b.hide_console_window
        },
        (Err(ResolveError::ResourceUnavailable(m1)), Err(ResolveError::ResourceUnavailable(m2))) => m1@ == m2@,
        (Err(ResolveError::NoContainingDirectory), Err(ResolveError::NoContainingDirectory)) => true,
        _ => false,
    }
}

/// Resolving twice from the same inputs gives the same outcome. A resolved
/// spec names a non-empty executable path, and in production a non-empty
/// working directory, the directory that holds the executable.
pub proof fn lemma_resolve_is_deterministic(
    r1: Result<LaunchSpec, ResolveError>,
    r2: Result<LaunchSpec, ResolveError>,
    mode: RunMode,
    platform: Platform,
    cwd: Seq<Seq<char>>,
    located: Result<HostPath, String>,
)
    requires
        is_resolve_outcome(r1, mode, platform, cwd, located),
        is_resolve_outcome(r2, mode, platform, cwd, located),
    ensures
        same_outcome(r1, r2),
        r1 matches Ok(s) ==> s.executable@.len() > 0,
        mode == RunMode::Production ==> (r1 matches Ok(s) ==> s.working_directory@.len() > 0),
{
    if let (Ok(a), Ok(b)) = (r1, r2) {
        if mode == RunMode::Production {
            assert(argument_views(a.arguments@) =~= argument_views(b.arguments@));
        }
    }
}

} // verus!
