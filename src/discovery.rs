//! Finding plugin libraries in a directory, the default plugin directory,
//! and the registration pass that fills the registry.
use vstd::prelude::*;
use crate::loader::LoadError;
use crate::registry::{registered_all, PluginDescriptor, PluginRegistry};

verus! {

/// The platform the host was built for; it decides the library extension
/// and the default plugin directory.
#[derive(Clone, Copy, Debug, PartialEq, Eq, Structural)]
pub enum Platform {
    Linux,
    MacOs,
    Windows,
}

/// The file extension of dynamic libraries on a platform.
pub open spec fn library_extension(p: Platform) -> Seq<char> {
    match p {
        Platform::Linux => seq!['s', 'o'],
        Platform::MacOs => seq!['d', 'y', 'l', 'i', 'b'],
        Platform::Windows => seq!['d', 'l', 'l'],
    }
}

/// The path separator of a platform.
pub open spec fn separator(p: Platform) -> char {
    match p {
        Platform::Windows => '\\',
        _ => '/',
    }
}

/// Whether `c` ends a path component on platform `p`.
pub open spec fn is_separator(p: Platform, c: char) -> bool {
    c == '/' || (p == Platform::Windows && c == '\\')
}

/// `base` with `part` appended as a further component: no separator is
/// added after an empty base or one that already ends in a separator.
pub open spec fn joined(p: Platform, base: Seq<char>, part: Seq<char>) -> Seq<char> {
    if base.len() == 0 || is_separator(p, base.last()) {
        base + part
    } else {
        base + seq![separator(p)] + part
    }
}

/// `i` is the position of the last dot in `name`, and not its first
/// character.
pub open spec fn last_inner_dot(name: Seq<char>, i: int) -> bool {
    0 < i < name.len() && name[i] == '.' && forall|j: int| i < j < name.len() ==> name[j] != '.'
}

/// The extension of a file name: what follows its last dot, where that dot
/// is not the name's first character and the name is not `..`.
pub open spec fn extension_of(name: Seq<char>) -> Option<Seq<char>> {
    if name == seq!['.', '.'] {
        None
    } else if exists|i: int| last_inner_dot(name, i) {
        let i = choose|i: int| last_inner_dot(name, i);
        Some(name.subrange(i + 1, name.len() as int))
    } else {
        None
    }
}

/// Whether a file of this name is a plugin candidate on platform `p`.
pub open spec fn is_candidate(p: Platform, name: Seq<char>) -> bool {
    extension_of(name) == Some(library_extension(p))
}

/// The paths in `dir` of the candidates among `names`, in their order.
pub open spec fn candidate_paths(p: Platform, dir: Seq<char>, names: Seq<Seq<char>>) -> Seq<Seq<char>>
    decreases names.len(),
{
    if names.len() == 0 {
        Seq::empty()
    } else {
        let rest = candidate_paths(p, dir, names.drop_last());
        if is_candidate(p, names.last()) {
            rest.push(joined(p, dir, names.last()))
        } else {
            rest
        }
    }
}

/// Appends `part` to `base` as a path component.
pub fn join_path(p: Platform, base: &str, part: &str) -> (r: String)
    ensures
        r@ == joined(p, base@, part@),
{
    let mut out = base.to_string();
    let n = base.unicode_len();
    if n > 0 {
        let c = base.get_char(n - 1);
        let at_separator = c == '/' || (p == Platform::Windows && c == '\\');
        if !at_separator {
            match p {
                Platform::Windows => out.append("\\"),
                _ => out.append("/"),
            }
            proof {
                reveal_strlit("\\");
                reveal_strlit("/");
            }
        }
    }
    out.append(part);
    out
}

/// The extension of a file name, as `Path::extension` reads it.
pub fn file_extension(name: &str) -> (r: Option<String>)
    ensures
        r is None <==> extension_of(name@) is None,
        r matches Some(e) ==> extension_of(name@) == Some(e@),
{
    let n = name.unicode_len();
    if n == 2 {
        let c0 = name.get_char(0);
        let c1 = name.get_char(1);
        if c0 == '.' && c1 == '.' {
            assert(name@ =~= seq!['.', '.']);
            return None;
        }
        assert(name@ != seq!['.', '.']) by {
            if name@ == seq!['.', '.'] {
                assert(seq!['.', '.'][0] == '.' && seq!['.', '.'][1] == '.');
            }
        }
    }
    assert(name@ != seq!['.', '.']) by {
        if name@ == seq!['.', '.'] {
            assert(seq!['.', '.'].len() == 2);
        }
    }
    let mut i: usize = n;
    while i > 1
        invariant
            n == name@.len(),
            i <= n,
            name@ != seq!['.', '.'],
            forall|j: int| i <= j < n ==> name@[j] != '.',
        decreases i,
    {
        if name.get_char(i - 1) == '.' {
            let ext = name.substring_char(i, n).to_string();
            proof {
                let k = (i - 1) as int;
                assert(last_inner_dot(name@, k));
                let c = choose|c: int| last_inner_dot(name@, c);
                if c < k {
                    assert(name@[k] != '.');
                } else if c > k {
                    assert(name@[c] != '.');
                }
            }
            return Some(ext);
        }
        i = i - 1;
    }
    assert forall|c: int| !last_inner_dot(name@, c) by {
        if last_inner_dot(name@, c) && c >= i {
            assert(name@[c] != '.');
        }
    }
    None
}

/// The pass that looks for plugin libraries in one directory.
pub struct PluginManager {
    plugin_dir: String,
}

impl PluginManager {
    /// The directory this manager looks in.
    pub closed spec fn dir(&self) -> Seq<char> {
        self.plugin_dir@
    }

    /// A manager for the plugins in `plugin_dir`.
    pub fn new(plugin_dir: String) -> (r: Self)
        ensures
            r.dir() == plugin_dir@,
    {
        PluginManager { plugin_dir }
    }

    /// The directory this manager looks in.
    pub fn plugin_dir(&self) -> (r: &String)
        ensures
            r@ == self.dir(),
    {
        &self.plugin_dir
    }

    /// Whether a file of this name is a plugin candidate: its extension is
    /// the platform's library extension. The contents are not inspected.
    pub fn is_valid_plugin(&self, file_name: &str, platform: Platform) -> (r: bool)
        ensures
            r == is_candidate(platform, file_name@),
    {
        match file_extension(file_name) {
            None => false,
            Some(e) => {
                let mut expected = String::new();
                match platform {
                    Platform::Linux => expected.append("so"),
                    Platform::MacOs => expected.append("dylib"),
                    Platform::Windows => expected.append("dll"),
                }
                proof {
                    reveal_strlit("so");
                    reveal_strlit("dylib");
                    reveal_strlit("dll");
                    assert(expected@ =~= library_extension(platform));
                }
                e == expected
            },
        }
    }

    /// Splits a comma-joined command advertisement into the commands it
    /// names.
    pub fn extract_meta_commands(&self, text: &str) -> (r: Vec<String>)
        ensures
            crate::text::text_set(r@) == crate::text::advertised_commands(text@),
            crate::text::distinct_texts(r@),
    {
        crate::text::split_commands(text)
    }

    /// The paths of the plugin candidates among the entries of the
    /// directory, given by file name, in the order given.
    pub fn candidates(&self, file_names: &Vec<String>, platform: Platform) -> (r: Vec<String>)
        ensures
            r@.map_values(|s: String| s@) == candidate_paths(
                platform,
                self.dir(),
                file_names@.map_values(|s: String| s@),
            ),
    {
        let ghost names = file_names@.map_values(|s: String| s@);
        let mut out: Vec<String> = Vec::new();
        let mut i: usize = 0;
        while i < file_names.len()
            invariant
                i <= file_names@.len(),
                names == file_names@.map_values(|s: String| s@),
                out@.map_values(|s: String| s@) == candidate_paths(
                    platform,
                    self.dir(),
                    names.take(i as int),
                ),
            decreases file_names@.len() - i,
        {
            proof {
                assert(names.take(i as int + 1).drop_last() =~= names.take(i as int));
                assert(names.take(i as int + 1).last() == file_names@[i as int]@);
            }
            if self.is_valid_plugin(file_names[i].as_str(), platform) {
                let path = join_path(platform, self.plugin_dir.as_str(), file_names[i].as_str());
                let ghost before = out@;
                out.push(path);
                assert(out@.map_values(|s: String| s@) =~= before.map_values(|s: String| s@).push(
                    path@,
                ));
            }
            i = i + 1;
        }
        assert(names.take(file_names@.len() as int) =~= names);
        out
    }
}

/// The environment values that decide where plugins are looked for; each
/// is `None` where the variable is not set.
pub struct DataDirEnv {
    /// `XDG_DATA_HOME`, which overrides the data root on Unix-like systems.
    pub xdg_data_home: Option<String>,
    /// `HOME`.
    pub home: Option<String>,
    /// `LOCALAPPDATA`, the data root on Windows.
    pub local_app_data: Option<String>,
    /// `USERPROFILE`.
    pub user_profile: Option<String>,
}

/// The text of a variable, empty where it is not set.
pub open spec fn var_text(v: Option<String>) -> Seq<char> {
    match v {
        Some(s) => s@,
        None => Seq::empty(),
    }
}

/// The user data root on Unix-like systems: `XDG_DATA_HOME`, or else
/// `.local/share` under the home directory.
pub open spec fn xdg_data_root(env: DataDirEnv) -> Seq<char> {
    match env.xdg_data_home {
        Some(x) => x@,
        None => joined(
            Platform::Linux,
            joined(Platform::Linux, var_text(env.home), ".local"@),
            "share"@,
        ),
    }
}

/// The directory plugins are looked for in by default.
pub open spec fn default_dir(p: Platform, env: DataDirEnv) -> Seq<char> {
    match p {
        Platform::Windows => {
            let root = match env.local_app_data {
                Some(l) => l@,
                None => joined(
                    p,
                    joined(p, var_text(env.user_profile), "AppData"@),
                    "Local"@,
                ),
            };
            joined(p, joined(p, root, "psqlx"@), "plugins"@)
        },
        _ => joined(p, joined(p, xdg_data_root(env), "psqlx"@), "plugins"@),
    }
}

fn var_or_empty(v: &Option<String>) -> (r: String)
    ensures
        r@ == var_text(*v),
{
    match v {
        Some(s) => s.clone(),
        None => String::new(),
    }
}

/// The user data root on Unix-like systems.
pub fn xdg_data_dir(env: &DataDirEnv) -> (r: String)
    ensures
        r@ == xdg_data_root(*env),
{
    match &env.xdg_data_home {
        Some(x) => x.clone(),
        None => {
            let home = var_or_empty(&env.home);
            let local = join_path(Platform::Linux, home.as_str(), ".local");
            join_path(Platform::Linux, local.as_str(), "share")
        },
    }
}

/// The directory plugins are looked for in by default on platform `p`.
pub fn default_plugin_dir(p: Platform, env: &DataDirEnv) -> (r: String)
    ensures
        r@ == default_dir(p, *env),
{
    let root = match p {
        Platform::Windows => match &env.local_app_data {
            Some(l) => l.clone(),
            None => {
                let profile = var_or_empty(&env.user_profile);
                let app_data = join_path(p, profile.as_str(), "AppData");
                join_path(p, app_data.as_str(), "Local")
            },
        },
        _ => xdg_data_dir(env),
    };
    let app = join_path(p, root.as_str(), "psqlx");
    join_path(p, app.as_str(), "plugins")
}

/// Why the discovery pass over the plugin directory failed as a whole.
#[derive(Debug, PartialEq, Eq)]
pub enum DiscoveryError {
    /// The directory did not exist and could not be created.
    CreateDir { path: String, reason: String },
    /// The directory's entries could not be listed.
    ReadDir { path: String, reason: String },
}

/// The descriptors among load results, in order.
pub open spec fn loaded<H>(rs: Seq<Result<PluginDescriptor<H>, LoadError>>) -> Seq<PluginDescriptor<H>>
    decreases rs.len(),
{
    if rs.len() == 0 {
        Seq::empty()
    } else {
        match rs.last() {
            Ok(d) => loaded(rs.drop_last()).push(d),
            Err(_) => loaded(rs.drop_last()),
        }
    }
}

/// The errors among load results, in order.
pub open spec fn failures<H>(rs: Seq<Result<PluginDescriptor<H>, LoadError>>) -> Seq<LoadError>
    decreases rs.len(),
{
    if rs.len() == 0 {
        Seq::empty()
    } else {
        match rs.last() {
            Ok(_) => failures(rs.drop_last()),
            Err(e) => failures(rs.drop_last()).push(e),
        }
    }
}

/// Registers each of `plugins` in turn.
pub fn load_embedded_plugins<H>(registry: &mut PluginRegistry<H>, plugins: Vec<PluginDescriptor<H>>)
    requires
        old(registry).wf(),
    ensures
        final(registry).wf(),
        final(registry).view() == registered_all(old(registry).view(), plugins@),
{
    let mut plugins = plugins;
    let ghost all = plugins@;
    let ghost start = registry.view();
    while plugins.len() > 0
        invariant
            registry.wf(),
            plugins@.len() <= all.len(),
            plugins@ == all.subrange(all.len() - plugins@.len(), all.len() as int),
            registry.view() == registered_all(start, all.take(all.len() - plugins@.len())),
        decreases plugins@.len(),
    {
        let ghost k = all.len() - plugins@.len();
        let d = plugins.remove(0);
        proof {
            assert(all[k] == d);
            assert(all.take(k + 1).drop_last() =~= all.take(k));
            assert(plugins@ =~= all.subrange(k + 1, all.len() as int));
        }
        registry.insert(d);
    }
    assert(all.take(all.len() as int) =~= all);
}

/// Registers what the loader made of each candidate, in order. A candidate
/// that failed to load is skipped and does not stop the others; its error is
/// returned.
pub fn load_plugins<H>(
    registry: &mut PluginRegistry<H>,
    results: Vec<Result<PluginDescriptor<H>, LoadError>>,
) -> (r: Vec<LoadError>)
    requires
        old(registry).wf(),
    ensures
        final(registry).wf(),
        final(registry).view() == registered_all(old(registry).view(), loaded(results@)),
        r@ == failures(results@),
{
    let mut results = results;
    let ghost all = results@;
    let ghost start = registry.view();
    let mut skipped: Vec<LoadError> = Vec::new();
    while results.len() > 0
        invariant
            registry.wf(),
            results@.len() <= all.len(),
            results@ == all.subrange(all.len() - results@.len(), all.len() as int),
            registry.view() == registered_all(start, loaded(all.take(all.len() - results@.len()))),
            skipped@ == failures(all.take(all.len() - results@.len())),
        decreases results@.len(),
    {
        let ghost k = all.len() - results@.len();
        let res = results.remove(0);
        proof {
            assert(all[k] == res);
            assert(all.take(k + 1).drop_last() =~= all.take(k));
            assert(results@ =~= all.subrange(k + 1, all.len() as int));
        }
        match res {
            Ok(d) => {
                proof {
                    let l = loaded(all.take(k));
                    assert(l.push(d).drop_last() =~= l);
                }
                registry.insert(d);
            },
            Err(e) => {
                skipped.push(e);
            },
        }
    }
    assert(all.take(all.len() as int) =~= all);
    skipped
}

/// The registration pass run once per process: the embedded plugins first,
/// then every plugin that discovery loaded. Where discovery failed as a whole
/// its error is returned; otherwise the errors of the candidates that were
/// skipped.
pub fn initialize_plugins<H>(
    registry: &mut PluginRegistry<H>,
    embedded: Vec<PluginDescriptor<H>>,
    discovered: Result<Vec<Result<PluginDescriptor<H>, LoadError>>, DiscoveryError>,
) -> (r: Result<Vec<LoadError>, DiscoveryError>)
    requires
        old(registry).wf(),
    ensures
        final(registry).wf(),
        match discovered {
            Err(e) => {
                &&& r == Err::<Vec<LoadError>, DiscoveryError>(e)
                &&& final(registry).view() == registered_all(old(registry).view(), embedded@)
            },
            Ok(rs) => {
                &&& r matches Ok(skipped) && skipped@ == failures(rs@)
                &&& final(registry).view() == registered_all(
                    registered_all(old(registry).view(), embedded@),
                    loaded(rs@),
                )
            },
        },
{
    load_embedded_plugins(registry, embedded);
    match discovered {
        Err(e) => Err(e),
        Ok(rs) => Ok(load_plugins(registry, rs)),
    }
}

} // verus!
