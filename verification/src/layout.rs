//! The fixed layout of one provisioning run: the pinned runtime version, the
//! names and relative paths inside the environment directory, the argument
//! lists of the external tools, and the environment variables the sidecar is
//! started with. Everything here is a constant of the engine's rules, stated
//! exactly so that the surrounding process code cannot drift from it.

use vstd::prelude::*;
use vstd::string::StringExecFns;
use vstd::string::StringSliceAdditionalSpecFns;

verus! {

/// The exact runtime version this build provisions.
pub fn runtime_version() -> (r: &'static str)
    ensures
        r@ == "3.11.5"@,
{
    "3.11.5"
}

/// The name of the per-user environment directory under the home directory.
pub fn env_dir_name() -> (r: &'static str)
    ensures
        r@ == ".kiara-app"@,
{
    ".kiara-app"
}

/// The absolute path of the environment directory for a given home
/// directory.
pub fn env_dir_path(home: &str) -> (r: String)
    ensures
        r@ == home@ + "/.kiara-app"@,
{
    home.to_owned().concat("/.kiara-app")
}

/// The runtime binary's path relative to the environment directory.
pub fn runtime_binary_rel_path() -> (r: &'static str)
    ensures
        r@ == "python/bin/python"@,
{
    "python/bin/python"
}

/// The argument that asks the runtime for its version.
pub fn runtime_version_query_arg() -> (r: &'static str)
    ensures
        r@ == "--version"@,
{
    "--version"
}

/// The name of the dependency-list file, in the bundle and in the
/// environment directory alike.
pub fn dependency_list_name() -> (r: &'static str)
    ensures
        r@ == "requirements.txt"@,
{
    "requirements.txt"
}

/// The path of a bundled resource relative to the application's resource
/// bundle root.
pub fn resource_rel_path(name: &str) -> (r: String)
    ensures
        r@ == "resources/"@ + name@,
{
    "resources/".to_owned().concat(name)
}

/// The resources staged into the environment directory on a (re)install: the
/// lock file, the environment manifest, the runtime-version marker and the
/// dependency list, each copied under its own name.
pub fn staged_resource_names() -> (r: Vec<&'static str>)
    ensures
        r@.len() == 4,
        r@[0]@ == "pixi.lock"@,
        r@[1]@ == "pixi.toml"@,
        r@[2]@ == "3.11.5"@,
        r@[3]@ == "requirements.txt"@,
{
    let mut r: Vec<&'static str> = Vec::new();
    r.push("pixi.lock");
    r.push("pixi.toml");
    r.push(runtime_version());
    r.push("requirements.txt");
    r
}

/// The environment manager's arguments for its install step.
pub fn env_install_args() -> (r: Vec<&'static str>)
    ensures
        r@.len() == 1,
        r@[0]@ == "install"@,
{
    let mut r: Vec<&'static str> = Vec::new();
    r.push("install");
    r
}

/// The environment manager's arguments for the runtime build step.
pub fn compile_runtime_args() -> (r: Vec<&'static str>)
    ensures
        r@.len() == 2,
        r@[0]@ == "run"@,
        r@[1]@ == "compile-python"@,
{
    let mut r: Vec<&'static str> = Vec::new();
    r.push("run");
    r.push("compile-python");
    r
}

/// The installed runtime's arguments for the dependency install step: its
/// package installer, fed the staged dependency list.
pub fn deps_install_args() -> (r: Vec<&'static str>)
    ensures
        r@.len() == 5,
        r@[0]@ == "-m"@,
        r@[1]@ == "pip"@,
        r@[2]@ == "install"@,
        r@[3]@ == "-r"@,
        r@[4]@ == "requirements.txt"@,
{
    let mut r: Vec<&'static str> = Vec::new();
    r.push("-m");
    r.push("pip");
    r.push("install");
    r.push("-r");
    r.push("requirements.txt");
    r
}

/// The name of the sidecar program.
pub fn sidecar_program_name() -> (r: &'static str)
    ensures
        r@ == "kiara-tauri"@,
{
    "kiara-tauri"
}

/// The environment variables the sidecar is started with, both pointing
/// into the provisioned directory: the dynamic-library search path at the
/// runtime's library directory, and the module search path at the runtime
/// directory itself.
pub fn sidecar_env_vars(env_dir: &str) -> (r: Vec<(String, String)>)
    ensures
        r@.len() == 2,
        r@[0].0@ == "DYLD_LIBRARY_PATH"@,
        r@[0].1@ == env_dir@ + "/python/lib"@,
        r@[1].0@ == "PYTHONPATH"@,
        r@[1].1@ == env_dir@ + "/python"@,
{
    let mut r: Vec<(String, String)> = Vec::new();
    r.push(("DYLD_LIBRARY_PATH".to_owned(), env_dir.to_owned().concat("/python/lib")));
    r.push(("PYTHONPATH".to_owned(), env_dir.to_owned().concat("/python")));
    r
}

/// The exact line the version probe must print for the runtime to count as
/// current: the runtime's name, a space, and the version.
pub fn expected_runtime_line(version: &str) -> (r: Vec<u8>)
    ensures
        r@ == "Python ".spec_bytes() + version.spec_bytes(),
{
    let prefix: &[u8] = "Python ".as_bytes();
    let rest: &[u8] = version.as_bytes();
    let mut r: Vec<u8> = vstd::slice::slice_to_vec(prefix);
    let mut k: usize = 0;
    while k < rest.len()
        invariant
            0 <= k <= rest@.len(),
            r@ == "Python ".spec_bytes() + rest@.subrange(0, k as int),
            rest@ == version.spec_bytes(),
        decreases rest@.len() - k,
    {
        r.push(*vstd::slice::slice_index_get(rest, k));
        proof {
            assert(r@ =~= "Python ".spec_bytes() + rest@.subrange(0, k + 1));
        }
        k += 1;
    }
    proof {
        assert(rest@.subrange(0, rest@.len() as int) =~= rest@);
    }
    r
}

} // verus!
