use vstd::prelude::*;
use vstd::string::StringExecFns;
use crate::config::Config;
use crate::text::push_char;

verus! {

/// `base` joined with the relative path `part`, as `Path::join` does on a
/// Unix system: a separator goes between them unless `base` is empty or
/// already ends with one.
pub open spec fn joined(base: Seq<char>, part: Seq<char>) -> Seq<char> {
    if base.len() == 0 {
        part
    } else if base.last() == '/' {
        base + part
    } else {
        base + seq!['/'] + part
    }
}

/// `base` joined with the relative path `part`.
pub fn join_path(base: &str, part: &str) -> (res: String)
    ensures
        res@ == joined(base@, part@),
{
    let n = base.unicode_len();
    let mut out = String::from_str(base);
    if n > 0 && base.get_char(n - 1) != '/' {
        push_char(&mut out, '/');
    }
    out.append(part);
    proof {
        if base@.len() > 0 {
            assert(base@.last() == base@[n - 1]);
        }
    }
    out
}

/// The directory of the cached data, under the configuration directory.
pub fn get_cache_dir(config_dir: &str) -> (res: String)
    ensures
        res@ == joined(config_dir@, "cache"@),
{
    join_path(config_dir, "cache")
}

/// The `env` file that holds the settings, in the configuration directory.
pub fn get_env_file(config_dir: &str) -> (res: String)
    ensures
        res@ == joined(config_dir@, "env"@),
{
    join_path(config_dir, "env")
}

/// The file of cached issues.
pub fn get_cache_file(config_dir: &str) -> (res: String)
    ensures
        res@ == joined(joined(config_dir@, "cache"@), "issues.json"@),
{
    let dir = get_cache_dir(config_dir);
    join_path(dir.as_str(), "issues.json")
}

/// The file of the JQL history.
pub fn get_history_file(config_dir: &str) -> (res: String)
    ensures
        res@ == joined(joined(config_dir@, "cache"@), "history.json"@),
{
    let dir = get_cache_dir(config_dir);
    join_path(dir.as_str(), "history.json")
}

impl Config {
    /// The directory of the cached data, under the configuration directory.
    pub fn get_cache_dir(config_dir: &str) -> (res: String)
        ensures
            res@ == joined(config_dir@, "cache"@),
    {
        join_path(config_dir, "cache")
    }
}

} // verus!
