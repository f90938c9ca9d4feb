use vstd::prelude::*;
use vstd::string::StringExecFns;
use crate::config::Config;
use crate::text::{concat2, decimal, decimal_string, texts};

verus! {

/// What the diagnosis of the setup found of the cache of issues.
pub enum CacheStatus {
    Missing,
    Broken,
    Items(usize),
}

/// The line that reports whether `fzf`, which interactive selection needs,
/// is installed.
pub open spec fn fzf_line(fzf_found: bool) -> Seq<char> {
    if fzf_found {
        "fzf: found"@
    } else {
        "fzf: not found (needed for interactive selection)"@
    }
}

/// The lines that report the settings, the cache and the dependencies,
/// after the line that names the configuration file.
pub open spec fn doctor_text(config: Option<Config>, cache: CacheStatus, fzf_found: bool) -> Seq<
    Seq<char>,
> {
    let settings = match config {
        Some(c) => seq![
            "Token: "@ + (if c.token@.len() == 0 {
                "not set"@
            } else {
                "set"@
            }),
            "Jira URL: "@ + c.jira_url@,
            "Default Project: "@ + c.default_project@,
            "Issue Type: "@ + c.issue_type@,
        ],
        None => seq!["Config: not found"@],
    };
    let cache_line = match cache {
        CacheStatus::Items(n) => "Cache items: "@ + decimal(n as nat),
        CacheStatus::Broken => "Cache items: broken cache"@,
        CacheStatus::Missing => "Cache: no cache"@,
    };
    settings.push(cache_line).push(fzf_line(fzf_found))
}

/// The report of the diagnosis of the setup: the settings, the cache and
/// whether `fzf` was found.
pub fn doctor_lines(config: Option<&Config>, cache: CacheStatus, fzf_found: bool) -> (res: Vec<
    String,
>)
    ensures
        texts(res@) == doctor_text(
            match config {
                Some(c) => Some(*c),
                None => None,
            },
            cache,
            fzf_found,
        ),
{
    let mut out: Vec<String> = Vec::new();
    match config {
        Some(c) => {
            if c.token.as_str().is_empty() {
                out.push(concat2("Token: ", "not set"));
            } else {
                out.push(concat2("Token: ", "set"));
            }
            out.push(concat2("Jira URL: ", c.jira_url.as_str()));
            out.push(concat2("Default Project: ", c.default_project.as_str()));
            out.push(concat2("Issue Type: ", c.issue_type.as_str()));
        },
        None => {
            out.push(String::from_str("Config: not found"));
        },
    }
    let line = match cache {
        CacheStatus::Items(n) => {
            let num = decimal_string(n);
            concat2("Cache items: ", num.as_str())
        },
        CacheStatus::Broken => String::from_str("Cache items: broken cache"),
        CacheStatus::Missing => String::from_str("Cache: no cache"),
    };
    out.push(line);
    if fzf_found {
        out.push(String::from_str("fzf: found"));
    } else {
        out.push(String::from_str("fzf: not found (needed for interactive selection)"));
    }
    assert(texts(out@) =~= doctor_text(
        match config {
            Some(c) => Some(*c),
            None => None,
        },
        cache,
        fzf_found,
    ));
    out
}

} // verus!
