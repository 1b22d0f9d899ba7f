//! Locating the external cost tool.
//!
//! The tool is resolved from a short ordered list of OS-conventional
//! install locations, then a PATH lookup; the subprocess also gets a PATH
//! with the same conventional directories prepended. Which list applies is
//! a strategy picked by the target platform; probing the file system and
//! spawning happen outside the library.

use vstd::prelude::*;

use crate::dates::{format_yyyymmdd, spec_sub_days, spec_yyyymmdd, sub_days, valid_date, Date};

verus! {

/// Days of cost report the fetch asks for.
pub const LOOKBACK_DAYS: u32 = 30;

/// The platform whose conventions apply.
#[derive(Debug, Clone, Copy, PartialEq, Eq, Structural)]
pub enum Platform {
    MacOs,
    Windows,
    Linux,
}

/// The candidate executable paths, in probe order.
pub open spec fn spec_candidates(
    platform: Platform,
    home: Seq<char>,
    appdata: Seq<char>,
) -> Seq<Seq<char>> {
    match platform {
        Platform::MacOs => seq![
            home + "/.npm-global/bin/ccusage"@,
            "/opt/homebrew/bin/ccusage"@,
            "/usr/local/bin/ccusage"@,
        ],
        Platform::Windows => seq![
            appdata + "\\npm\\ccusage.cmd"@,
            home + "\\AppData\\Roaming\\npm\\ccusage.cmd"@,
        ],
        Platform::Linux => seq![
            home + "/.npm-global/bin/ccusage"@,
            "/usr/local/bin/ccusage"@,
            "/usr/bin/ccusage"@,
        ],
    }
}

/// The directories prepended to the subprocess PATH, in order.
pub open spec fn spec_extra_dirs(
    platform: Platform,
    home: Seq<char>,
    appdata: Seq<char>,
) -> Seq<Seq<char>> {
    match platform {
        Platform::MacOs => seq![
            home + "/.npm-global/bin"@,
            "/usr/local/bin"@,
            "/opt/homebrew/bin"@,
        ],
        Platform::Windows => seq![appdata + "\\npm"@],
        Platform::Linux => seq![home + "/.npm-global/bin"@, "/usr/local/bin"@, "/usr/bin"@],
    }
}

/// The platform's PATH separator.
pub open spec fn spec_path_sep(platform: Platform) -> Seq<char> {
    match platform {
        Platform::Windows => ";"@,
        _ => ":"@,
    }
}

/// Parts joined by a separator.
pub open spec fn spec_join(parts: Seq<Seq<char>>, sep: Seq<char>) -> Seq<char>
    decreases parts.len(),
{
    if parts.len() == 0 {
        Seq::empty()
    } else if parts.len() == 1 {
        parts[0]
    } else {
        spec_join(parts.drop_last(), sep) + sep + parts.last()
    }
}

/// The candidate executable paths for `platform`, given the home and
/// roaming-app-data directories.
pub fn ccusage_candidates(platform: Platform, home: &str, appdata: &str) -> (r: Vec<String>)
    ensures
        r@.map_values(|s: String| s@) == spec_candidates(platform, home@, appdata@),
{
    let mut v: Vec<String> = Vec::new();
    match platform {
        Platform::MacOs => {
            v.push(String::from_str(home).concat("/.npm-global/bin/ccusage"));
            v.push(String::from_str("/opt/homebrew/bin/ccusage"));
            v.push(String::from_str("/usr/local/bin/ccusage"));
        },
        Platform::Windows => {
            v.push(String::from_str(appdata).concat("\\npm\\ccusage.cmd"));
            v.push(String::from_str(home).concat("\\AppData\\Roaming\\npm\\ccusage.cmd"));
        },
        Platform::Linux => {
            v.push(String::from_str(home).concat("/.npm-global/bin/ccusage"));
            v.push(String::from_str("/usr/local/bin/ccusage"));
            v.push(String::from_str("/usr/bin/ccusage"));
        },
    }
    proof {
        assert(v@.map_values(|s: String| s@) =~= spec_candidates(platform, home@, appdata@));
    }
    v
}

/// The PATH the subprocess gets: the platform's conventional directories,
/// joined by the platform separator, prepended (with one more separator)
/// to the inherited PATH.
pub fn build_path(platform: Platform, home: &str, appdata: &str, current: &str) -> (r: String)
    ensures
        r@ == spec_join(spec_extra_dirs(platform, home@, appdata@), spec_path_sep(platform))
            + spec_path_sep(platform) + current@,
{
    let sep: &str = match platform {
        Platform::Windows => ";",
        _ => ":",
    };
    let mut extra: Vec<String> = Vec::new();
    match platform {
        Platform::MacOs => {
            extra.push(String::from_str(home).concat("/.npm-global/bin"));
            extra.push(String::from_str("/usr/local/bin"));
            extra.push(String::from_str("/opt/homebrew/bin"));
        },
        Platform::Windows => {
            extra.push(String::from_str(appdata).concat("\\npm"));
        },
        Platform::Linux => {
            extra.push(String::from_str(home).concat("/.npm-global/bin"));
            extra.push(String::from_str("/usr/local/bin"));
            extra.push(String::from_str("/usr/bin"));
        },
    }
    proof {
        assert(extra@.map_values(|s: String| s@) =~= spec_extra_dirs(platform, home@, appdata@));
    }
    let ghost parts = extra@.map_values(|s: String| s@);
    let mut joined = String::new();
    let n = extra.len();
    let mut i: usize = 0;
    while i < n
        invariant
            n == extra@.len(),
            i <= n,
            parts == extra@.map_values(|s: String| s@),
            parts.len() == n,
            sep@ == spec_path_sep(platform),
            joined@ == spec_join(parts.take(i as int), sep@),
        decreases n - i,
    {
        proof {
            assert(parts.take(i + 1).drop_last() =~= parts.take(i as int));
            assert(parts.take(i + 1).last() == parts[i as int]);
            assert(parts[i as int] == extra@[i as int]@);
            if i == 0 {
                assert(spec_join(parts.take(1), sep@) == parts[0]);
            }
        }
        if i > 0 {
            joined = joined.concat(sep);
        }
        joined = joined.concat(extra[i].as_str());
        proof {
            assert(joined@ =~= spec_join(parts.take(i + 1), sep@));
        }
        i = i + 1;
    }
    proof {
        assert(parts.take(n as int) =~= parts);
    }
    let r = joined.concat(sep).concat(current);
    r
}

/// The date argument of the cost fetch: the lookback start, thirty days
/// before today, in the tool's `YYYYMMDD` convention.
pub fn since_arg(today: Date) -> (r: String)
    requires
        valid_date(today),
    ensures
        r@ == spec_yyyymmdd(spec_sub_days(today, LOOKBACK_DAYS as nat)),
{
    format_yyyymmdd(sub_days(today, LOOKBACK_DAYS))
}

} // verus!
