//! Environment-driven configuration: every knob is read from a named
//! variable by the unverified shell and interpreted here, with documented
//! defaults. Absent or invalid values fall back silently, except for the
//! target application directory, whose absence is a configuration error
//! naming the expected path.

use vstd::prelude::*;
use vstd::string::StrSliceExecFns;
use vstd::string::StringExecFns;
use crate::text::{ci_eq_seq, concat3, eq_ci, trim_spec, trim_str};

verus! {

/// Whether a configuration flag value counts as enabled: its trimmed value
/// is `1`, `true`, `yes` or `on`, compared case-insensitively.
pub open spec fn truthy_spec(s: Seq<char>) -> bool {
    ||| ci_eq_seq(trim_spec(s), "1"@)
    ||| ci_eq_seq(trim_spec(s), "true"@)
    ||| ci_eq_seq(trim_spec(s), "yes"@)
    ||| ci_eq_seq(trim_spec(s), "on"@)
}

/// Whether a flag value counts as enabled.
pub fn is_truthy(raw: &str) -> (r: bool)
    ensures
        r == truthy_spec(raw@),
{
    let t = trim_str(raw);
    eq_ci(t, "1") || eq_ci(t, "true") || eq_ci(t, "yes") || eq_ci(t, "on")
}

/// Whether the in-app git pull is enabled by policy. The flag defaults to
/// disabled when the variable is absent.
pub fn allow_git_pull_in_app(raw: Option<&String>) -> (r: bool)
    ensures
        r == match raw {
            Some(s) => truthy_spec(s@),
            None => false,
        },
{
    match raw {
        Some(s) => is_truthy(s.as_str()),
        None => false,
    }
}

/// The host to bind, defaulting to `127.0.0.1`.
pub fn resolve_host(raw: Option<String>) -> (r: String)
    ensures
        r@ == match raw {
            Some(s) => s@,
            None => "127.0.0.1"@,
        },
{
    match raw {
        Some(s) => s,
        None => String::from_str("127.0.0.1"),
    }
}

/// The install-mode setting, defaulting to `auto`.
pub fn resolve_install_mode(raw: Option<String>) -> (r: String)
    ensures
        r@ == match raw {
            Some(s) => s@,
            None => "auto"@,
        },
{
    match raw {
        Some(s) => s,
        None => String::from_str("auto"),
    }
}

/// The package-manager mode setting, defaulting to `install`.
pub fn resolve_npm_mode(raw: Option<String>) -> (r: String)
    ensures
        r@ == match raw {
            Some(s) => s@,
            None => "install"@,
        },
{
    match raw {
        Some(s) => s,
        None => String::from_str("install"),
    }
}

/// The character-sync source URL, defaulting to the fixed fallback link.
pub fn resolve_character_sync_url(raw: Option<String>) -> (r: String)
    ensures
        r@ == match raw {
            Some(s) => s@,
            None => "https://mega.nz/folder/J5ARwZRI#2hnLHnLjXXNk3GGve7fjlw"@,
        },
{
    match raw {
        Some(s) => s,
        None => String::from_str("https://mega.nz/folder/J5ARwZRI#2hnLHnLjXXNk3GGve7fjlw"),
    }
}

/// The external update-script hint: kept only when present and non-blank.
pub fn update_script_hint(raw: Option<String>) -> (r: Option<String>)
    ensures
        match raw {
            Some(s) => if trim_spec(s@).len() > 0 {
                r matches Some(h) && h@ == s@
            } else {
                r is None
            },
            None => r is None,
        },
{
    match raw {
        Some(s) => {
            if trim_str(s.as_str()).unicode_len() > 0 {
                Some(s)
            } else {
                None
            }
        },
        None => None,
    }
}

/// The directory of the target application, defaulting to the vendored
/// checkout; a missing directory is a configuration error naming the
/// expected path.
pub fn silly_dir(raw: Option<String>, dir_exists: bool) -> (r: Result<String, String>)
    ensures
        ({
            let path = match raw {
                Some(s) => s@,
                None => "./vendor/WeylandTavern/SillyTavern"@,
            };
            if dir_exists {
                r matches Ok(p) && p@ == path
            } else {
                r matches Err(m) && m@ == "SILLYTAVERN_DIR does not exist at "@ + path
                    + ". Set SILLYTAVERN_DIR in .env"@
            }
        }),
{
    let path = match raw {
        Some(s) => s,
        None => String::from_str("./vendor/WeylandTavern/SillyTavern"),
    };
    if dir_exists {
        Ok(path)
    } else {
        Err(
            concat3(
                "SILLYTAVERN_DIR does not exist at ",
                path.as_str(),
                ". Set SILLYTAVERN_DIR in .env",
            ),
        )
    }
}

/// A path separator, on either platform convention.
pub open spec fn is_sep_char(c: char) -> bool {
    c == '/' || c == '\\'
}

fn sep_char(c: char) -> (r: bool)
    ensures
        r == is_sep_char(c),
{
    c == '/' || c == '\\'
}

/// The sequence with trailing path separators removed.
pub open spec fn strip_seps_spec(s: Seq<char>) -> Seq<char>
    decreases s.len(),
{
    if s.len() > 0 && is_sep_char(s[s.len() - 1]) {
        strip_seps_spec(s.drop_last())
    } else {
        s
    }
}

/// The index of the last path separator in `s`, or `-1` when there is none.
pub open spec fn last_sep_idx(s: Seq<char>) -> int
    decreases s.len(),
{
    if s.len() == 0 {
        -1
    } else if is_sep_char(s[s.len() - 1]) {
        s.len() - 1
    } else {
        last_sep_idx(s.drop_last())
    }
}

/// The parent directory of a path given as a string: trailing separators are
/// ignored, the last component is dropped, and a path whose only component
/// is the root keeps its leading separator. A path without separators has no
/// parent.
pub open spec fn parent_dir_spec(s: Seq<char>) -> Option<Seq<char>> {
    let t = strip_seps_spec(s);
    let k = last_sep_idx(t);
    if k < 0 {
        None
    } else {
        let p = strip_seps_spec(t.subrange(0, k));
        if p.len() == 0 {
            Some(t.subrange(0, 1))
        } else {
            Some(p)
        }
    }
}

proof fn lemma_strip_seps_range(s: Seq<char>, j: int)
    requires
        0 <= j <= s.len(),
        forall|k: int| j <= k < s.len() ==> is_sep_char(s[k]),
        j > 0 ==> !is_sep_char(s[j - 1]),
    ensures
        strip_seps_spec(s) == s.subrange(0, j),
    decreases s.len() - j,
{
    if j == s.len() {
        assert(strip_seps_spec(s) =~= s.subrange(0, j));
    } else {
        let t = s.drop_last();
        assert(is_sep_char(s[s.len() - 1]));
        assert(forall|k: int| j <= k < t.len() ==> is_sep_char(t[k]));
        lemma_strip_seps_range(t, j);
        assert(t.subrange(0, j) =~= s.subrange(0, j));
    }
}

proof fn lemma_last_sep_at(s: Seq<char>, k: int)
    requires
        0 <= k <= s.len(),
        forall|i: int| k <= i < s.len() ==> !is_sep_char(s[i]),
        k > 0 ==> is_sep_char(s[k - 1]),
    ensures
        last_sep_idx(s) == k - 1,
    decreases s.len(),
{
    if s.len() == 0 {
    } else if is_sep_char(s[s.len() - 1]) {
        assert(k == s.len());
    } else {
        let t = s.drop_last();
        assert(k < s.len());
        assert(forall|i: int| k <= i < t.len() ==> !is_sep_char(t[i]));
        lemma_last_sep_at(t, k);
    }
}

/// The directory that holds the target application's checkout: the parent of
/// the target application directory.
pub fn vendor_dir(silly: &str) -> (r: Result<String, String>)
    ensures
        match parent_dir_spec(silly@) {
            Some(p) => r matches Ok(d) && d@ == p,
            None => r matches Err(m) && m@ == "Unable to determine vendor directory"@,
        },
{
    let len = silly.unicode_len();
    let mut j1: usize = len;
    while j1 > 0 && sep_char(silly.get_char(j1 - 1))
        invariant
            0 <= j1 <= len,
            len == silly@.len(),
            forall|k: int| j1 <= k < len ==> is_sep_char(silly@[k]),
        decreases j1,
    {
        j1 = j1 - 1;
    }
    proof {
        lemma_strip_seps_range(silly@, j1 as int);
    }
    let ghost t = silly@.subrange(0, j1 as int);
    let mut k: usize = j1;
    while k > 0 && !sep_char(silly.get_char(k - 1))
        invariant
            0 <= k <= j1,
            j1 <= len,
            len == silly@.len(),
            forall|i: int| k <= i < j1 ==> !is_sep_char(silly@[i]),
        decreases k,
    {
        k = k - 1;
    }
    proof {
        assert(forall|i: int| k <= i < t.len() ==> t[i] == silly@[i]);
        if k > 0 {
            assert(t[k - 1] == silly@[k - 1]);
        }
        lemma_last_sep_at(t, k as int);
    }
    if k == 0 {
        return Err(String::from_str("Unable to determine vendor directory"));
    }
    let mut j2: usize = k - 1;
    while j2 > 0 && sep_char(silly.get_char(j2 - 1))
        invariant
            0 <= j2 <= k - 1,
            k <= j1 <= len,
            len == silly@.len(),
            forall|i: int| j2 <= i < k - 1 ==> is_sep_char(silly@[i]),
        decreases j2,
    {
        j2 = j2 - 1;
    }
    proof {
        let sub2 = t.subrange(0, k - 1);
        assert(forall|i: int| 0 <= i < sub2.len() ==> sub2[i] == silly@[i]);
        lemma_strip_seps_range(sub2, j2 as int);
        assert(sub2.subrange(0, j2 as int) =~= silly@.subrange(0, j2 as int));
    }
    if j2 == 0 {
        proof {
            assert(t.subrange(0, 1) =~= silly@.subrange(0, 1));
        }
        Ok(String::from_str(silly.substring_char(0, 1)))
    } else {
        Ok(String::from_str(silly.substring_char(0, j2)))
    }
}

} // verus!
