//! The character-sync operation: the target application's bundled
//! downloader script is run against a configured source URL, and its exit
//! is classified into a structured response. The unverified shell runs the
//! script; the argument list, the precheck, and the classification are
//! decided here.

use vstd::prelude::*;
use vstd::string::StrSliceExecFns;
use vstd::string::StringExecFns;
use crate::text::{trim_spec, trim_str};
use crate::update::{combined, CmdOutput};

verus! {

/// The structured outcome of one character-sync run.
#[derive(Debug)]
pub struct CharacterResponse {
    pub success: bool,
    pub message: String,
}

/// Refuses a sync without a configured URL: the failure response to hand
/// back, or `None` when the sync may proceed.
pub fn character_sync_precheck(url: &str) -> (r: Option<CharacterResponse>)
    ensures
        trim_spec(url@).len() == 0 ==> (r matches Some(resp) && resp.success == false
            && resp.message@ == "Character sync URL is not configured."@),
        trim_spec(url@).len() > 0 ==> r is None,
{
    if trim_str(url).unicode_len() == 0 {
        Some(
            CharacterResponse {
                success: false,
                message: String::from_str("Character sync URL is not configured."),
            },
        )
    } else {
        None
    }
}

/// The message logged before the downloader runs.
pub fn character_sync_checking_message() -> (r: String)
    ensures
        r@ == "Checking for character updates..."@,
{
    String::from_str("Checking for character updates...")
}

/// The downloader invocation: the bundled script, the source URL, and the
/// update flag.
pub fn character_sync_args(url: &str) -> (r: Vec<String>)
    ensures
        r.deep_view() == seq!["character-downloader.js"@, url@, "-u"@],
{
    let mut r: Vec<String> = Vec::new();
    r.push(String::from_str("character-downloader.js"));
    r.push(String::from_str(url));
    r.push(String::from_str("-u"));
    proof {
        assert(r.deep_view() =~= seq!["character-downloader.js"@, url@, "-u"@]);
    }
    r
}

/// Classifies the downloader's exit: on success the trimmed stdout is
/// forwarded when non-blank; on failure the trimmed combined output is
/// forwarded when non-blank, and the response points at the logs.
pub fn character_sync_outcome(out: &CmdOutput) -> (r: (Option<String>, CharacterResponse))
    ensures
        out.ok ==> (r.1.success == true && r.1.message@ == "Character update completed."@ && (
        if trim_spec(out.stdout@).len() > 0 {
            r.0 matches Some(l) && l@ == trim_spec(out.stdout@)
        } else {
            r.0 is None
        })),
        !out.ok ==> (r.1.success == false && r.1.message@
            == "Character update failed. Check logs for details."@ && (if trim_spec(
            out.stdout@ + out.stderr@,
        ).len() > 0 {
            r.0 matches Some(l) && l@ == trim_spec(out.stdout@ + out.stderr@)
        } else {
            r.0 is None
        })),
{
    if out.ok {
        let so = trim_str(out.stdout.as_str());
        let log = if so.unicode_len() > 0 {
            Some(String::from_str(so))
        } else {
            None
        };
        (
            log,
            CharacterResponse {
                success: true,
                message: String::from_str("Character update completed."),
            },
        )
    } else {
        let all = combined(out);
        let t = trim_str(all.as_str());
        let log = if t.unicode_len() > 0 {
            Some(String::from_str(t))
        } else {
            None
        };
        (
            log,
            CharacterResponse {
                success: false,
                message: String::from_str("Character update failed. Check logs for details."),
            },
        )
    }
}

} // verus!
