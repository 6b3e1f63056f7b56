//! Port negotiation: a port declared in the target application's own
//! environment file wins, then an explicit override, then the first port of
//! a fixed fallback list whose bind probe succeeded. The bind-then-release
//! probe is inherently racy against a concurrent binder; the result is a
//! best-effort check, not a reservation.

use vstd::prelude::*;
use vstd::string::StrSliceExecFns;
use vstd::string::StringExecFns;
use crate::text::{concat3, str_eq, trim_spec, trim_str};

verus! {

/// Whether every character of `s` is a decimal digit.
pub open spec fn all_digits(s: Seq<char>) -> bool {
    forall|k: int| 0 <= k < s.len() ==> '0' <= #[trigger] s[k] && s[k] <= '9'
}

/// The numeric value of a digit sequence read in decimal.
pub open spec fn dec_value(s: Seq<char>) -> int
    decreases s.len(),
{
    if s.len() == 0 {
        0
    } else {
        dec_value(s.drop_last()) * 10 + (s[s.len() - 1] as int - '0' as int)
    }
}

/// The digits of a number token, with one optional leading `+` removed.
pub open spec fn digits_of(s: Seq<char>) -> Seq<char> {
    if s.len() > 0 && s[0] == '+' {
        s.drop_first()
    } else {
        s
    }
}

/// The port named by a configuration value: its trimmed text must be a
/// decimal number (an optional leading `+` is accepted), fit in a port
/// number, and not be zero.
pub open spec fn parse_port_spec(s: Seq<char>) -> Option<u16> {
    let d = digits_of(trim_spec(s));
    if d.len() > 0 && all_digits(d) && 0 < dec_value(d) <= 65535 {
        Some(dec_value(d) as u16)
    } else {
        None
    }
}

proof fn lemma_dec_value_nonneg(s: Seq<char>)
    requires
        all_digits(s),
    ensures
        dec_value(s) >= 0,
    decreases s.len(),
{
    if s.len() > 0 {
        let t = s.drop_last();
        assert(forall|k: int| 0 <= k < t.len() ==> '0' <= #[trigger] t[k] && t[k] <= '9');
        lemma_dec_value_nonneg(t);
    }
}

proof fn lemma_dec_value_prefix(s: Seq<char>, i: int)
    requires
        all_digits(s),
        0 <= i <= s.len(),
    ensures
        dec_value(s) >= dec_value(s.subrange(0, i)),
    decreases s.len() - i,
{
    if i == s.len() {
        assert(s.subrange(0, i) =~= s);
    } else {
        let p = s.subrange(0, i);
        let q = s.subrange(0, i + 1);
        assert(q.drop_last() =~= p);
        assert(forall|k: int| 0 <= k < p.len() ==> '0' <= #[trigger] p[k] && p[k] <= '9');
        lemma_dec_value_nonneg(p);
        assert(dec_value(q) == dec_value(p) * 10 + (q[i] as int - '0' as int));
        assert(dec_value(q) >= dec_value(p));
        lemma_dec_value_prefix(s, i + 1);
    }
}

/// Reads a port number from a configuration value, rejecting zero and
/// non-numeric text.
pub fn parse_port(value: &str) -> (r: Option<u16>)
    ensures
        r == parse_port_spec(value@),
{
    let t = trim_str(value);
    let tlen = t.unicode_len();
    let start: usize = if tlen > 0 && t.get_char(0) == '+' {
        1
    } else {
        0
    };
    let ghost d = digits_of(trim_spec(value@));
    proof {
        assert(d =~= t@.subrange(start as int, tlen as int));
    }
    if start == tlen {
        return None;
    }
    let mut acc: u32 = 0;
    let mut i: usize = start;
    while i < tlen
        invariant
            start <= i <= tlen,
            tlen == t@.len(),
            t@ == trim_spec(value@),
            d == digits_of(trim_spec(value@)),
            d == t@.subrange(start as int, tlen as int),
            forall|k: int| 0 <= k < i - start ==> '0' <= #[trigger] d[k] && d[k] <= '9',
            acc == dec_value(d.subrange(0, i - start)),
            acc <= 65535,
        decreases tlen - i,
    {
        let c = t.get_char(i);
        if c < '0' || c > '9' {
            proof {
                assert(d[i - start] == t@[i as int]);
            }
            return None;
        }
        let dv: u32 = (c as u8 - 48) as u32;
        proof {
            let p = d.subrange(0, i - start);
            let q = d.subrange(0, i + 1 - start);
            assert(q.drop_last() =~= p);
            assert(q[i - start] == t@[i as int]);
        }
        acc = acc * 10 + dv;
        if acc > 65535 {
            proof {
                let ghost q = d.subrange(0, i + 1 - start);
                assert(forall|k: int| 0 <= k < q.len() ==> '0' <= #[trigger] q[k] && q[k] <= '9');
                if all_digits(d) {
                    lemma_dec_value_prefix(d, i + 1 - start);
                }
            }
            return None;
        }
        i = i + 1;
    }
    proof {
        assert(d.subrange(0, tlen - start) =~= d);
        assert(all_digits(d));
    }
    if acc == 0 {
        None
    } else {
        Some(acc as u16)
    }
}

/// The ordered fallback list of candidate ports.
pub fn fallback_ports() -> (r: Vec<u16>)
    ensures
        r@ == seq![8000u16, 8080u16, 3000u16, 5173u16],
{
    let mut r: Vec<u16> = Vec::new();
    r.push(8000);
    r.push(8080);
    r.push(3000);
    r.push(5173);
    proof {
        assert(r@ =~= seq![8000u16, 8080u16, 3000u16, 5173u16]);
    }
    r
}

/// The last entry under `key` whose value names a valid port, if any.
pub open spec fn last_valid_port(entries: Seq<(String, String)>, key: Seq<char>) -> Option<u16>
    decreases entries.len(),
{
    if entries.len() == 0 {
        None
    } else if entries.last().0@ == key && parse_port_spec(entries.last().1@) is Some {
        parse_port_spec(entries.last().1@)
    } else {
        last_valid_port(entries.drop_last(), key)
    }
}

/// The port declared by a list of environment-file entries: the `PORT` key
/// wins over the `ST_PORT` alias, and for each key the last valid
/// declaration counts.
pub open spec fn env_port_spec(entries: Seq<(String, String)>) -> Option<u16> {
    match last_valid_port(entries, "PORT"@) {
        Some(p) => Some(p),
        None => last_valid_port(entries, "ST_PORT"@),
    }
}

/// Picks the port declared by parsed environment-file entries.
pub fn select_env_port(entries: &Vec<(String, String)>) -> (r: Option<u16>)
    ensures
        r == env_port_spec(entries@),
{
    let n = entries.len();
    let mut port: Option<u16> = None;
    let mut st_port: Option<u16> = None;
    proof {
        assert(entries@.subrange(0, 0) =~= Seq::<(String, String)>::empty());
    }
    let mut i: usize = 0;
    while i < n
        invariant
            0 <= i <= n,
            n == entries@.len(),
            port == last_valid_port(entries@.subrange(0, i as int), "PORT"@),
            st_port == last_valid_port(entries@.subrange(0, i as int), "ST_PORT"@),
        decreases n - i,
    {
        let ghost pre = entries@.subrange(0, i as int);
        let ghost post = entries@.subrange(0, i + 1);
        proof {
            assert(post.drop_last() =~= pre);
            assert(post.last() == entries@[i as int]);
        }
        proof {
            reveal_strlit("PORT");
            reveal_strlit("ST_PORT");
            assert("PORT"@.len() != "ST_PORT"@.len());
        }
        let entry = &entries[i];
        if str_eq(entry.0.as_str(), "PORT") {
            if let Some(p) = parse_port(entry.1.as_str()) {
                port = Some(p);
            }
        } else if str_eq(entry.0.as_str(), "ST_PORT") {
            if let Some(p) = parse_port(entry.1.as_str()) {
                st_port = Some(p);
            }
        }
        i = i + 1;
    }
    proof {
        assert(entries@.subrange(0, n as int) =~= entries@);
    }
    match port {
        Some(p) => Some(p),
        None => st_port,
    }
}

/// Relies on dotenvy's dotenv-format parser (`from_read_iter` over the raw
/// bytes): yields the file's key/value entries in order, or the text of the
/// first parse error. dotenvy substitutes `$VAR` references from the process
/// environment, so the entries are not a function of the bytes alone and
/// nothing more is assumed of them.
#[verifier::external_body]
fn parse_dotenv_bytes(bytes: &Vec<u8>) -> (r: Result<Vec<(String, String)>, String>) {
    dotenvy::from_read_iter(std::io::Cursor::new(bytes.as_slice()))
        .collect::<Result<Vec<(String, String)>, dotenvy::Error>>()
        .map_err(|e| e.to_string())
}

/// The port declared inside the target application's own environment file,
/// handed over as raw bytes (`None` when the file does not exist). A file
/// that does not parse is a configuration error naming the file.
pub fn silly_env_port(env_file: Option<&Vec<u8>>, env_path: &str) -> (r: Result<
    Option<u16>,
    String,
>)
    ensures
        env_file is None ==> (r matches Ok(p) && p is None),
        forall|q: u16| r == Ok::<Option<u16>, String>(Some(q)) ==> q != 0,
{
    match env_file {
        None => Ok(None),
        Some(bytes) => match parse_dotenv_bytes(bytes) {
            Ok(entries) => {
                let p = select_env_port(&entries);
                proof {
                    lemma_env_port_nonzero(entries@);
                }
                Ok(p)
            },
            Err(e) => Err(concat3("Failed to parse ", env_path, ": ").concat(e.as_str())),
        },
    }
}

proof fn lemma_last_valid_port_nonzero(entries: Seq<(String, String)>, key: Seq<char>)
    ensures
        last_valid_port(entries, key) matches Some(p) ==> p != 0,
    decreases entries.len(),
{
    if entries.len() > 0 {
        lemma_last_valid_port_nonzero(entries.drop_last(), key);
    }
}

proof fn lemma_env_port_nonzero(entries: Seq<(String, String)>)
    ensures
        env_port_spec(entries) matches Some(p) ==> p != 0,
{
    lemma_last_valid_port_nonzero(entries, "PORT"@);
    lemma_last_valid_port_nonzero(entries, "ST_PORT"@);
}

/// The index of the first successful probe, or the length when none was.
pub open spec fn first_avail(avail: Seq<bool>) -> int
    decreases avail.len(),
{
    if avail.len() == 0 {
        0
    } else if avail[0] {
        0
    } else {
        1 + first_avail(avail.drop_first())
    }
}

pub proof fn lemma_first_avail(avail: Seq<bool>)
    ensures
        0 <= first_avail(avail) <= avail.len(),
        first_avail(avail) < avail.len() ==> avail[first_avail(avail)],
        forall|k: int| 0 <= k < first_avail(avail) ==> !avail[k],
    decreases avail.len(),
{
    if avail.len() > 0 && !avail[0] {
        let t = avail.drop_first();
        lemma_first_avail(t);
        assert(forall|k: int| 1 <= k < first_avail(avail) ==> avail[k] == t[k - 1]);
        if first_avail(avail) < avail.len() {
            assert(avail[first_avail(avail)] == t[first_avail(t)]);
        }
    }
}

/// The negotiated port: the environment-file declaration wins, then the
/// explicit override, then the first fallback candidate whose bind probe
/// succeeded; `None` when every tier is exhausted.
pub open spec fn resolve_port_spec(
    env_port: Option<u16>,
    override_port: Option<u16>,
    candidates: Seq<u16>,
    avail: Seq<bool>,
) -> Option<u16> {
    match env_port {
        Some(p) => Some(p),
        None => match override_port {
            Some(p) => Some(p),
            None => {
                let i = first_avail(avail);
                if i < avail.len() {
                    Some(candidates[i])
                } else {
                    None
                }
            },
        },
    }
}

/// Determines the port to bind. `avail[i]` reports whether the bind probe
/// of `candidates[i]` succeeded.
pub fn determine_port(
    env_port: Option<u16>,
    override_port: Option<u16>,
    candidates: &Vec<u16>,
    avail: &Vec<bool>,
) -> (r: Result<u16, String>)
    requires
        avail@.len() == candidates@.len(),
    ensures
        match resolve_port_spec(env_port, override_port, candidates@, avail@) {
            Some(p) => r matches Ok(q) && q == p,
            None => r matches Err(m) && m@ == "Unable to determine an available server port."@,
        },
{
    if let Some(p) = env_port {
        return Ok(p);
    }
    if let Some(p) = override_port {
        return Ok(p);
    }
    let n = candidates.len();
    let mut i: usize = 0;
    while i < n
        invariant
            0 <= i <= n,
            n == candidates@.len(),
            n == avail@.len(),
            env_port is None,
            override_port is None,
            forall|k: int| 0 <= k < i ==> !avail@[k],
        decreases n - i,
    {
        if avail[i] {
            proof {
                lemma_first_avail(avail@);
                assert(first_avail(avail@) == i);
            }
            return Ok(candidates[i]);
        }
        i = i + 1;
    }
    proof {
        lemma_first_avail(avail@);
        assert(first_avail(avail@) == n);
    }
    Err(String::from_str("Unable to determine an available server port."))
}

/// Within one resolution pass over distinct fallback candidates, a
/// candidate whose bind probe reported the port bound is never the
/// negotiated port.
pub proof fn lemma_no_bound_port_returned(candidates: Seq<u16>, avail: Seq<bool>, j: int)
    requires
        avail.len() == candidates.len(),
        forall|a: int, b: int|
            0 <= a < candidates.len() && 0 <= b < candidates.len() && a != b
                ==> candidates[a] != candidates[b],
        0 <= j < avail.len(),
        !avail[j],
    ensures
        resolve_port_spec(None, None, candidates, avail) != Some(candidates[j]),
{
    lemma_first_avail(avail);
    let i = first_avail(avail);
    if i < avail.len() && candidates[i] == candidates[j] {
        assert(i == j);
    }
}

} // verus!
