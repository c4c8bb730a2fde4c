//! Secret scanning: which files are read and which lines are reported.
use vstd::prelude::*;
use crate::common::{file_name, path_file_name};
use crate::pattern::{regex_hit, regex_hits};
use crate::text::{chars_of, lines, lines_of, seq_eq, string_from_chars, string_from_range, trim, trim_str};

verus! {

/// Index of the last `.` in `s`, if any.
pub open spec fn last_dot(s: Seq<char>) -> Option<int>
    decreases s.len(),
{
    if s.len() == 0 {
        None
    } else if s.last() == '.' {
        Some(s.len() - 1)
    } else {
        last_dot(s.drop_last())
    }
}

proof fn lemma_last_dot_in_bounds(s: Seq<char>)
    ensures
        last_dot(s) matches Some(k) ==> 0 <= k < s.len() && s[k] == '.',
    decreases s.len(),
{
    if s.len() > 0 && s.last() != '.' {
        lemma_last_dot_in_bounds(s.drop_last());
    }
}

/// `Path::extension` of a file name: what follows its last `.`, unless the
/// name has no `.` or its only `.` leads it (as in `.env`).
pub open spec fn extension(name: Seq<char>) -> Option<Seq<char>> {
    match last_dot(name) {
        Some(k) => if k > 0 {
            Some(name.skip(k + 1))
        } else {
            None
        },
        None => None,
    }
}

/// The extensions of the files that are scanned.
pub open spec fn scannable_extensions() -> Seq<Seq<char>> {
    seq![
        "rs"@, "py"@, "js"@, "ts"@, "env"@, "json"@, "toml"@, "yaml"@, "yml"@, "md"@,
    ]
}

/// A file is scanned when its name has one of the scannable extensions.
pub open spec fn scannable(path: Seq<char>) -> bool {
    match extension(file_name(path)) {
        Some(e) => scannable_extensions().contains(e),
        None => false,
    }
}

fn scannable_extension_at(i: usize) -> (e: &'static str)
    requires
        i < 10,
    ensures
        e@ == scannable_extensions()[i as int],
{
    match i {
        0 => "rs",
        1 => "py",
        2 => "js",
        3 => "ts",
        4 => "env",
        5 => "json",
        6 => "toml",
        7 => "yaml",
        8 => "yml",
        _ => "md",
    }
}

fn find_last_dot(s: &[char]) -> (r: Option<usize>)
    ensures
        match r {
            Some(k) => last_dot(s@) == Some(k as int),
            None => last_dot(s@) is None,
        },
{
    let mut i: usize = s.len();
    proof {
        assert(s@.take(i as int) =~= s@);
    }
    while i > 0
        invariant
            i <= s@.len(),
            last_dot(s@) == last_dot(s@.take(i as int)),
        decreases i,
    {
        proof {
            assert(s@.take(i as int).drop_last() =~= s@.take(i - 1));
        }
        if s[i - 1] == '.' {
            return Some(i - 1);
        }
        i = i - 1;
    }
    None
}

/// Whether the file at `path` is scanned for secrets.
pub fn is_scannable_file(path: &str) -> (r: bool)
    ensures
        r == scannable(path@),
{
    let name = path_file_name(path);
    match find_last_dot(name.as_slice()) {
        Some(k) => {
            proof {
                lemma_last_dot_in_bounds(name@);
            }
            if k == 0 {
                return false;
            }
            let ext = string_from_range(name.as_slice(), k + 1, name.len());
            let ev: Vec<char> = chars_of(ext.as_str());
            proof {
                assert(ev@ =~= name@.skip(k + 1));
                assert(extension(file_name(path@)) == Some(ev@));
            }
            let mut i: usize = 0;
            while i < 10
                invariant
                    i <= 10,
                    extension(file_name(path@)) == Some(ev@),
                    forall|j: int| 0 <= j < i ==> scannable_extensions()[j] != ev@,
                decreases 10 - i,
            {
                let cand = scannable_extension_at(i);
                let cv = chars_of(cand);
                if seq_eq(ev.as_slice(), cv.as_slice()) {
                    proof {
                        assert(scannable_extensions()[i as int] == ev@);
                        assert(scannable_extensions().contains(ev@));
                    }
                    return true;
                }
                i = i + 1;
            }
            proof {
                assert(!scannable_extensions().contains(ev@)) by {
                    if scannable_extensions().contains(ev@) {
                        let j = choose|j: int| 0 <= j < 10 && scannable_extensions()[j] == ev@;
                        assert(scannable_extensions()[j] != ev@);
                    }
                }
            }
            false
        },
        None => false,
    }
}

/// The pattern of a line that assigns a secret-looking literal to a
/// credential-like name.
pub open spec fn secret_pattern() -> Seq<char> {
    r#"(?i)(api_key|password|secret|token|private_key|access_key|auth_token)\s*[:=]\s*['""]([a-zA-Z0-9_\-]{12,})['""]"#@
}

/// The reported lines among the first `n` lines of `ls`: each matching line
/// as its 1-based number and its trimmed text.
pub open spec fn secret_hits(ls: Seq<Seq<char>>, n: int) -> Seq<(int, Seq<char>)>
    decreases n,
{
    if n <= 0 {
        Seq::empty()
    } else if regex_hits(secret_pattern(), ls[n - 1]) {
        secret_hits(ls, n - 1).push((n, trim(ls[n - 1])))
    } else {
        secret_hits(ls, n - 1)
    }
}

/// The reported lines of a file's content.
pub open spec fn secret_report(content: Seq<char>) -> Seq<(int, Seq<char>)> {
    secret_hits(lines(content), lines(content).len() as int)
}

/// The lines of `content` that look like hard-coded secrets, numbered from 1.
pub fn find_secret_lines(content: &str) -> (r: Vec<(usize, String)>)
    ensures
        r@.map_values(|h: (usize, String)| (h.0 as int, h.1@)) == secret_report(content@),
{
    let ls = lines_of(content);
    let ghost lv = lines(content@);
    let pattern = r#"(?i)(api_key|password|secret|token|private_key|access_key|auth_token)\s*[:=]\s*['""]([a-zA-Z0-9_\-]{12,})['""]"#;
    let mut out: Vec<(usize, String)> = Vec::new();
    let mut i: usize = 0;
    while i < ls.len()
        invariant
            i <= ls@.len(),
            ls@.len() == lv.len(),
            lv == lines(content@),
            forall|j: int| 0 <= j < ls@.len() ==> #[trigger] ls@[j]@ == lv[j],
            pattern@ == secret_pattern(),
            out@.map_values(|h: (usize, String)| (h.0 as int, h.1@)) == secret_hits(lv, i as int),
        decreases ls.len() - i,
    {
        let line = string_from_chars(ls[i].as_slice());
        if regex_hit(pattern, line.as_str()) {
            let t = trim_str(line.as_str());
            out.push((i + 1, t));
            proof {
                assert(out@.map_values(|h: (usize, String)| (h.0 as int, h.1@)) =~= secret_hits(
                    lv,
                    i + 1,
                ));
            }
        }
        i = i + 1;
    }
    out
}

/// The secret pattern is case-insensitive and names every credential-like
/// key: `api_key`, `password`, `secret`, `token`, `private_key`,
/// `access_key` and `auth_token`, as alternatives, followed by `:` or `=` and
/// a quoted literal of at least 12 characters from `[A-Za-z0-9_-]`.
pub proof fn law_secret_pattern_keys()
    ensures
        secret_pattern() == "(?i)("@ + "api_key"@ + "|"@
            + "password"@ + "|"@
            + "secret"@ + "|"@
            + "token"@ + "|"@
            + "private_key"@ + "|"@
            + "access_key"@ + "|"@
            + "auth_token"@ + ")"@
            + r#"\s*[:=]\s*['""]([a-zA-Z0-9_\-]{12,})['""]"#@,
{
    reveal_strlit("(?i)(");
    reveal_strlit("|");
    reveal_strlit(")");
    reveal_strlit("api_key");
    reveal_strlit("password");
    reveal_strlit("secret");
    reveal_strlit("token");
    reveal_strlit("private_key");
    reveal_strlit("access_key");
    reveal_strlit("auth_token");
    reveal_strlit(r#"\s*[:=]\s*['""]([a-zA-Z0-9_\-]{12,})['""]"#);
    reveal_strlit(r#"(?i)(api_key|password|secret|token|private_key|access_key|auth_token)\s*[:=]\s*['""]([a-zA-Z0-9_\-]{12,})['""]"#);
    assert(secret_pattern() =~= "(?i)("@ + "api_key"@ + "|"@
            + "password"@ + "|"@
            + "secret"@ + "|"@
            + "token"@ + "|"@
            + "private_key"@ + "|"@
            + "access_key"@ + "|"@
            + "auth_token"@ + ")"@
        + r#"\s*[:=]\s*['""]([a-zA-Z0-9_\-]{12,})['""]"#@);
}

} // verus!
