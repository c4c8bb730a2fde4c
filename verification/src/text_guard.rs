//! Text guard: detects over-long or injection-bearing input and sanitizes
//! text into a form that is safe as a file name and free of control and
//! bidirectional-override characters.
use vstd::prelude::*;
use vstd::utf8::*;
use crate::pattern::{regex_hit, regex_hits};
use crate::text::{append_decimal, append_str, chars_of, copy_str, push_char, decimal, str_eq, string_from_chars};
use crate::unicode::{nfc, nfc_form, to_upper, uppercase};

verus! {

broadcast use vstd::seq_lib::group_seq_properties;

/// Outcome of analysing an input.
#[derive(Debug, PartialEq, Eq)]
pub enum ValidationResult {
    /// The input is safe.
    Valid,
    /// The input was blocked, for the given reason.
    Blocked(String),
}

/// Analyzer and sanitizer with a byte-length limit.
pub struct Guard {
    max_len: usize,
}

/// The byte limit a guard starts with.
pub const DEFAULT_MAX_LEN: usize = 4096;

impl Default for Guard {
    fn default() -> (g: Self)
        ensures
            g.limit() == DEFAULT_MAX_LEN,
    {
        Guard { max_len: DEFAULT_MAX_LEN }
    }
}

/// Number of injection patterns checked by `Guard::analyze`.
pub const INJECTION_PATTERN_COUNT: usize = 15;

/// The injection patterns, in the order they are tried.
pub open spec fn injection_patterns() -> Seq<Seq<char>> {
    seq![
        "(?i)ignore previous instructions"@,
        "(?i)ignore all instructions"@,
        "(?i)disregard.*instructions"@,
        "(?i)system prompt"@,
        "(?i)you are an ai"@,
        "(?i)new instructions:"@,
        "(?i)override.*system"@,
        "(?i)<script"@,
        "(?i)javascript:"@,
        "(?i)vbscript:"@,
        "(?i)data:text/html"@,
        "(?i)alert\\("@,
        "(?i);\\s*rm\\s+-"@,
        "(?i)\\|\\|\\s*curl"@,
        "(?i)\\|\\|\\s*wget"@,
    ]
}

/// The `i`-th injection pattern.
pub fn injection_pattern(i: usize) -> (p: &'static str)
    requires
        i < INJECTION_PATTERN_COUNT,
    ensures
        p@ == injection_patterns()[i as int],
{
    match i {
        0 => "(?i)ignore previous instructions",
        1 => "(?i)ignore all instructions",
        2 => "(?i)disregard.*instructions",
        3 => "(?i)system prompt",
        4 => "(?i)you are an ai",
        5 => "(?i)new instructions:",
        6 => "(?i)override.*system",
        7 => "(?i)<script",
        8 => "(?i)javascript:",
        9 => "(?i)vbscript:",
        10 => "(?i)data:text/html",
        11 => "(?i)alert\\(",
        12 => "(?i);\\s*rm\\s+-",
        13 => "(?i)\\|\\|\\s*curl",
        _ => "(?i)\\|\\|\\s*wget",
    }
}

/// Every injection pattern is matched case-insensitively: it is the `(?i)`
/// flag followed by one of the phrases below, in this order (the phrases
/// ignoring instructions, asking for the system prompt or a new role, and
/// script, URL-scheme and shell-chaining payloads).
pub proof fn law_injection_patterns_case_insensitive()
    ensures
        injection_patterns().len() == INJECTION_PATTERN_COUNT,
        forall|i: int| 0 <= i < INJECTION_PATTERN_COUNT ==> (#[trigger] injection_patterns()[i]).take(4) == "(?i)"@,
        forall|i: int| 0 <= i < INJECTION_PATTERN_COUNT ==> #[trigger] injection_patterns()[i] == "(?i)"@ + seq![
            "ignore previous instructions"@,
            "ignore all instructions"@,
            "disregard.*instructions"@,
            "system prompt"@,
            "you are an ai"@,
            "new instructions:"@,
            "override.*system"@,
            "<script"@,
            "javascript:"@,
            "vbscript:"@,
            "data:text/html"@,
            "alert\\("@,
            ";\\s*rm\\s+-"@,
            "\\|\\|\\s*curl"@,
            "\\|\\|\\s*wget"@
        ][i],
{
    reveal_strlit("(?i)");
    reveal_strlit("(?i)ignore previous instructions");
    reveal_strlit("ignore previous instructions");
    reveal_strlit("(?i)ignore all instructions");
    reveal_strlit("ignore all instructions");
    reveal_strlit("(?i)disregard.*instructions");
    reveal_strlit("disregard.*instructions");
    reveal_strlit("(?i)system prompt");
    reveal_strlit("system prompt");
    reveal_strlit("(?i)you are an ai");
    reveal_strlit("you are an ai");
    reveal_strlit("(?i)new instructions:");
    reveal_strlit("new instructions:");
    reveal_strlit("(?i)override.*system");
    reveal_strlit("override.*system");
    reveal_strlit("(?i)<script");
    reveal_strlit("<script");
    reveal_strlit("(?i)javascript:");
    reveal_strlit("javascript:");
    reveal_strlit("(?i)vbscript:");
    reveal_strlit("vbscript:");
    reveal_strlit("(?i)data:text/html");
    reveal_strlit("data:text/html");
    reveal_strlit("(?i)alert\\(");
    reveal_strlit("alert\\(");
    reveal_strlit("(?i);\\s*rm\\s+-");
    reveal_strlit(";\\s*rm\\s+-");
    reveal_strlit("(?i)\\|\\|\\s*curl");
    reveal_strlit("\\|\\|\\s*curl");
    reveal_strlit("(?i)\\|\\|\\s*wget");
    reveal_strlit("\\|\\|\\s*wget");
    assert forall|i: int| 0 <= i < INJECTION_PATTERN_COUNT implies (#[trigger] injection_patterns()[i]).take(4) == "(?i)"@ by {
        assert(injection_patterns()[i].take(4) =~= "(?i)"@);
    }
    assert forall|i: int| 0 <= i < INJECTION_PATTERN_COUNT implies #[trigger] injection_patterns()[i] == "(?i)"@ + seq![
            "ignore previous instructions"@,
            "ignore all instructions"@,
            "disregard.*instructions"@,
            "system prompt"@,
            "you are an ai"@,
            "new instructions:"@,
            "override.*system"@,
            "<script"@,
            "javascript:"@,
            "vbscript:"@,
            "data:text/html"@,
            "alert\\("@,
            ";\\s*rm\\s+-"@,
            "\\|\\|\\s*curl"@,
            "\\|\\|\\s*wget"@
        ][i] by {
        assert(injection_patterns()[i] =~= "(?i)"@ + seq![
            "ignore previous instructions"@,
            "ignore all instructions"@,
            "disregard.*instructions"@,
            "system prompt"@,
            "you are an ai"@,
            "new instructions:"@,
            "override.*system"@,
            "<script"@,
            "javascript:"@,
            "vbscript:"@,
            "data:text/html"@,
            "alert\\("@,
            ";\\s*rm\\s+-"@,
            "\\|\\|\\s*curl"@,
            "\\|\\|\\s*wget"@
        ][i]);
    }
}

/// Some injection pattern matches `input`.
pub open spec fn injection_detected(input: Seq<char>) -> bool {
    exists|i: int|
        0 <= i < INJECTION_PATTERN_COUNT && #[trigger] regex_hits(injection_patterns()[i], input)
}

/// The byte length of the UTF-8 encoding of `s` (what `str::len` returns).
pub open spec fn byte_len(s: Seq<char>) -> nat {
    encode_utf8(s).len()
}

/// Reason given for an input longer than the limit.
pub open spec fn too_long_message(max: nat, got: nat) -> Seq<char> {
    "Input too long (max "@ + decimal(max) + " bytes, got "@ + decimal(got) + ")"@
}

/// Reason given for an input that matches an injection pattern.
pub open spec fn injection_message() -> Seq<char> {
    "Potential injection detected"@
}

/// What `analyze` answers, as the reason for blocking, or `None` for valid input.
pub open spec fn analysis(max_len: nat, input: Seq<char>) -> Option<Seq<char>> {
    if byte_len(input) > max_len {
        Some(too_long_message(max_len, byte_len(input)))
    } else if injection_detected(input) {
        Some(injection_message())
    } else {
        None
    }
}

/// The result `r` is the analysis `a`.
pub open spec fn result_is(r: ValidationResult, a: Option<Seq<char>>) -> bool {
    match r {
        ValidationResult::Valid => a is None,
        ValidationResult::Blocked(m) => a == Some(m@),
    }
}

/// `char::is_control`: the general category Cc.
pub open spec fn is_control(c: char) -> bool {
    (c as u32) <= 0x1F || (0x7F <= (c as u32) && (c as u32) <= 0x9F)
}

/// Bidirectional formatting characters that the guard removes.
pub open spec fn is_bidi_control(c: char) -> bool {
    ||| c == '\u{200E}'
    ||| c == '\u{200F}'
    ||| ('\u{202A}' <= c && c <= '\u{202E}')
    ||| ('\u{2066}' <= c && c <= '\u{2069}')
}

/// Characters that are dangerous in a path.
pub open spec fn is_path_char(c: char) -> bool {
    ||| c == '/'
    ||| c == '\\'
    ||| c == ':'
    ||| c == '*'
    ||| c == '?'
    ||| c == '"'
    ||| c == '<'
    ||| c == '>'
    ||| c == '|'
}

/// Characters removed by `sanitize`: controls other than newline and tab,
/// bidirectional controls, and path characters.
pub open spec fn is_forbidden(c: char) -> bool {
    if is_control(c) {
        c != '\n' && c != '\t'
    } else {
        is_bidi_control(c) || is_path_char(c)
    }
}

/// Keeps what `sanitize` keeps.
pub open spec fn allowed(c: char) -> bool {
    !is_forbidden(c)
}

/// The characters of `s` that `sanitize` keeps, in order.
pub open spec fn kept(s: Seq<char>) -> Seq<char> {
    s.filter(|c: char| allowed(c))
}

/// The reserved Windows device names.
pub open spec fn reserved_names() -> Seq<Seq<char>> {
    seq![
        "CON"@, "PRN"@, "AUX"@, "NUL"@,
        "COM1"@, "COM2"@, "COM3"@, "COM4"@, "COM5"@, "COM6"@, "COM7"@, "COM8"@, "COM9"@,
        "LPT1"@, "LPT2"@, "LPT3"@, "LPT4"@, "LPT5"@, "LPT6"@, "LPT7"@, "LPT8"@, "LPT9"@,
    ]
}

/// Number of reserved Windows device names.
pub const RESERVED_NAME_COUNT: usize = 22;

/// The `i`-th reserved name.
pub fn reserved_name(i: usize) -> (w: &'static str)
    requires
        i < RESERVED_NAME_COUNT,
    ensures
        w@ == reserved_names()[i as int],
{
    match i {
        0 => "CON",
        1 => "PRN",
        2 => "AUX",
        3 => "NUL",
        4 => "COM1",
        5 => "COM2",
        6 => "COM3",
        7 => "COM4",
        8 => "COM5",
        9 => "COM6",
        10 => "COM7",
        11 => "COM8",
        12 => "COM9",
        13 => "LPT1",
        14 => "LPT2",
        15 => "LPT3",
        16 => "LPT4",
        17 => "LPT5",
        18 => "LPT6",
        19 => "LPT7",
        20 => "LPT8",
        _ => "LPT9",
    }
}

/// `name` upper-cases to a reserved device name.
pub open spec fn is_reserved(name: Seq<char>) -> bool {
    reserved_names().contains(uppercase(name))
}

/// A reserved name gets a `_` in front; any other name is kept.
pub open spec fn masked(name: Seq<char>) -> Seq<char> {
    if is_reserved(name) {
        seq!['_'] + name
    } else {
        name
    }
}

/// The first `max` bytes of `input` when it is longer, else `input`.
pub open spec fn truncated(max_len: nat, input: Seq<char>) -> Seq<char> {
    if byte_len(input) > max_len {
        decode_utf8(encode_utf8(input).take(max_len as int))
    } else {
        input
    }
}

/// What `sanitize` returns: truncate, normalize to NFC, drop forbidden
/// characters, then mask reserved device names.
pub open spec fn sanitized(max_len: nat, input: Seq<char>) -> Seq<char> {
    masked(kept(nfc_form(truncated(max_len, input))))
}

/// The shape of every `sanitize` output: only allowed characters, and not a
/// reserved device name unless it starts with the masking `_`.
pub open spec fn sanitized_shape(t: Seq<char>) -> bool {
    &&& forall|i: int| 0 <= i < t.len() ==> allowed(#[trigger] t[i])
    &&& (!is_reserved(t) || (t.len() > 0 && t[0] == '_'))
}

/// `sanitize` can cut `input` at the limit: it is short enough, or the
/// limit falls on a character boundary.
pub open spec fn can_truncate(max_len: nat, input: Seq<char>) -> bool {
    byte_len(input) <= max_len || is_char_boundary(encode_utf8(input), max_len as int)
}

impl Guard {
    /// The byte limit.
    pub closed spec fn limit(&self) -> nat {
        self.max_len as nat
    }

    /// A guard with the default limit of 4096 bytes.
    pub fn new() -> (g: Self)
        ensures
            g.limit() == DEFAULT_MAX_LEN,
    {
        Self::default()
    }

    /// The same guard with the byte limit set to `len`.
    pub fn max_len(self, len: usize) -> (g: Self)
        ensures
            g.limit() == len,
    {
        let mut s = self;
        s.max_len = len;
        s
    }

    /// Blocks input longer than the limit (in bytes), then input matching an
    /// injection pattern; anything else is valid.
    pub fn analyze(&self, input: &str) -> (r: ValidationResult)
        ensures
            result_is(r, analysis(self.limit(), input@)),
    {
        let n = input.as_bytes().len();
        if n > self.max_len {
            let mut m = copy_str("Input too long (max ");
            append_decimal(&mut m, self.max_len as u64);
            append_str(&mut m, " bytes, got ");
            append_decimal(&mut m, n as u64);
            append_str(&mut m, ")");
            proof {
                assert(m@ =~= too_long_message(self.limit(), byte_len(input@)));
            }
            return ValidationResult::Blocked(m);
        }
        let mut i: usize = 0;
        while i < INJECTION_PATTERN_COUNT
            invariant
                i <= INJECTION_PATTERN_COUNT,
                n == byte_len(input@),
                n <= self.limit(),
                forall|k: int| 0 <= k < i ==> !#[trigger] regex_hits(injection_patterns()[k], input@),
            decreases INJECTION_PATTERN_COUNT - i,
        {
            if regex_hit(injection_pattern(i), input) {
                proof {
                    assert(regex_hits(injection_patterns()[i as int], input@));
                }
                return ValidationResult::Blocked(copy_str("Potential injection detected"));
            }
            i = i + 1;
        }
        ValidationResult::Valid
    }

    /// Truncates to the limit, normalizes to NFC, removes forbidden
    /// characters and masks a reserved Windows device name.
    ///
    /// Sanitizing is idempotent on what it produces: an output has
    /// `sanitized_shape`, and an input of that shape which is within the
    /// limit and already in NFC comes back unchanged.
    pub fn sanitize(&self, input: &str) -> (r: String)
        requires
            can_truncate(self.limit(), input@),
        ensures
            r@ == sanitized(self.limit(), input@),
            sanitized_shape(r@),
            byte_len(input@) <= self.limit() && nfc_form(input@) == input@ && sanitized_shape(input@)
                ==> r@ == input@,
    {
        let text = if input.as_bytes().len() > self.max_len {
            let (head, _tail) = input.split_at(self.max_len);
            proof {
                encode_utf8_decode_utf8(head@);
                assert(encode_utf8(input@).subrange(0, self.max_len as int) =~= encode_utf8(input@).take(self.max_len as int));
                assert(head@ == truncated(self.limit(), input@));
            }
            copy_str(head)
        } else {
            copy_str(input)
        };
        let normal = nfc(text.as_str());
        let filtered = keep_allowed(normal.as_str());
        let r = Self::mask_windows_reserved(filtered.as_str());
        proof {
            let f = kept(normal@);
            assert forall|i: int| 0 <= i < f.len() implies allowed(#[trigger] f[i]) by {
                assert(f.contains(f[i]));
            }
            if is_reserved(f) {
                assert forall|i: int| 0 <= i < r@.len() implies allowed(#[trigger] r@[i]) by {
                    if i > 0 {
                        assert(r@[i] == f[i - 1]);
                    }
                }
            }
            if byte_len(input@) <= self.limit() && nfc_form(input@) == input@ && sanitized_shape(input@) {
                lemma_kept_all_allowed(input@);
            }
        }
        r
    }

    /// Whether `sanitize` removes `c`.
    pub fn is_forbidden_char(c: char) -> (r: bool)
        ensures
            r == is_forbidden(c),
    {
        let u = c as u32;
        if u <= 0x1F || (0x7F <= u && u <= 0x9F) {
            if c == '\n' || c == '\t' {
                return false;
            }
            return true;
        }
        if c == '\u{200E}' || c == '\u{200F}' || ('\u{202A}' <= c && c <= '\u{202E}') || (
        '\u{2066}' <= c && c <= '\u{2069}') {
            return true;
        }
        c == '/' || c == '\\' || c == ':' || c == '*' || c == '?' || c == '"' || c == '<' || c
            == '>' || c == '|'
    }

    /// Prefixes `_` to a name that upper-cases to a reserved device name.
    /// A name that starts with `_` is never reserved, so it is kept.
    pub fn mask_windows_reserved(name: &str) -> (r: String)
        ensures
            r@ == masked(name@),
            name@.len() > 0 && name@[0] == '_' ==> r@ == name@,
    {
        let upper = to_upper(name);
        proof {
            if name@.len() > 0 && name@[0] == '_' {
                assert forall|k: int| 0 <= k < reserved_names().len() implies reserved_names()[k]
                    != upper@ by {
                    reveal_strlit("CON");
                    reveal_strlit("PRN");
                    reveal_strlit("AUX");
                    reveal_strlit("NUL");
                    reveal_strlit("COM1");
                    reveal_strlit("COM2");
                    reveal_strlit("COM3");
                    reveal_strlit("COM4");
                    reveal_strlit("COM5");
                    reveal_strlit("COM6");
                    reveal_strlit("COM7");
                    reveal_strlit("COM8");
                    reveal_strlit("COM9");
                    reveal_strlit("LPT1");
                    reveal_strlit("LPT2");
                    reveal_strlit("LPT3");
                    reveal_strlit("LPT4");
                    reveal_strlit("LPT5");
                    reveal_strlit("LPT6");
                    reveal_strlit("LPT7");
                    reveal_strlit("LPT8");
                    reveal_strlit("LPT9");
                    assert(reserved_names()[k][0] != '_');
                }
                assert(!reserved_names().contains(upper@));
            }
        }
        let mut i: usize = 0;
        while i < RESERVED_NAME_COUNT
            invariant
                i <= RESERVED_NAME_COUNT,
                upper@ == uppercase(name@),
                name@.len() > 0 && name@[0] == '_' ==> !reserved_names().contains(upper@),
                forall|k: int| 0 <= k < i ==> reserved_names()[k] != upper@,
            decreases RESERVED_NAME_COUNT - i,
        {
            if str_eq(upper.as_str(), reserved_name(i)) {
                proof {
                    assert(reserved_names().contains(upper@));
                }
                let mut r = String::new();
                push_char(&mut r, '_');
                append_str(&mut r, name);
                proof {
                    assert(r@ =~= seq!['_'] + name@);
                }
                return r;
            }
            i = i + 1;
        }
        proof {
            assert(reserved_names().len() == RESERVED_NAME_COUNT);
            if reserved_names().contains(upper@) {
                let k = choose|k: int| 0 <= k < reserved_names().len() && reserved_names()[k] == upper@;
                assert(reserved_names()[k] != upper@);
            }
        }
        copy_str(name)
    }
}

/// Filtering a text whose characters are all allowed keeps it whole.
proof fn lemma_kept_all_allowed(s: Seq<char>)
    requires
        forall|i: int| 0 <= i < s.len() ==> allowed(#[trigger] s[i]),
    ensures
        kept(s) == s,
    decreases s.len(),
{
    reveal_with_fuel(Seq::<_>::filter, 1);
    if s.len() > 0 {
        lemma_kept_all_allowed(s.drop_last());
        assert(s.drop_last().push(s.last()) =~= s);
    }
}

/// The characters of `s` that are not forbidden, in order.
pub fn keep_allowed(s: &str) -> (r: String)
    ensures
        r@ == kept(s@),
{
    let v = chars_of(s);
    let mut out: Vec<char> = Vec::new();
    let mut i: usize = 0;
    while i < v.len()
        invariant
            i <= v@.len(),
            v@ == s@,
            out@ == kept(v@.take(i as int)),
        decreases v.len() - i,
    {
        proof {
            reveal_with_fuel(Seq::<_>::filter, 1);
            assert(v@.take(i + 1).drop_last() =~= v@.take(i as int));
        }
        if !Guard::is_forbidden_char(v[i]) {
            out.push(v[i]);
        }
        i = i + 1;
    }
    proof {
        assert(v@.take(v@.len() as int) =~= v@);
    }
    string_from_chars(out.as_slice())
}

} // verus!
