//! The helper's line protocol: what one line of its output says.
//!
//! The helper writes one message per line: a token, and after the first space
//! whatever text belongs to it. The agent answers with lines of its own: the
//! cookie first, then one credential for every masked prompt.

use crate::error::PolkitError;
use crate::text::chars_of;
use vstd::prelude::*;
use vstd::string::*;

verus! {

/// Whether `c` has the Unicode property White_Space.
pub open spec fn white_space(c: char) -> bool {
    let n = c as u32;
    ||| 0x09 <= n <= 0x0D
    ||| n == 0x20
    ||| n == 0x85
    ||| n == 0xA0
    ||| n == 0x1680
    ||| 0x2000 <= n <= 0x200A
    ||| n == 0x2028
    ||| n == 0x2029
    ||| n == 0x202F
    ||| n == 0x205F
    ||| n == 0x3000
}

/// `s` without the white space it starts with.
pub open spec fn trim_start(s: Seq<char>) -> Seq<char>
    decreases s.len(),
{
    if s.len() > 0 && white_space(s.first()) {
        trim_start(s.drop_first())
    } else {
        s
    }
}

/// `s` without the white space it ends with.
pub open spec fn trim_end(s: Seq<char>) -> Seq<char>
    decreases s.len(),
{
    if s.len() > 0 && white_space(s.last()) {
        trim_end(s.drop_last())
    } else {
        s
    }
}

/// `s` without the white space at either end.
pub open spec fn trimmed(s: Seq<char>) -> Seq<char> {
    trim_end(trim_start(s))
}

/// The two parts of `s` around its first space; all of `s` and nothing where
/// it holds no space.
pub open spec fn split_at_first_space(s: Seq<char>) -> (Seq<char>, Seq<char>) {
    match s.index_of_first(' ') {
        Some(i) => (s.subrange(0, i), s.subrange(i + 1, s.len() as int)),
        None => (s, Seq::empty()),
    }
}

/// The vocabulary of the helper's output.
#[derive(Clone, Copy, Debug, PartialEq, Eq, Structural)]
pub enum HelperToken {
    /// `PAM_PROMPT_ECHO_OFF`: the helper asks for input that is not echoed.
    PromptEchoOff,
    /// `PAM_PROMPT_ECHO_ON`: the helper asks for input that is echoed.
    PromptEchoOn,
    /// `PAM_ERROR_MSG`: an error message for the user.
    ErrorMsg,
    /// `PAM_TEXT_INFO`: a notice for the user.
    TextInfo,
    /// `SUCCESS`: the helper accepted the credential.
    Success,
    /// `FAILURE`: the helper gave up.
    Failure,
    /// Any other word.
    Unknown,
}

/// The token that `word` spells.
pub open spec fn token_of(word: Seq<char>) -> HelperToken {
    if word == "PAM_PROMPT_ECHO_OFF"@ {
        HelperToken::PromptEchoOff
    } else if word == "PAM_PROMPT_ECHO_ON"@ {
        HelperToken::PromptEchoOn
    } else if word == "PAM_ERROR_MSG"@ {
        HelperToken::ErrorMsg
    } else if word == "PAM_TEXT_INFO"@ {
        HelperToken::TextInfo
    } else if word == "SUCCESS"@ {
        HelperToken::Success
    } else if word == "FAILURE"@ {
        HelperToken::Failure
    } else {
        HelperToken::Unknown
    }
}

/// One line of the helper's output, taken apart.
#[derive(Debug)]
pub struct HelperLine {
    pub token: HelperToken,
    /// What follows the first space of the line: text meant for the user.
    pub message: String,
}

/// The token and the message of `line`: the line is trimmed, then split at
/// its first space.
pub open spec fn parsed(line: Seq<char>) -> (HelperToken, Seq<char>) {
    let (word, message) = split_at_first_space(trimmed(line));
    (token_of(word), message)
}

/// What the conversation does after a line of the helper.
#[derive(Clone, Copy, Debug, PartialEq, Eq, Structural)]
pub enum LineStep {
    /// Ask the user for a masked input, and go on.
    Prompt,
    /// Go on.
    Continue,
    /// Leave the loop: the helper has accepted the credential.
    Stop,
}

/// What `token` asks of the conversation. An echoed prompt is not supported
/// and fails the attempt, as the helper's own `FAILURE` does; words outside
/// the vocabulary are let pass.
pub open spec fn step_for(token: HelperToken) -> Result<LineStep, PolkitError> {
    match token {
        HelperToken::PromptEchoOff => Ok(LineStep::Prompt),
        HelperToken::PromptEchoOn => Err(PolkitError::Failed),
        HelperToken::ErrorMsg => Ok(LineStep::Continue),
        HelperToken::TextInfo => Ok(LineStep::Continue),
        HelperToken::Success => Ok(LineStep::Stop),
        HelperToken::Failure => Err(PolkitError::Failed),
        HelperToken::Unknown => Ok(LineStep::Continue),
    }
}

/// What the conversation does after reading `line` from the helper, where
/// `None` stands for the end of its output. A helper that closes its output
/// has not said `SUCCESS`: that ends the loop and fails the attempt.
pub open spec fn line_step(line: Option<Seq<char>>) -> Result<LineStep, PolkitError> {
    match line {
        Some(text) => step_for(parsed(text).0),
        None => Err(PolkitError::Failed),
    }
}

/// Whether `c` has the Unicode property White_Space.
pub fn is_white_space(c: char) -> (r: bool)
    ensures
        r == white_space(c),
{
    let n: u32 = c as u32;
    (0x09 <= n && n <= 0x0D) || n == 0x20 || n == 0x85 || n == 0xA0 || n == 0x1680 || (0x2000 <= n
        && n <= 0x200A) || n == 0x2028 || n == 0x2029 || n == 0x202F || n == 0x205F || n == 0x3000
}

/// Where `trim_start(s)` begins in `s`: behind the white space that `s`
/// starts with, and no further.
proof fn lemma_trim_start_begins(s: Seq<char>) -> (a: int)
    ensures
        0 <= a <= s.len(),
        trim_start(s) == s.subrange(a, s.len() as int),
        forall|i: int| 0 <= i < a ==> white_space(#[trigger] s[i]),
        a < s.len() ==> !white_space(s[a]),
    decreases s.len(),
{
    if s.len() > 0 && white_space(s.first()) {
        let t = s.drop_first();
        let b = lemma_trim_start_begins(t);
        assert(t.subrange(b, t.len() as int) =~= s.subrange(b + 1, s.len() as int));
        assert forall|i: int| 0 <= i < b + 1 implies white_space(#[trigger] s[i]) by {
            if i > 0 {
                assert(s[i] == t[i - 1]);
            }
        }
        assert(b + 1 < s.len() ==> s[b + 1] == t[b]);
        b + 1
    } else {
        assert(s.subrange(0, s.len() as int) =~= s);
        0
    }
}

/// Where `trim_end(s)` ends in `s`: before the white space that `s` ends
/// with, and no earlier.
proof fn lemma_trim_end_ends(s: Seq<char>) -> (b: int)
    ensures
        0 <= b <= s.len(),
        trim_end(s) == s.subrange(0, b),
        forall|i: int| b <= i < s.len() ==> white_space(#[trigger] s[i]),
        0 < b ==> !white_space(s[b - 1]),
    decreases s.len(),
{
    if s.len() > 0 && white_space(s.last()) {
        let t = s.drop_last();
        let b = lemma_trim_end_ends(t);
        assert(t.subrange(0, b) =~= s.subrange(0, b));
        assert forall|i: int| b <= i < s.len() implies white_space(#[trigger] s[i]) by {
            if i < t.len() {
                assert(s[i] == t[i]);
            }
        }
        assert(0 < b ==> s[b - 1] == t[b - 1]);
        b
    } else {
        assert(s.subrange(0, s.len() as int) =~= s);
        s.len() as int
    }
}

proof fn lemma_trim_start(s: Seq<char>, a: int)
    requires
        0 <= a <= s.len(),
        forall|i: int| 0 <= i < a ==> white_space(#[trigger] s[i]),
        a < s.len() ==> !white_space(s[a]),
    ensures
        trim_start(s) == s.subrange(a, s.len() as int),
{
    let b = lemma_trim_start_begins(s);
    if b < a {
        assert(white_space(s[b]));
    }
    if a < b {
        assert(white_space(s[a]));
    }
}

proof fn lemma_trim_end(s: Seq<char>, b: int)
    requires
        0 <= b <= s.len(),
        forall|i: int| b <= i < s.len() ==> white_space(#[trigger] s[i]),
        0 < b ==> !white_space(s[b - 1]),
    ensures
        trim_end(s) == s.subrange(0, b),
{
    let c = lemma_trim_end_ends(s);
    if c < b {
        assert(white_space(s[b - 1]));
    }
    if b < c {
        assert(white_space(s[c - 1]));
    }
}

/// Trimming cuts white space off both ends of a text and nothing else: what
/// is left is a stretch of the text that neither starts nor ends with white
/// space, and all that was cut off is white space.
pub proof fn law_trimmed_is_the_bare_middle(s: Seq<char>) -> (bounds: (int, int))
    ensures
        0 <= bounds.0 <= bounds.1 <= s.len(),
        trimmed(s) == s.subrange(bounds.0, bounds.1),
        forall|i: int| 0 <= i < bounds.0 ==> white_space(#[trigger] s[i]),
        forall|i: int| bounds.1 <= i < s.len() ==> white_space(#[trigger] s[i]),
        trimmed(s).len() > 0 ==> !white_space(trimmed(s).first()) && !white_space(
            trimmed(s).last(),
        ),
{
    let a = lemma_trim_start_begins(s);
    let t = s.subrange(a, s.len() as int);
    let c = lemma_trim_end_ends(t);
    assert(t.subrange(0, c) =~= s.subrange(a, a + c));
    assert forall|i: int| a + c <= i < s.len() implies white_space(#[trigger] s[i]) by {
        assert(s[i] == t[i - a]);
    }
    if c > 0 {
        assert(t[c - 1] == s[a + c - 1]);
        assert(t[0] == s[a]);
    }
    (a, a + c)
}

/// Trimming what is trimmed changes nothing.
pub proof fn law_trimmed_twice(s: Seq<char>)
    ensures
        trimmed(trimmed(s)) == trimmed(s),
{
    let t = trimmed(s);
    law_trimmed_is_the_bare_middle(s);
    lemma_trim_start(t, 0);
    assert(t.subrange(0, t.len() as int) =~= t);
    lemma_trim_end(t, t.len() as int);
}

/// The bounds of `trimmed(chars@)` within `chars`.
fn trim_bounds(chars: &Vec<char>) -> (r: (usize, usize))
    ensures
        r.0 <= r.1 <= chars.len(),
        trimmed(chars@) == chars@.subrange(r.0 as int, r.1 as int),
{
    let n = chars.len();
    let mut a: usize = 0;
    while a < n && is_white_space(chars[a])
        invariant
            a <= n,
            n == chars.len(),
            forall|i: int| 0 <= i < a ==> white_space(#[trigger] chars@[i]),
        decreases n - a,
    {
        a += 1;
    }
    let mut b: usize = n;
    while b > a && is_white_space(chars[b - 1])
        invariant
            a <= b <= n,
            n == chars.len(),
            forall|i: int| b <= i < n ==> white_space(#[trigger] chars@[i]),
        decreases b,
    {
        b -= 1;
    }
    proof {
        let s = chars@;
        lemma_trim_start(s, a as int);
        let t = s.subrange(a as int, n as int);
        assert forall|i: int| b - a <= i < t.len() implies white_space(#[trigger] t[i]) by {
            assert(t[i] == s[i + a]);
        }
        lemma_trim_end(t, b - a);
        assert(t.subrange(0, b - a) =~= s.subrange(a as int, b as int));
    }
    (a, b)
}

/// The place of the first space in `chars[from..to]`, or `to` where there is
/// none.
fn first_space(chars: &Vec<char>, from: usize, to: usize) -> (p: usize)
    requires
        from <= to <= chars.len(),
    ensures
        from <= p <= to,
        forall|i: int| from <= i < p ==> chars@[i] != ' ',
        p < to ==> chars@[p as int] == ' ',
{
    let mut p: usize = from;
    while p < to && chars[p] != ' '
        invariant
            from <= p <= to <= chars.len(),
            forall|i: int| from <= i < p ==> chars@[i] != ' ',
        decreases to - p,
    {
        p += 1;
    }
    p
}

proof fn lemma_split(s: Seq<char>, p: int)
    requires
        0 <= p <= s.len(),
        forall|i: int| 0 <= i < p ==> s[i] != ' ',
        p < s.len() ==> s[p] == ' ',
    ensures
        split_at_first_space(s) == if p < s.len() {
            (s.subrange(0, p), s.subrange(p + 1, s.len() as int))
        } else {
            (s, Seq::<char>::empty())
        },
{
    s.index_of_first_ensures(' ');
    if p < s.len() {
        assert(s.contains(' '));
        let q = s.index_of_first(' ').unwrap();
        if q < p {
            assert(s[q] != ' ');
        }
        if p < q {
            assert(s[p] != ' ');
        }
    } else {
        if s.contains(' ') {
            let q = s.index_of_first(' ').unwrap();
            assert(s[q] != ' ');
        }
    }
}

/// Whether `chars[from..to]` spells `word`.
fn spells(chars: &Vec<char>, from: usize, to: usize, word: &str) -> (r: bool)
    requires
        from <= to <= chars.len(),
    ensures
        r == (chars@.subrange(from as int, to as int) == word@),
{
    let w = chars_of(word);
    let len = to - from;
    if w.len() != len {
        return false;
    }
    let mut i: usize = 0;
    while i < len
        invariant
            i <= len,
            len == to - from,
            from <= to <= chars.len(),
            w.len() == len,
            w@ == word@,
            forall|j: int| 0 <= j < i ==> chars@[from + j] == w@[j],
        decreases len - i,
    {
        if chars[from + i] != w[i] {
            proof {
                assert(chars@.subrange(from as int, to as int)[i as int] != word@[i as int]);
            }
            return false;
        }
        i += 1;
    }
    proof {
        assert(chars@.subrange(from as int, to as int) =~= word@);
    }
    true
}

/// The token that `chars[from..to]` spells.
fn token_at(chars: &Vec<char>, from: usize, to: usize) -> (t: HelperToken)
    requires
        from <= to <= chars.len(),
    ensures
        t == token_of(chars@.subrange(from as int, to as int)),
{
    if spells(chars, from, to, "PAM_PROMPT_ECHO_OFF") {
        HelperToken::PromptEchoOff
    } else if spells(chars, from, to, "PAM_PROMPT_ECHO_ON") {
        HelperToken::PromptEchoOn
    } else if spells(chars, from, to, "PAM_ERROR_MSG") {
        HelperToken::ErrorMsg
    } else if spells(chars, from, to, "PAM_TEXT_INFO") {
        HelperToken::TextInfo
    } else if spells(chars, from, to, "SUCCESS") {
        HelperToken::Success
    } else if spells(chars, from, to, "FAILURE") {
        HelperToken::Failure
    } else {
        HelperToken::Unknown
    }
}

/// Takes one line of the helper's output apart: trims it, splits it at its
/// first space, and reads the first part as a token.
pub fn parse_helper_line(line: &str) -> (r: HelperLine)
    ensures
        r.token == parsed(line@).0,
        r.message@ == parsed(line@).1,
{
    let chars = chars_of(line);
    let (a, b) = trim_bounds(&chars);
    let p = first_space(&chars, a, b);
    proof {
        let t = chars@.subrange(a as int, b as int);
        assert forall|i: int| 0 <= i < p - a implies t[i] != ' ' by {
            assert(t[i] == chars@[a + i]);
        }
        lemma_split(t, p - a);
        assert(t.subrange(0, p - a) =~= chars@.subrange(a as int, p as int));
        if p < b {
            assert(t.subrange(p - a + 1, t.len() as int) =~= chars@.subrange(p + 1, b as int));
        }
    }
    let token = token_at(&chars, a, p);
    let message = if p < b {
        line.substring_char(p + 1, b).to_owned()
    } else {
        String::new()
    };
    HelperLine { token, message }
}

/// Decides what the conversation does after reading `line` from the helper;
/// `None` stands for the end of the helper's output, which fails the attempt.
pub fn handle_helper_line(line: Option<&str>) -> (r: Result<LineStep, PolkitError>)
    ensures
        r == line_step(
            match line {
                Some(text) => Some(text@),
                None => None,
            },
        ),
{
    match line {
        None => Err(PolkitError::Failed),
        Some(text) => {
            let parsed = parse_helper_line(text);
            match parsed.token {
                HelperToken::PromptEchoOff => Ok(LineStep::Prompt),
                HelperToken::PromptEchoOn => Err(PolkitError::Failed),
                HelperToken::ErrorMsg => Ok(LineStep::Continue),
                HelperToken::TextInfo => Ok(LineStep::Continue),
                HelperToken::Success => Ok(LineStep::Stop),
                HelperToken::Failure => Err(PolkitError::Failed),
                HelperToken::Unknown => Ok(LineStep::Continue),
            }
        },
    }
}

/// The line that hands `text` to the helper: `text` and a line feed. The
/// cookie goes out this way, and every credential after it.
pub fn helper_input(text: &str) -> (r: String)
    ensures
        r@ == text@.push('\n'),
{
    let mut line = text.to_owned();
    line.append("\n");
    proof {
        reveal_strlit("\n");
        assert("\n"@ =~= seq!['\n']);
        assert(text@ + seq!['\n'] =~= text@.push('\n'));
    }
    line
}

} // verus!
