//! The console's command language.
//!
//! A line is one of three things. `stun:` followed by a name asks for a
//! discovery probe of that server. `turn:` followed by a server, a user name
//! and a password asks to move the session onto that relay. Any other line
//! names a peer and is itself the payload sent to it.
use vstd::prelude::*;
use vstd::string::*;
use crate::Failure;

verus! {

/// What a console line asks for.
#[derive(Debug, PartialEq, Eq)]
pub enum Command {
    /// Send a discovery request to `target`.
    Probe { target: String },
    /// Move the session onto the relay at `server`.
    RelaySwitch { server: String, username: String, password: String },
    /// Send `payload` to `target`.
    RawSend { target: String, payload: Vec<u8> },
}

/// What a [`Command`] stands for in contracts.
pub enum CommandView {
    Probe { target: Seq<char> },
    RelaySwitch { server: Seq<char>, username: Seq<char>, password: Seq<char> },
    RawSend { target: Seq<char>, payload: Seq<u8> },
}

impl View for Command {
    type V = CommandView;

    open spec fn view(&self) -> CommandView {
        match self {
            Command::Probe { target } => CommandView::Probe { target: target@ },
            Command::RelaySwitch { server, username, password } => CommandView::RelaySwitch {
                server: server@,
                username: username@,
                password: password@,
            },
            Command::RawSend { target, payload } => CommandView::RawSend {
                target: target@,
                payload: payload@,
            },
        }
    }
}

/// Whether `c` is white space: a character with the Unicode property
/// White_Space.
pub open spec fn is_space(c: char) -> bool {
    let n = c as u32;
    ||| 0x09 <= n <= 0x0D
    ||| n == 0x20
    ||| n == 0x85
    ||| n == 0xA0
    ||| n == 0x1680
    ||| 0x2000 <= n <= 0x200A
    ||| n == 0x2028
    ||| n == 0x2029
    ||| n == 0x202F
    ||| n == 0x205F
    ||| n == 0x3000
}

/// The first position at or after `i` that holds no white space, or the
/// length of `s` if there is none.
pub open spec fn skip_spaces(s: Seq<char>, i: int) -> int
    decreases s.len() - i,
{
    if 0 <= i < s.len() && is_space(s[i]) {
        skip_spaces(s, i + 1)
    } else {
        i
    }
}

/// The first position at or after `i` that holds white space, or the length
/// of `s` if there is none.
pub open spec fn skip_word(s: Seq<char>, i: int) -> int
    decreases s.len() - i,
{
    if 0 <= i < s.len() && !is_space(s[i]) {
        skip_word(s, i + 1)
    } else {
        i
    }
}

/// The end of `s[..j]` once the white space at its end is taken off.
pub open spec fn skip_back(s: Seq<char>, j: int) -> int
    decreases j,
{
    if 0 < j <= s.len() && is_space(s[j - 1]) {
        skip_back(s, j - 1)
    } else {
        j
    }
}

/// `s` without the white space at its start and at its end.
pub open spec fn trimmed(s: Seq<char>) -> Seq<char> {
    let from = skip_spaces(s, 0);
    let to = skip_back(s, s.len() as int);
    if from < to {
        s.subrange(from, to)
    } else {
        Seq::empty()
    }
}

/// The words of `s` from position `i` on: the maximal runs of characters
/// that are not white space, in their order.
pub open spec fn words_from(s: Seq<char>, i: int) -> Seq<Seq<char>>
    decreases s.len() - i,
{
    let from = skip_spaces(s, i);
    if 0 <= i && from < s.len() {
        let to = skip_word(s, from);
        proof {
            lemma_skip_spaces(s, i);
            lemma_skip_word(s, from);
        }
        seq![s.subrange(from, to)] + words_from(s, to)
    } else {
        Seq::empty()
    }
}

/// The words of `s`.
pub open spec fn words(s: Seq<char>) -> Seq<Seq<char>> {
    words_from(s, 0)
}

/// Whether `s` starts with `prefix`.
pub open spec fn has_prefix(s: Seq<char>, prefix: Seq<char>) -> bool {
    prefix.len() <= s.len() && s.subrange(0, prefix.len() as int) == prefix
}

/// The prefix of a discovery probe, `stun:`.
pub open spec fn probe_prefix() -> Seq<char> {
    seq!['s', 't', 'u', 'n', ':']
}

/// The prefix of a relay switch, `turn:`.
pub open spec fn relay_prefix() -> Seq<char> {
    seq!['t', 'u', 'r', 'n', ':']
}

/// The command that `line` stands for, or `None` where it is a relay switch
/// without exactly a server, a user name and a password.
///
/// The line is judged without the white space around it. The payload of a raw
/// send is the whole line as it was typed, in UTF-8.
pub open spec fn parse(line: Seq<char>) -> Option<CommandView> {
    let text = trimmed(line);
    if has_prefix(text, probe_prefix()) {
        Some(CommandView::Probe { target: trimmed(text.skip(5)) })
    } else if has_prefix(text, relay_prefix()) {
        let w = words(text.skip(5));
        if w.len() == 3 {
            Some(CommandView::RelaySwitch { server: w[0], username: w[1], password: w[2] })
        } else {
            None
        }
    } else {
        Some(CommandView::RawSend { target: text, payload: vstd::utf8::encode_utf8(line) })
    }
}

/// `skip_spaces` moves forward, stays inside `s`, passes only white space and
/// stops before the first other character.
pub proof fn lemma_skip_spaces(s: Seq<char>, i: int)
    requires
        0 <= i <= s.len(),
    ensures
        i <= skip_spaces(s, i) <= s.len(),
        forall|k: int| i <= k < skip_spaces(s, i) ==> is_space(#[trigger] s[k]),
        skip_spaces(s, i) < s.len() ==> !is_space(s[skip_spaces(s, i)]),
    decreases s.len() - i,
{
    if i < s.len() && is_space(s[i]) {
        lemma_skip_spaces(s, i + 1);
    }
}

/// `skip_word` moves forward, stays inside `s`, passes no white space and
/// stops before the first white space.
pub proof fn lemma_skip_word(s: Seq<char>, i: int)
    requires
        0 <= i <= s.len(),
    ensures
        i <= skip_word(s, i) <= s.len(),
        i < s.len() && !is_space(s[i]) ==> i < skip_word(s, i),
        forall|k: int| i <= k < skip_word(s, i) ==> !is_space(#[trigger] s[k]),
        skip_word(s, i) < s.len() ==> is_space(s[skip_word(s, i)]),
    decreases s.len() - i,
{
    if i < s.len() && !is_space(s[i]) {
        lemma_skip_word(s, i + 1);
    }
}

/// `skip_back` moves backward, stays inside `s`, passes only white space and
/// stops behind the last other character.
pub proof fn lemma_skip_back(s: Seq<char>, j: int)
    requires
        0 <= j <= s.len(),
    ensures
        0 <= skip_back(s, j) <= j,
        forall|k: int| skip_back(s, j) <= k < j ==> is_space(#[trigger] s[k]),
        0 < skip_back(s, j) ==> !is_space(s[skip_back(s, j) - 1]),
    decreases j,
{
    if 0 < j && is_space(s[j - 1]) {
        lemma_skip_back(s, j - 1);
    }
}

/// Trimming takes off white space and nothing else: what is left is a part of
/// `s` with only white space before and behind it, and it neither starts nor
/// ends with white space.
pub proof fn trimmed_is_the_core(s: Seq<char>)
    ensures
        exists|from: int, to: int|
            {
                &&& 0 <= from <= to <= s.len()
                &&& #[trigger] s.subrange(from, to) == trimmed(s)
                &&& forall|k: int| 0 <= k < from || to <= k < s.len() ==> is_space(#[trigger] s[k])
            },
        trimmed(s).len() > 0 ==> !is_space(trimmed(s).first()) && !is_space(trimmed(s).last()),
{
    let from = skip_spaces(s, 0);
    let to = skip_back(s, s.len() as int);
    lemma_skip_spaces(s, 0);
    lemma_skip_back(s, s.len() as int);
    if from < to {
        assert(s.subrange(from, to) == trimmed(s));
        assert(trimmed(s).first() == s[from]);
        assert(trimmed(s).last() == s[to - 1]);
    } else {
        // All of `s` is white space: the two scans have met or crossed, and
        // the empty part at `from` is what is left.
        assert(s.subrange(from, from) =~= trimmed(s));
    }
}

/// Every word is a run of characters that are not white space, and is not
/// empty.
pub proof fn words_hold_no_space(s: Seq<char>, i: int)
    requires
        0 <= i <= s.len(),
    ensures
        forall|n: int, k: int|
            0 <= n < words_from(s, i).len() && 0 <= k < words_from(s, i)[n].len() ==> !is_space(
                #[trigger] words_from(s, i)[n][k],
            ),
        forall|n: int| 0 <= n < words_from(s, i).len() ==> (#[trigger] words_from(s, i)[n]).len() > 0,
    decreases s.len() - i,
{
    let from = skip_spaces(s, i);
    lemma_skip_spaces(s, i);
    if from < s.len() {
        let to = skip_word(s, from);
        lemma_skip_word(s, from);
        words_hold_no_space(s, to);
        // The first word is `s[from..to]`; the others are the words from `to` on.
        let first = s.subrange(from, to);
        let rest = words_from(s, to);
        assert(words_from(s, i) == seq![first] + rest);
        assert forall|n: int| 0 < n < words_from(s, i).len() implies #[trigger] words_from(s, i)[n]
            == rest[n - 1] by {}
    }
}

/// Whether `c` is white space.
pub fn is_whitespace(c: char) -> (b: bool)
    ensures
        b == is_space(c),
{
    let n: u32 = c as u32;
    (0x09 <= n && n <= 0x0D) || n == 0x20 || n == 0x85 || n == 0xA0 || n == 0x1680 || (0x2000 <= n
        && n <= 0x200A) || n == 0x2028 || n == 0x2029 || n == 0x202F || n == 0x205F || n == 0x3000
}

/// The characters of `s`, one by one.
fn chars_of(s: &str) -> (v: Vec<char>)
    ensures
        v@ == s@,
{
    let mut v: Vec<char> = Vec::new();
    for c in it: s.chars()
        invariant
            v@ == it.seq().take(it.index() as int),
            it.seq() == s@,
    {
        v.push(c);
    }
    v
}

/// Position of the first character of `s` at or after `i` that is no white
/// space.
fn scan_spaces(s: &Vec<char>, i: usize) -> (j: usize)
    requires
        i <= s.len(),
    ensures
        j == skip_spaces(s@, i as int),
        i <= j <= s.len(),
{
    let mut j: usize = i;
    while j < s.len() && is_whitespace(s[j])
        invariant
            i <= j <= s.len(),
            skip_spaces(s@, i as int) == skip_spaces(s@, j as int),
        decreases s.len() - j,
    {
        j += 1;
    }
    j
}

/// Position of the first white space of `s` at or after `i`.
fn scan_word(s: &Vec<char>, i: usize) -> (j: usize)
    requires
        i <= s.len(),
    ensures
        j == skip_word(s@, i as int),
        i <= j <= s.len(),
{
    let mut j: usize = i;
    while j < s.len() && !is_whitespace(s[j])
        invariant
            i <= j <= s.len(),
            skip_word(s@, i as int) == skip_word(s@, j as int),
        decreases s.len() - j,
    {
        j += 1;
    }
    j
}

/// End of `s[..i]` once the white space at its end is taken off.
fn scan_back(s: &Vec<char>, i: usize) -> (j: usize)
    requires
        i <= s.len(),
    ensures
        j == skip_back(s@, i as int),
        j <= i,
{
    let mut j: usize = i;
    while j > 0 && is_whitespace(s[j - 1])
        invariant
            j <= i <= s.len(),
            skip_back(s@, i as int) == skip_back(s@, j as int),
        decreases j,
    {
        j -= 1;
    }
    j
}

/// `s` without the white space at its start and at its end.
pub fn trim(s: &str) -> (t: &str)
    ensures
        t@ == trimmed(s@),
{
    let chars = chars_of(s);
    let from = scan_spaces(&chars, 0);
    let to = scan_back(&chars, chars.len());
    if from < to {
        s.substring_char(from, to)
    } else {
        s.substring_char(0, 0)
    }
}

/// Whether `s` starts with `prefix`.
fn starts_with(s: &str, prefix: &str) -> (b: bool)
    ensures
        b == has_prefix(s@, prefix@),
{
    let n = s.unicode_len();
    let m = prefix.unicode_len();
    if m > n {
        return false;
    }
    let mut k: usize = 0;
    while k < m
        invariant
            n == s@.len(),
            m == prefix@.len(),
            k <= m <= n,
            forall|i: int| 0 <= i < k ==> s@[i] == prefix@[i],
        decreases m - k,
    {
        if s.get_char(k) != prefix.get_char(k) {
            assert(s@.subrange(0, m as int)[k as int] != prefix@[k as int]);
            return false;
        }
        k += 1;
    }
    assert(s@.subrange(0, m as int) =~= prefix@);
    true
}

/// The three words of `s` if it has exactly three, in their order.
fn three_words(s: &str) -> (r: Option<(String, String, String)>)
    ensures
        match r {
            Some((a, b, c)) => words(s@) == seq![a@, b@, c@],
            None => words(s@).len() != 3,
        },
{
    let chars = chars_of(s);
    let n = chars.len();
    let a0 = scan_spaces(&chars, 0);
    if a0 >= n {
        return None;
    }
    let a1 = scan_word(&chars, a0);
    let b0 = scan_spaces(&chars, a1);
    if b0 >= n {
        assert(words_from(s@, a1 as int).len() == 0);
        return None;
    }
    let b1 = scan_word(&chars, b0);
    let c0 = scan_spaces(&chars, b1);
    if c0 >= n {
        assert(words_from(s@, b1 as int).len() == 0);
        assert(words_from(s@, a1 as int).len() == 1);
        return None;
    }
    let c1 = scan_word(&chars, c0);
    let d0 = scan_spaces(&chars, c1);
    assert(words_from(s@, b1 as int) == seq![s@.subrange(c0 as int, c1 as int)] + words_from(
        s@,
        c1 as int,
    ));
    assert(words_from(s@, a1 as int) == seq![s@.subrange(b0 as int, b1 as int)] + words_from(
        s@,
        b1 as int,
    ));
    if d0 < n {
        assert(words_from(s@, c1 as int).len() >= 1);
        return None;
    }
    assert(words_from(s@, c1 as int).len() == 0);
    let a = s.substring_char(a0, a1).to_owned();
    let b = s.substring_char(b0, b1).to_owned();
    let c = s.substring_char(c0, c1).to_owned();
    assert(words(s@) =~= seq![a@, b@, c@]);
    Some((a, b, c))
}

/// Reads a console line as a command.
///
/// Fails exactly on a relay switch that does not give a server, a user name
/// and a password, and on nothing else.
pub fn parse_command(line: &str) -> (r: Result<Command, Failure>)
    ensures
        match parse(line@) {
            Some(c) => r is Ok && r->Ok_0@ == c,
            None => r == Err::<Command, Failure>(Failure::CommandSyntax),
        },
{
    let text = trim(line);
    let n = text.unicode_len();
    proof {
        reveal_strlit("stun:");
        reveal_strlit("turn:");
        assert("stun:"@ =~= probe_prefix());
        assert("turn:"@ =~= relay_prefix());
    }
    if starts_with(text, "stun:") {
        let rest = text.substring_char(5, n);
        let target = trim(rest).to_owned();
        Ok(Command::Probe { target })
    } else if starts_with(text, "turn:") {
        let rest = text.substring_char(5, n);
        match three_words(rest) {
            Some((server, username, password)) => Ok(
                Command::RelaySwitch { server, username, password },
            ),
            None => Err(Failure::CommandSyntax),
        }
    } else {
        Ok(Command::RawSend { target: text.to_owned(), payload: line.as_bytes_vec() })
    }
}

} // verus!
