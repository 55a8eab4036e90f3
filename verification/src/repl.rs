//! The interactive shell's command grammar.
//!
//! A line is a `;`-separated chain of commands, each optionally prefixed with
//! a decimal repeat count. A command is one of the fixed words — `help`,
//! `connect [secs]`, `reset`, `send_event`, `commit <id>`, `sleep <secs>`,
//! `read_action`, `close`, `exit` — or empty, or unknown. The shell itself
//! only reads lines, runs the parsed commands against the connection, and
//! prints; every decision about what a line means is made here.

use vstd::prelude::*;
use vstd::string::StrSliceExecFns;

verus! {

/// Whitespace, as far as the grammar is concerned.
pub open spec fn is_ws_char(c: char) -> bool {
    c == ' ' || c == '\t' || c == '\n' || c == '\r'
}

/// A decimal digit.
pub open spec fn is_digit_char(c: char) -> bool {
    48 <= c as u32 <= 57
}

/// The value of a decimal digit.
pub open spec fn digit_val(c: char) -> int {
    c as u32 - 48
}

/// Whether every character is a decimal digit.
pub open spec fn all_digits(s: Seq<char>) -> bool {
    forall|k: int| 0 <= k < s.len() ==> is_digit_char(s[k])
}

/// The number a sequence of decimal digits denotes.
pub open spec fn dec_value(s: Seq<char>) -> int
    decreases s.len(),
{
    if s.len() == 0 {
        0
    } else {
        dec_value(s.drop_last()) * 10 + digit_val(s.last())
    }
}

/// The index of the first character satisfying `p`, or the length when none
/// does.
pub open spec fn first_where(s: Seq<char>, p: spec_fn(char) -> bool) -> int
    decreases s.len(),
{
    if s.len() == 0 {
        0
    } else if p(s[0]) {
        0
    } else {
        1 + first_where(s.skip(1), p)
    }
}

/// What `first_where` finds: the least index satisfying `p`, or the length.
pub proof fn lemma_first_where(s: Seq<char>, p: spec_fn(char) -> bool)
    ensures
        0 <= first_where(s, p) <= s.len(),
        forall|k: int| 0 <= k < first_where(s, p) ==> !p(s[k]),
        first_where(s, p) < s.len() ==> p(s[first_where(s, p)]),
    decreases s.len(),
{
    if s.len() != 0 && !p(s[0]) {
        lemma_first_where(s.skip(1), p);
        assert forall|k: int| 0 <= k < first_where(s, p) implies !p(s[k]) by {
            if k >= 1 {
                assert(s.skip(1)[k - 1] == s[k]);
            }
        }
        assert(first_where(s, p) < s.len() ==> s.skip(1)[first_where(s, p) - 1] == s[first_where(
            s,
            p,
        )]);
    }
}

/// An index with `first_where`'s characterization is `first_where`.
pub proof fn lemma_first_where_is(s: Seq<char>, p: spec_fn(char) -> bool, i: int)
    requires
        0 <= i <= s.len(),
        forall|k: int| 0 <= k < i ==> !p(s[k]),
        i < s.len() ==> p(s[i]),
    ensures
        first_where(s, p) == i,
{
    lemma_first_where(s, p);
}

/// The input with leading whitespace dropped.
pub open spec fn trim_front(s: Seq<char>) -> Seq<char> {
    s.skip(first_where(s, |c: char| !is_ws_char(c)))
}

/// The input with trailing whitespace dropped.
pub open spec fn trim_back(s: Seq<char>) -> Seq<char>
    decreases s.len(),
{
    if s.len() > 0 && is_ws_char(s[s.len() - 1]) {
        trim_back(s.take(s.len() - 1))
    } else {
        s
    }
}

/// The input with leading and trailing whitespace dropped.
pub open spec fn spec_trim(s: Seq<char>) -> Seq<char> {
    trim_back(trim_front(s))
}

/// `trim_back` keeps exactly the prefix up to the last non-whitespace
/// character.
pub proof fn lemma_trim_back_is(s: Seq<char>, j: int)
    requires
        0 <= j <= s.len(),
        forall|k: int| j <= k < s.len() ==> is_ws_char(s[k]),
        j > 0 ==> !is_ws_char(s[j - 1]),
    ensures
        trim_back(s) == s.take(j),
    decreases s.len(),
{
    if s.len() > 0 && is_ws_char(s[s.len() - 1]) {
        assert(j < s.len());
        let t = s.take(s.len() - 1);
        assert(forall|k: int| j <= k < t.len() ==> t[k] == s[k]);
        lemma_trim_back_is(t, j);
        assert(t.take(j) =~= s.take(j));
    } else {
        assert(j == s.len());
        assert(s.take(j) =~= s);
    }
}

/// Whether `c` is grammar whitespace.
pub fn is_ws(c: char) -> (r: bool)
    ensures
        r == is_ws_char(c),
{
    c == ' ' || c == '\t' || c == '\n' || c == '\r'
}

/// The index of the first non-whitespace character, or the length.
fn find_non_ws(s: &str) -> (i: usize)
    ensures
        i == first_where(s@, |c: char| !is_ws_char(c)),
{
    let n = s.unicode_len();
    let mut i: usize = 0;
    while i < n
        invariant
            0 <= i <= n,
            n == s@.len(),
            forall|k: int| 0 <= k < i ==> is_ws_char(s@[k]),
        decreases n - i,
    {
        let c = s.get_char(i);
        if !is_ws(c) {
            proof {
                lemma_first_where_is(s@, |c: char| !is_ws_char(c), i as int);
            }
            return i;
        }
        i = i + 1;
    }
    proof {
        lemma_first_where_is(s@, |c: char| !is_ws_char(c), n as int);
    }
    n
}

/// The index of the first whitespace character, or the length.
fn find_ws(s: &str) -> (i: usize)
    ensures
        i == first_where(s@, |c: char| is_ws_char(c)),
{
    let n = s.unicode_len();
    let mut i: usize = 0;
    while i < n
        invariant
            0 <= i <= n,
            n == s@.len(),
            forall|k: int| 0 <= k < i ==> !is_ws_char(s@[k]),
        decreases n - i,
    {
        let c = s.get_char(i);
        if is_ws(c) {
            proof {
                lemma_first_where_is(s@, |c: char| is_ws_char(c), i as int);
            }
            return i;
        }
        i = i + 1;
    }
    proof {
        lemma_first_where_is(s@, |c: char| is_ws_char(c), n as int);
    }
    n
}

/// The index of the first `;`, or the length.
fn find_semi(s: &str) -> (i: usize)
    ensures
        i == first_where(s@, |c: char| c == ';'),
{
    let n = s.unicode_len();
    let mut i: usize = 0;
    while i < n
        invariant
            0 <= i <= n,
            n == s@.len(),
            forall|k: int| 0 <= k < i ==> s@[k] != ';',
        decreases n - i,
    {
        let c = s.get_char(i);
        if c == ';' {
            proof {
                lemma_first_where_is(s@, |c: char| c == ';', i as int);
            }
            return i;
        }
        i = i + 1;
    }
    proof {
        lemma_first_where_is(s@, |c: char| c == ';', n as int);
    }
    n
}

/// Drop leading whitespace.
pub fn skip_ws<'a>(s: &'a str) -> (t: &'a str)
    ensures
        t@ == trim_front(s@),
{
    let n = s.unicode_len();
    let i = find_non_ws(s);
    proof {
        lemma_first_where(s@, |c: char| !is_ws_char(c));
    }
    let t = s.substring_char(i, n);
    proof {
        assert(t@ =~= s@.skip(i as int));
    }
    t
}

/// Drop leading and trailing whitespace.
pub fn trim_str<'a>(s: &'a str) -> (t: &'a str)
    ensures
        t@ == spec_trim(s@),
{
    let n = s.unicode_len();
    let i = find_non_ws(s);
    proof {
        lemma_first_where(s@, |c: char| !is_ws_char(c));
    }
    let mut j: usize = n;
    while j > i
        invariant_except_break
            i <= j <= n,
            n == s@.len(),
            forall|k: int| j <= k < n ==> is_ws_char(s@[k]),
        ensures
            i <= j <= n,
            n == s@.len(),
            forall|k: int| j <= k < n ==> is_ws_char(s@[k]),
            j > i ==> !is_ws_char(s@[j - 1]),
        decreases j,
    {
        let c = s.get_char(j - 1);
        if !is_ws(c) {
            break ;
        }
        j = j - 1;
    }
    let t = s.substring_char(i, j);
    proof {
        let f = trim_front(s@);
        assert(f =~= s@.subrange(i as int, n as int));
        if j > i {
            assert(!is_ws_char(s@[j - 1]));
            assert(forall|k: int| j - i <= k < f.len() ==> f[k] == s@[k + i]);
            lemma_trim_back_is(f, j - i);
        } else {
            assert(i == j);
            if i < n {
                assert(!is_ws_char(s@[i as int]));
                assert(false);
            }
            assert(f.len() == 0);
            lemma_trim_back_is(f, 0);
        }
        assert(t@ =~= f.take(j - i));
    }
    t
}

/// Whether two strings hold the same characters.
pub fn str_eq(a: &str, b: &str) -> (r: bool)
    ensures
        r == (a@ == b@),
{
    let n = a.unicode_len();
    let m = b.unicode_len();
    if n != m {
        return false;
    }
    let mut i: usize = 0;
    while i < n
        invariant
            0 <= i <= n,
            n == a@.len(),
            n == b@.len(),
            forall|k: int| 0 <= k < i ==> a@[k] == b@[k],
        decreases n - i,
    {
        if a.get_char(i) != b.get_char(i) {
            return false;
        }
        i = i + 1;
    }
    proof {
        assert(a@ =~= b@);
    }
    true
}

/// Whether `p` is a prefix of `s`.
pub open spec fn starts_with_spec(s: Seq<char>, p: Seq<char>) -> bool {
    p.len() <= s.len() && s.take(p.len() as int) == p
}

/// Whether `s` starts with `p`.
pub fn str_starts_with(s: &str, p: &str) -> (r: bool)
    ensures
        r == starts_with_spec(s@, p@),
{
    let n = s.unicode_len();
    let m = p.unicode_len();
    if m > n {
        return false;
    }
    let mut i: usize = 0;
    while i < m
        invariant
            0 <= i <= m <= n,
            n == s@.len(),
            m == p@.len(),
            forall|k: int| 0 <= k < i ==> s@[k] == p@[k],
        decreases m - i,
    {
        if s.get_char(i) != p.get_char(i) {
            assert(s@.take(m as int)[i as int] != p@[i as int]);
            return false;
        }
        i = i + 1;
    }
    proof {
        assert(s@.take(m as int) =~= p@);
    }
    true
}

/// Digit sequences denote non-negative numbers.
pub proof fn lemma_dec_value_nonneg(s: Seq<char>)
    requires
        all_digits(s),
    ensures
        dec_value(s) >= 0,
    decreases s.len(),
{
    if s.len() > 0 {
        assert(all_digits(s.drop_last()));
        lemma_dec_value_nonneg(s.drop_last());
    }
}

/// A digit sequence denotes at least what any of its prefixes denotes.
pub proof fn lemma_dec_value_prefix(s: Seq<char>, i: int)
    requires
        all_digits(s),
        0 <= i <= s.len(),
    ensures
        dec_value(s) >= dec_value(s.take(i)),
    decreases s.len() - i,
{
    if i == s.len() {
        assert(s.take(i) =~= s);
    } else {
        assert(s.take(i + 1).drop_last() =~= s.take(i));
        assert(s.take(i + 1).last() == s[i]);
        assert(all_digits(s.take(i)));
        lemma_dec_value_nonneg(s.take(i));
        assert(dec_value(s.take(i + 1)) == dec_value(s.take(i)) * 10 + digit_val(s[i]));
        lemma_dec_value_prefix(s, i + 1);
    }
}

/// Parse an unsigned decimal number. Defined exactly when the string is
/// nonempty, all digits, and its value fits in a `u64`.
pub fn parse_u64_dec(s: &str) -> (r: Option<u64>)
    ensures
        r is Some <==> (s@.len() > 0 && all_digits(s@) && dec_value(s@) <= u64::MAX),
        r matches Some(v) ==> v == dec_value(s@),
{
    let n = s.unicode_len();
    if n == 0 {
        return None;
    }
    let mut acc: u64 = 0;
    let mut i: usize = 0;
    while i < n
        invariant
            0 <= i <= n,
            n == s@.len(),
            all_digits(s@.take(i as int)),
            acc == dec_value(s@.take(i as int)),
        decreases n - i,
    {
        let c = s.get_char(i);
        let cv = c as u32;
        if cv < 48 || cv > 57 {
            assert(!is_digit_char(s@[i as int]));
            return None;
        }
        let d = (cv - 48) as u64;
        proof {
            assert(s@.take(i + 1).drop_last() =~= s@.take(i as int));
            assert(s@.take(i + 1).last() == s@[i as int]);
            assert(all_digits(s@.take(i + 1)));
        }
        if acc > (u64::MAX - d) / 10 {
            proof {
                vstd::arithmetic::div_mod::lemma_fundamental_div_mod((u64::MAX - d) as int, 10);
                assert(acc * 10 + d > u64::MAX);
                assert(dec_value(s@.take(i + 1)) == acc * 10 + digit_val(s@[i as int]));
                if all_digits(s@) {
                    lemma_dec_value_prefix(s@, i + 1);
                }
            }
            return None;
        }
        proof {
            vstd::arithmetic::div_mod::lemma_fundamental_div_mod((u64::MAX - d) as int, 10);
            assert(acc * 10 + d <= u64::MAX);
        }
        acc = acc * 10 + d;
        i = i + 1;
    }
    proof {
        assert(s@.take(n as int) =~= s@);
    }
    Some(acc)
}

/// Parse an unsigned decimal number that must fit in a `u32`.
pub fn parse_u32_dec(s: &str) -> (r: Option<u32>)
    ensures
        r is Some <==> (s@.len() > 0 && all_digits(s@) && dec_value(s@) <= u32::MAX),
        r matches Some(v) ==> v == dec_value(s@),
{
    match parse_u64_dec(s) {
        Some(v) => {
            if v <= 0xffff_ffff {
                Some(v as u32)
            } else {
                None
            }
        },
        None => None,
    }
}

/// The whitespace-separated words of the input, in order, each nonempty.
pub open spec fn tokens(s: Seq<char>) -> Seq<Seq<char>>
    decreases s.len(),
    via tokens_decreases
{
    let t = trim_front(s);
    if t.len() == 0 {
        Seq::empty()
    } else {
        let w = first_where(t, |c: char| is_ws_char(c));
        seq![t.take(w)] + tokens(t.skip(w))
    }
}

#[via_fn]
proof fn tokens_decreases(s: Seq<char>) {
    let t = trim_front(s);
    if t.len() != 0 {
        lemma_first_where(s, |c: char| !is_ws_char(c));
        lemma_first_where(t, |c: char| is_ws_char(c));
        let i0 = first_where(s, |c: char| !is_ws_char(c));
        let w = first_where(t, |c: char| is_ws_char(c));
        assert(t[0] == s[i0]);
        assert(!is_ws_char(t[0]));
        assert(w >= 1) by {
            if w == 0 {
                assert(is_ws_char(t[0]));
            }
        }
        assert(t.skip(w).len() < s.len());
    }
}

/// The words of the input.
pub fn all_tokens(s: &str) -> (ts: Vec<String>)
    ensures
        ts@.map_values(|t: String| t@) == tokens(s@),
    decreases s@.len(),
{
    let t = skip_ws(s);
    let n = t.unicode_len();
    if n == 0 {
        let ts: Vec<String> = Vec::new();
        proof {
            assert(ts@.map_values(|x: String| x@) =~= tokens(s@));
        }
        ts
    } else {
        let w = find_ws(t);
        proof {
            lemma_first_where(t@, |c: char| is_ws_char(c));
            lemma_first_where(s@, |c: char| !is_ws_char(c));
            assert(t@[0] == s@[first_where(s@, |c: char| !is_ws_char(c))]);
            assert(w >= 1) by {
                if w == 0 {
                    assert(is_ws_char(t@[0]));
                }
            }
        }
        let head = t.substring_char(0, w);
        let rest = t.substring_char(w, n);
        proof {
            assert(rest@ =~= t@.skip(w as int));
            assert(head@ =~= t@.take(w as int));
        }
        let mut ts: Vec<String> = Vec::new();
        ts.push(head.to_owned());
        let mut more = all_tokens(rest);
        ts.append(&mut more);
        proof {
            assert(ts@.map_values(|x: String| x@) =~= tokens(s@));
        }
        ts
    }
}

/// The `;`-separated pieces of the input, in order; separators are dropped
/// and empty pieces kept.
pub open spec fn split_semi(s: Seq<char>) -> Seq<Seq<char>>
    decreases s.len(),
    via split_semi_decreases
{
    let i = first_where(s, |c: char| c == ';');
    if i == s.len() {
        seq![s]
    } else {
        seq![s.take(i)] + split_semi(s.skip(i + 1))
    }
}

#[via_fn]
proof fn split_semi_decreases(s: Seq<char>) {
    lemma_first_where(s, |c: char| c == ';');
}

/// The `;`-separated pieces of a command line.
pub fn split_commands(line: &str) -> (parts: Vec<String>)
    ensures
        parts@.map_values(|p: String| p@) == split_semi(line@),
    decreases line@.len(),
{
    let n = line.unicode_len();
    let i = find_semi(line);
    proof {
        lemma_first_where(line@, |c: char| c == ';');
    }
    if i == n {
        let mut parts: Vec<String> = Vec::new();
        parts.push(line.to_owned());
        proof {
            assert(parts@.map_values(|p: String| p@) =~= split_semi(line@));
        }
        parts
    } else {
        let head = line.substring_char(0, i);
        let rest = line.substring_char(i + 1, n);
        proof {
            assert(head@ =~= line@.take(i as int));
            assert(rest@ =~= line@.skip(i + 1));
        }
        let mut parts: Vec<String> = Vec::new();
        parts.push(head.to_owned());
        let mut more = split_commands(rest);
        parts.append(&mut more);
        proof {
            assert(parts@.map_values(|p: String| p@) =~= split_semi(line@));
        }
        parts
    }
}

/// One shell command, parsed. `CommitInvalid` and `SleepInvalid` are commands
/// whose argument was not a number in range; the shell answers them with a
/// usage message.
#[derive(Clone, Copy, Debug, PartialEq, Eq)]
pub enum ReplCommand {
    Help,
    Connect(Option<u64>),
    Reset,
    SendEvent,
    Commit(u32),
    CommitInvalid,
    Sleep(u64),
    SleepInvalid,
    ReadAction,
    Close,
    Exit,
    Empty,
    Unknown,
}

/// The optional delay argument of `connect`: its second word, when that is a
/// number that fits in a `u64`; otherwise no delay.
pub open spec fn spec_connect_delay(t: Seq<char>) -> Option<u64> {
    let tk = tokens(t);
    if tk.len() >= 2 && tk[1].len() > 0 && all_digits(tk[1]) && dec_value(tk[1]) <= u64::MAX {
        Some(dec_value(tk[1]) as u64)
    } else {
        None
    }
}

/// The commit id of a `commit` command: its second word parsed as a `u32`,
/// rejected when it is not a number in range.
pub open spec fn spec_commit_command(t: Seq<char>) -> ReplCommand {
    let tk = tokens(t);
    if tk.len() >= 2 {
        if tk[1].len() > 0 && all_digits(tk[1]) && dec_value(tk[1]) <= u32::MAX {
            ReplCommand::Commit(dec_value(tk[1]) as u32)
        } else {
            ReplCommand::CommitInvalid
        }
    } else {
        ReplCommand::Commit(0)
    }
}

/// The duration of a `sleep` command: its second word parsed as a `u64`,
/// rejected when it is not a number in range.
pub open spec fn spec_sleep_command(t: Seq<char>) -> ReplCommand {
    let tk = tokens(t);
    if tk.len() >= 2 {
        if tk[1].len() > 0 && all_digits(tk[1]) && dec_value(tk[1]) <= u64::MAX {
            ReplCommand::Sleep(dec_value(tk[1]) as u64)
        } else {
            ReplCommand::SleepInvalid
        }
    } else {
        ReplCommand::Sleep(0)
    }
}

/// What one piece of a command line means. The input is trimmed; the first
/// matching rule, in this order, decides.
pub open spec fn spec_classify_command(s: Seq<char>) -> ReplCommand {
    let t = spec_trim(s);
    if t == "help"@ {
        ReplCommand::Help
    } else if starts_with_spec(t, "connect"@) {
        ReplCommand::Connect(spec_connect_delay(t))
    } else if t == "reset"@ {
        ReplCommand::Reset
    } else if t == "send_event"@ {
        ReplCommand::SendEvent
    } else if starts_with_spec(t, "commit "@) {
        spec_commit_command(t)
    } else if starts_with_spec(t, "sleep "@) {
        spec_sleep_command(t)
    } else if t == "read_action"@ {
        ReplCommand::ReadAction
    } else if t == "close"@ {
        ReplCommand::Close
    } else if t == "exit"@ {
        ReplCommand::Exit
    } else if t.len() == 0 {
        ReplCommand::Empty
    } else {
        ReplCommand::Unknown
    }
}

/// Parse one piece of a command line.
pub fn classify_command(s: &str) -> (c: ReplCommand)
    ensures
        c == spec_classify_command(s@),
{
    let t = trim_str(s);
    if str_eq(t, "help") {
        ReplCommand::Help
    } else if str_starts_with(t, "connect") {
        let tk = all_tokens(t);
        if tk.len() >= 2 {
            proof {
                assert(tk@.map_values(|x: String| x@)[1] == tokens(t@)[1]);
            }
            match parse_u64_dec(tk[1].as_str()) {
                Some(v) => ReplCommand::Connect(Some(v)),
                None => ReplCommand::Connect(None),
            }
        } else {
            ReplCommand::Connect(None)
        }
    } else if str_eq(t, "reset") {
        ReplCommand::Reset
    } else if str_eq(t, "send_event") {
        ReplCommand::SendEvent
    } else if str_starts_with(t, "commit ") {
        let tk = all_tokens(t);
        if tk.len() >= 2 {
            proof {
                assert(tk@.map_values(|x: String| x@)[1] == tokens(t@)[1]);
            }
            match parse_u32_dec(tk[1].as_str()) {
                Some(v) => ReplCommand::Commit(v),
                None => ReplCommand::CommitInvalid,
            }
        } else {
            ReplCommand::Commit(0)
        }
    } else if str_starts_with(t, "sleep ") {
        let tk = all_tokens(t);
        if tk.len() >= 2 {
            proof {
                assert(tk@.map_values(|x: String| x@)[1] == tokens(t@)[1]);
            }
            match parse_u64_dec(tk[1].as_str()) {
                Some(v) => ReplCommand::Sleep(v),
                None => ReplCommand::SleepInvalid,
            }
        } else {
            ReplCommand::Sleep(0)
        }
    } else if str_eq(t, "read_action") {
        ReplCommand::ReadAction
    } else if str_eq(t, "close") {
        ReplCommand::Close
    } else if str_eq(t, "exit") {
        ReplCommand::Exit
    } else if t.unicode_len() == 0 {
        ReplCommand::Empty
    } else {
        ReplCommand::Unknown
    }
}

/// A piece of a command line, split at its first space: the head word and,
/// when the space exists, everything after it.
pub open spec fn spec_split_first_space(s: Seq<char>) -> (Seq<char>, Option<Seq<char>>) {
    let i = first_where(s, |c: char| c == ' ');
    if i == s.len() {
        ((s), (None))
    } else {
        ((s.take(i)), (Some(s.skip(i + 1))))
    }
}

/// How often to run one piece of a command line, and what to run.
#[derive(Clone, Debug, PartialEq, Eq)]
pub enum RepeatParse {
    /// The piece began with a repeat count; run the rest that many times.
    Counted(u32, String),
    /// No repeat count; run the whole piece once.
    Single,
    /// A repeat count with nothing after it.
    MissingCommand,
}

/// Split one piece of a command line into its repeat count and the command to
/// repeat. A piece whose first space-separated word is a number in `u32`
/// range repeats the rest that many times; a bare number is an error; any
/// other piece runs once as it stands.
pub fn parse_repeat(cmd: &str) -> (r: RepeatParse)
    ensures
        ({
            let (head, tail) = spec_split_first_space(spec_trim(cmd@));
            let counted = head.len() > 0 && all_digits(head) && dec_value(head) <= u32::MAX;
            &&& (counted && tail is None ==> r == RepeatParse::MissingCommand)
            &&& (counted && tail is Some ==> (r matches RepeatParse::Counted(c, s) && c
                == dec_value(head) && s@ == tail->0))
            &&& (!counted ==> r == RepeatParse::Single)
        }),
{
    let t = trim_str(cmd);
    let n = t.unicode_len();
    let i = find_first_space(t);
    proof {
        lemma_first_where(t@, |c: char| c == ' ');
    }
    if i == n {
        match parse_u32_dec(t) {
            Some(_) => RepeatParse::MissingCommand,
            None => RepeatParse::Single,
        }
    } else {
        let head = t.substring_char(0, i);
        proof {
            assert(head@ =~= t@.take(i as int));
        }
        match parse_u32_dec(head) {
            Some(count) => {
                let rest = t.substring_char(i + 1, n);
                proof {
                    assert(rest@ =~= t@.skip(i + 1));
                }
                RepeatParse::Counted(count, rest.to_owned())
            },
            None => RepeatParse::Single,
        }
    }
}

/// The index of the first space, or the length.
fn find_first_space(s: &str) -> (i: usize)
    ensures
        i == first_where(s@, |c: char| c == ' '),
{
    let n = s.unicode_len();
    let mut i: usize = 0;
    while i < n
        invariant
            0 <= i <= n,
            n == s@.len(),
            forall|k: int| 0 <= k < i ==> s@[k] != ' ',
        decreases n - i,
    {
        let c = s.get_char(i);
        if c == ' ' {
            proof {
                lemma_first_where_is(s@, |c: char| c == ' ', i as int);
            }
            return i;
        }
        i = i + 1;
    }
    proof {
        lemma_first_where_is(s@, |c: char| c == ' ', n as int);
    }
    n
}

/// The shell's command words, in the order completion offers them.
pub open spec fn spec_commands() -> Seq<Seq<char>> {
    seq![
        "connect"@,
        "send_event"@,
        "commit"@,
        "read_action"@,
        "close"@,
        "sleep"@,
        "reset"@,
        "help"@,
        "exit"@,
    ]
}

/// The shell's command words.
pub fn commands() -> (cs: Vec<&'static str>)
    ensures
        cs@.map_values(|c: &'static str| c@) == spec_commands(),
{
    let mut cs: Vec<&'static str> = Vec::new();
    cs.push("connect");
    cs.push("send_event");
    cs.push("commit");
    cs.push("read_action");
    cs.push("close");
    cs.push("sleep");
    cs.push("reset");
    cs.push("help");
    cs.push("exit");
    proof {
        assert(cs@.map_values(|c: &'static str| c@) =~= spec_commands());
    }
    cs
}

/// Of the given command words, those that start with `w`, kept in order.
pub open spec fn matching_commands_spec(cs: Seq<Seq<char>>, w: Seq<char>) -> Seq<Seq<char>>
    decreases cs.len(),
{
    if cs.len() == 0 {
        Seq::empty()
    } else if starts_with_spec(cs[0], w) {
        seq![cs[0]] + matching_commands_spec(cs.skip(1), w)
    } else {
        matching_commands_spec(cs.skip(1), w)
    }
}

/// The command words from index `from` on that start with `w`.
fn matching_from(cs: &Vec<&'static str>, from: usize, w: &str) -> (ms: Vec<&'static str>)
    requires
        from <= cs@.len(),
    ensures
        ms@.map_values(|c: &'static str| c@) == matching_commands_spec(
            cs@.map_values(|c: &'static str| c@).skip(from as int),
            w@,
        ),
    decreases cs@.len() - from,
{
    let ghost views = cs@.map_values(|c: &'static str| c@);
    if from == cs.len() {
        let ms: Vec<&'static str> = Vec::new();
        proof {
            assert(views.skip(from as int) =~= Seq::<Seq<char>>::empty());
            assert(ms@.map_values(|c: &'static str| c@) =~= Seq::<Seq<char>>::empty());
        }
        ms
    } else {
        let mut rest = matching_from(cs, from + 1, w);
        proof {
            assert(views.skip(from as int).skip(1) =~= views.skip(from + 1));
            assert(views.skip(from as int)[0] == cs@[from as int]@);
        }
        if str_starts_with(cs[from], w) {
            let mut ms: Vec<&'static str> = Vec::new();
            ms.push(cs[from]);
            ms.append(&mut rest);
            proof {
                assert(ms@.map_values(|c: &'static str| c@) =~= seq![views.skip(from as int)[0]]
                    + matching_commands_spec(views.skip(from + 1), w@));
            }
            ms
        } else {
            rest
        }
    }
}

/// The command words that start with `w`, kept in the fixed order.
pub fn matching_commands(w: &str) -> (ms: Vec<&'static str>)
    ensures
        ms@.map_values(|c: &'static str| c@) == matching_commands_spec(spec_commands(), w@),
{
    let cs = commands();
    let ms = matching_from(&cs, 0, w);
    proof {
        assert(cs@.map_values(|c: &'static str| c@).skip(0) =~= spec_commands());
    }
    ms
}

/// Whether `w` occurs in `s` starting at position `p`.
pub open spec fn match_at_spec(s: Seq<char>, w: Seq<char>, p: int) -> bool {
    0 <= p && p + w.len() <= s.len() && s.subrange(p, p + w.len()) == w
}

/// Whether `w` occurs in `s` at position `p`.
fn match_at(s: &str, w: &str, p: usize) -> (r: bool)
    requires
        p + w@.len() <= s@.len(),
    ensures
        r == match_at_spec(s@, w@, p as int),
{
    let m = w.unicode_len();
    let sn = s.unicode_len();
    let mut i: usize = 0;
    while i < m
        invariant
            0 <= i <= m,
            m == w@.len(),
            sn == s@.len(),
            p + m <= sn,
            forall|k: int| 0 <= k < i ==> s@[p + k] == w@[k],
        decreases m - i,
    {
        if s.get_char(p + i) != w.get_char(i) {
            assert(s@.subrange(p as int, p + m) != w@) by {
                assert(s@.subrange(p as int, p + m)[i as int] != w@[i as int]);
            }
            return false;
        }
        i = i + 1;
    }
    proof {
        assert(s@.subrange(p as int, p + m) =~= w@);
    }
    true
}

/// The last position at or below `q - 1` where `w` occurs in `s`, or -1 when
/// none.
pub open spec fn rfind_from(s: Seq<char>, w: Seq<char>, p: int) -> int
    decreases p + 1,
{
    if p < 0 {
        -1
    } else if match_at_spec(s, w, p) {
        p
    } else {
        rfind_from(s, w, p - 1)
    }
}

/// The last position where `w` occurs in `s`, or -1 when it never does.
pub open spec fn spec_rfind(s: Seq<char>, w: Seq<char>) -> int {
    if w.len() > s.len() {
        -1
    } else {
        rfind_from(s, w, s.len() - w.len())
    }
}

/// Search positions `q - 1` down to 0 for the last occurrence of `w`.
fn rfind_down(s: &str, w: &str, q: usize) -> (r: Option<usize>)
    requires
        q as int - 1 + w@.len() <= s@.len(),
    ensures
        r is None ==> rfind_from(s@, w@, q as int - 1) == -1,
        r matches Some(i) ==> i == rfind_from(s@, w@, q as int - 1),
    decreases q,
{
    if q == 0 {
        None
    } else {
        let p = q - 1;
        if match_at(s, w, p) {
            Some(p)
        } else {
            rfind_down(s, w, p)
        }
    }
}

/// The last position where `w` occurs in `s`.
pub fn rfind_str(s: &str, w: &str) -> (r: Option<usize>)
    ensures
        r is None ==> spec_rfind(s@, w@) == -1,
        r matches Some(i) ==> i == spec_rfind(s@, w@),
{
    let n = s.unicode_len();
    let m = w.unicode_len();
    if m > n {
        None
    } else if m == 0 {
        proof {
            assert(s@.subrange(n as int, n as int) =~= w@);
            assert(match_at_spec(s@, w@, n as int));
        }
        Some(n)
    } else {
        rfind_down(s, w, n - m + 1)
    }
}

/// Whether every character of `s` is a decimal digit.
pub fn str_all_digits(s: &str) -> (b: bool)
    ensures
        b == all_digits(s@),
{
    let n = s.unicode_len();
    let mut i: usize = 0;
    while i < n
        invariant
            0 <= i <= n,
            n == s@.len(),
            forall|k: int| 0 <= k < i ==> is_digit_char(s@[k]),
        decreases n - i,
    {
        let c = s.get_char(i);
        let cv = c as u32;
        if cv < 48 || cv > 57 {
            assert(!is_digit_char(s@[i as int]));
            return false;
        }
        i = i + 1;
    }
    true
}

/// What completion offers for the text before the cursor.
#[derive(Clone, Debug, PartialEq, Eq)]
pub enum Completion {
    /// Nothing typed yet: offer every command, replacing from the start.
    AllCommands,
    /// A bare number at the end of the line: offer to append " connect".
    ConnectSuffix,
    /// A word being typed: offer the commands it begins, replacing from the
    /// word's position.
    Words(usize, Vec<&'static str>),
}

/// Where a `Words` completion starts replacing: the last occurrence of the
/// last word, or the start of the line when the search fails.
pub open spec fn spec_completion_start(s: Seq<char>) -> int {
    let lw = tokens(s).last();
    if spec_rfind(s, lw) >= 0 {
        spec_rfind(s, lw)
    } else {
        0
    }
}

/// Complete the text before the cursor: every command on an empty line; a
/// `" connect"` suffix for a bare repeat count at the end of the line; and
/// otherwise the commands the last word begins, replacing from that word.
pub fn completion_candidates(prefix: &str, at_line_end: bool) -> (r: Completion)
    ensures
        ({
            let tk = tokens(prefix@);
            &&& (tk.len() == 0 ==> r == Completion::AllCommands)
            &&& (tk.len() > 0 && all_digits(tk.last()) && at_line_end ==> r
                == Completion::ConnectSuffix)
            &&& (tk.len() > 0 && !(all_digits(tk.last()) && at_line_end) ==> (r matches
                Completion::Words(start, ms) && start == spec_completion_start(prefix@)
                && ms@.map_values(|c: &'static str| c@) == matching_commands_spec(
                spec_commands(),
                tk.last(),
            )))
        }),
{
    let tk = all_tokens(prefix);
    if tk.len() == 0 {
        proof {
            assert(tk@.map_values(|t: String| t@).len() == 0);
        }
        Completion::AllCommands
    } else {
        let last = &tk[tk.len() - 1];
        proof {
            assert(tk@.map_values(|t: String| t@)[tk@.len() - 1] == tokens(prefix@).last());
        }
        if str_all_digits(last.as_str()) && at_line_end {
            Completion::ConnectSuffix
        } else {
            let start = match rfind_str(prefix, last.as_str()) {
                Some(i) => i,
                None => 0,
            };
            let ms = matching_commands(last.as_str());
            Completion::Words(start, ms)
        }
    }
}

} // verus!
