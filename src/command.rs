use vstd::prelude::*;

verus! {

/// Unicode `White_Space`, the property that separates words on the console.
pub open spec fn is_white_space(c: char) -> bool {
    let u = c as u32;
    (0x9 <= u <= 0xd) || u == 0x20 || u == 0x85 || u == 0xa0 || u == 0x1680 || (0x2000 <= u
        <= 0x200a) || u == 0x2028 || u == 0x2029 || u == 0x202f || u == 0x205f || u == 0x3000
}

pub fn white_space(c: char) -> (r: bool)
    ensures
        r == is_white_space(c),
{
    let u = c as u32;
    (0x9 <= u && u <= 0xd) || u == 0x20 || u == 0x85 || u == 0xa0 || u == 0x1680 || (0x2000 <= u
        && u <= 0x200a) || u == 0x2028 || u == 0x2029 || u == 0x202f || u == 0x205f || u == 0x3000
}

/// Words finished so far and the word being read, after scanning `s` from
/// the left.
pub open spec fn scan_words(s: Seq<char>) -> (Seq<Seq<char>>, Seq<char>)
    decreases s.len(),
{
    if s.len() == 0 {
        (Seq::empty(), Seq::empty())
    } else {
        let (done, cur) = scan_words(s.drop_last());
        let c = s.last();
        if is_white_space(c) {
            if cur.len() > 0 {
                (done.push(cur), Seq::empty())
            } else {
                (done, cur)
            }
        } else {
            (done, cur.push(c))
        }
    }
}

/// The maximal runs of non-white-space characters of `s`, in order.
pub open spec fn words(s: Seq<char>) -> Seq<Seq<char>> {
    let (done, cur) = scan_words(s);
    if cur.len() > 0 {
        done.push(cur)
    } else {
        done
    }
}

/// Splits `line` into its words.
pub fn split_words(line: &str) -> (r: Vec<String>)
    ensures
        r@.len() == words(line@).len(),
        forall|i: int| 0 <= i < r@.len() ==> (#[trigger] r@[i])@ == words(line@)[i],
{
    let n = line.unicode_len();
    let mut out: Vec<String> = Vec::new();
    let mut start: usize = 0;
    let mut k: usize = 0;
    while k < n
        invariant
            n == line@.len(),
            start <= k <= n,
            scan_words(line@.subrange(0, k as int)).0.len() == out@.len(),
            forall|i: int| 0 <= i < out@.len() ==> (#[trigger] out@[i])@ == scan_words(line@.subrange(0, k as int)).0[i],
            scan_words(line@.subrange(0, k as int)).1 == line@.subrange(start as int, k as int),
        decreases n - k,
    {
        let c = line.get_char(k);
        let ghost pre = line@.subrange(0, k as int);
        let ghost next = line@.subrange(0, k + 1);
        assert(next.drop_last() =~= pre);
        if white_space(c) {
            if start < k {
                let w = line.substring_char(start, k).to_owned();
                out.push(w);
            }
            start = k + 1;
        }
        k = k + 1;
        assert(line@.subrange(start as int, k as int) =~= if start == k { Seq::empty() } else {
            line@.subrange(start as int, k - 1).push(c)
        });
    }
    assert(line@.subrange(0, n as int) =~= line@);
    if start < n {
        let w = line.substring_char(start, n).to_owned();
        out.push(w);
    }
    out
}

/// The lower-case form of a string under Unicode case mapping.
pub uninterp spec fn lower_of(s: Seq<char>) -> Seq<char>;

/// Relies on `str::to_lowercase`: its result depends on the characters alone.
#[verifier::external_body]
fn lowercase(s: &str) -> (r: String)
    ensures
        r@ == lower_of(s@),
{
    s.to_lowercase()
}

/// Whether two strings hold the same characters.
pub fn same_text(a: &str, b: &str) -> (r: bool)
    ensures
        r == (a@ == b@),
{
    let n = a.unicode_len();
    if n != b.unicode_len() {
        return false;
    }
    let mut k: usize = 0;
    while k < n
        invariant
            n == a@.len() == b@.len(),
            k <= n,
            forall|i: int| 0 <= i < k ==> a@[i] == b@[i],
        decreases n - k,
    {
        if a.get_char(k) != b.get_char(k) {
            return false;
        }
        k = k + 1;
    }
    assert(a@ =~= b@);
    true
}

pub open spec fn is_digit(c: char) -> bool {
    '0' <= c <= '9'
}

pub open spec fn digit_value(c: char) -> nat {
    (c as u32 - '0' as u32) as nat
}

/// Value of a string of decimal digits, most significant first.
pub open spec fn digits_value(s: Seq<char>) -> nat
    decreases s.len(),
{
    if s.len() == 0 {
        0
    } else {
        digits_value(s.drop_last()) * 10 + digit_value(s.last())
    }
}

/// `s` without a leading `+`.
pub open spec fn unsigned_part(s: Seq<char>) -> Seq<char> {
    if s.len() > 0 && s[0] == '+' {
        s.drop_first()
    } else {
        s
    }
}

pub open spec fn all_digits(d: Seq<char>) -> bool {
    forall|i: int| 0 <= i < d.len() ==> is_digit(#[trigger] d[i])
}

/// The unsigned integer written in `s`: an optional `+`, then at least one
/// decimal digit, with a value that fits in `usize`.
pub open spec fn decimal_usize(s: Seq<char>) -> Option<usize> {
    let d = unsigned_part(s);
    if d.len() > 0 && all_digits(d) && digits_value(d) <= usize::MAX {
        Some(digits_value(d) as usize)
    } else {
        None
    }
}

proof fn lemma_digits_value_grows(d: Seq<char>, k: int)
    requires
        0 <= k <= d.len(),
        forall|i: int| 0 <= i < d.len() ==> is_digit(#[trigger] d[i]),
    ensures
        digits_value(d.subrange(0, k)) <= digits_value(d),
    decreases d.len() - k,
{
    if k < d.len() {
        lemma_digits_value_grows(d, k + 1);
        assert(d.subrange(0, k + 1).drop_last() =~= d.subrange(0, k));
    } else {
        assert(d.subrange(0, k) =~= d);
    }
}

/// Reads a task id written in decimal.
pub fn parse_id(s: &str) -> (r: Option<usize>)
    ensures
        r == decimal_usize(s@),
{
    let n = s.unicode_len();
    let mut k: usize = 0;
    if n > 0 && s.get_char(0) == '+' {
        k = 1;
    }
    let ghost d = unsigned_part(s@);
    let ghost first = k;
    assert(d =~= s@.subrange(first as int, n as int));
    if k == n {
        return None;
    }
    let mut v: usize = 0;
    while k < n
        invariant
            n == s@.len(),
            first <= k <= n,
            d == s@.subrange(first as int, n as int),
            d == unsigned_part(s@),
            forall|i: int| 0 <= i < k - first ==> is_digit(#[trigger] d[i]),
            v as nat == digits_value(d.subrange(0, k - first)),
        decreases n - k,
    {
        let c = s.get_char(k);
        let ghost pre = d.subrange(0, k - first);
        let ghost next = d.subrange(0, k + 1 - first);
        assert(next.drop_last() =~= pre);
        assert(d[k - first] == c);
        assert(next.last() == c);
        if c < '0' || c > '9' {
            assert(!is_digit(d[k - first]));
            return None;
        }
        let dv = (c as u32 - '0' as u32) as usize;
        assert(digits_value(next) == v * 10 + dv);
        if v > (usize::MAX - dv) / 10 {
            proof {
                assert(v * 10 + dv > usize::MAX) by (nonlinear_arith)
                    requires
                        v > (usize::MAX - dv) / 10,
                        dv <= 9,
                ;
                if all_digits(d) {
                    lemma_digits_value_grows(d, k + 1 - first);
                    assert(digits_value(d) > usize::MAX);
                }
            }
            return None;
        }
        v = v * 10 + dv;
        k = k + 1;
    }
    assert(d.subrange(0, n - first) =~= d);
    Some(v)
}

/// A console command that was understood.
#[derive(Clone, Copy, Debug, PartialEq, Eq, Structural)]
pub enum ConsoleCommand {
    /// `tasks` or `list`: show the registry.
    ListTasks,
    /// `kill <id>`: request an advisory kill.
    Kill(usize),
    /// `clear`: empty the log store.
    Clear,
    /// `quit` or `exit`: ask the pool to shut down.
    Quit,
}

#[derive(Clone, Copy, Debug, PartialEq, Eq, Structural)]
pub enum ArgProblem {
    /// `kill` was not followed by exactly one argument.
    WrongCount,
    /// The argument of `kill` is not an unsigned integer.
    NotAnId,
}

#[derive(Clone, Debug)]
pub enum CommandError {
    /// The verb, as typed, names no command.
    UnknownCommand(String),
    BadArguments(ArgProblem),
}

/// What a console line whose words are `w` means, given `verb`, the lower-case
/// form of its first word. Verbs are matched without regard to case; extra
/// words after a verb other than `kill` are ignored.
pub open spec fn command_outcome(
    w: Seq<Seq<char>>,
    verb: Seq<char>,
    r: Result<Option<ConsoleCommand>, CommandError>,
) -> bool {
    if w.len() == 0 {
        r == Ok::<Option<ConsoleCommand>, CommandError>(None)
    } else if verb == "kill"@ {
        if w.len() != 2 {
            r == Err::<Option<ConsoleCommand>, CommandError>(CommandError::BadArguments(ArgProblem::WrongCount))
        } else {
            match decimal_usize(w[1]) {
                Some(id) => r == Ok::<Option<ConsoleCommand>, CommandError>(Some(ConsoleCommand::Kill(id))),
                None => r == Err::<Option<ConsoleCommand>, CommandError>(
                    CommandError::BadArguments(ArgProblem::NotAnId),
                ),
            }
        }
    } else if verb == "tasks"@ || verb == "list"@ {
        r == Ok::<Option<ConsoleCommand>, CommandError>(Some(ConsoleCommand::ListTasks))
    } else if verb == "clear"@ {
        r == Ok::<Option<ConsoleCommand>, CommandError>(Some(ConsoleCommand::Clear))
    } else if verb == "quit"@ || verb == "exit"@ {
        r == Ok::<Option<ConsoleCommand>, CommandError>(Some(ConsoleCommand::Quit))
    } else {
        r matches Err(CommandError::UnknownCommand(typed)) && typed@ == w[0]
    }
}

pub open spec fn texts(v: Seq<String>) -> Seq<Seq<char>> {
    v.map_values(|s: String| s@)
}

/// Interprets the words of a console line, given the lower-case form of the
/// first word (ignored when there are no words).
pub fn interpret(verb: &str, words: &Vec<String>) -> (r: Result<Option<ConsoleCommand>, CommandError>)
    ensures
        command_outcome(texts(words@), verb@, r),
{
    if words.len() == 0 {
        return Ok(None);
    }
    if same_text(verb, "kill") {
        if words.len() != 2 {
            Err(CommandError::BadArguments(ArgProblem::WrongCount))
        } else {
            match parse_id(words[1].as_str()) {
                Some(id) => Ok(Some(ConsoleCommand::Kill(id))),
                None => Err(CommandError::BadArguments(ArgProblem::NotAnId)),
            }
        }
    } else if same_text(verb, "tasks") || same_text(verb, "list") {
        Ok(Some(ConsoleCommand::ListTasks))
    } else if same_text(verb, "clear") {
        Ok(Some(ConsoleCommand::Clear))
    } else if same_text(verb, "quit") || same_text(verb, "exit") {
        Ok(Some(ConsoleCommand::Quit))
    } else {
        Err(CommandError::UnknownCommand(words[0].clone()))
    }
}

/// Parses one console line.
pub fn parse_command(line: &str) -> (r: Result<Option<ConsoleCommand>, CommandError>)
    ensures
        command_outcome(words(line@), if words(line@).len() > 0 {
            lower_of(words(line@)[0])
        } else {
            Seq::empty()
        }, r),
{
    let ws = split_words(line);
    assert(texts(ws@) =~= words(line@));
    if ws.len() == 0 {
        return Ok(None);
    }
    let verb = lowercase(ws[0].as_str());
    interpret(verb.as_str(), &ws)
}

} // verus!
