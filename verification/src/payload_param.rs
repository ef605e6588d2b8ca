//! The payload's arguments: the whitespace-separated tokens of the command line that
//! follow the payload boundary.
use vstd::prelude::*;
use crate::state::{condition_error, failed_condition, EventError, EventResult, Lifecycle, LifecycleEvent, State};

verus! {

/// ASCII whitespace: space, tab, line feed, form feed, carriage return.
pub open spec fn is_ws(b: u8) -> bool {
    b == 32 || b == 9 || b == 10 || b == 12 || b == 13
}

pub fn is_ascii_whitespace(b: u8) -> (r: bool)
    ensures
        r == is_ws(b),
{
    b == 32 || b == 9 || b == 10 || b == 12 || b == 13
}

/// The first position at or after `c` that is not whitespace, or the end.
pub open spec fn skip_ws(s: Seq<u8>, c: int) -> int
    decreases s.len() - c,
{
    if c >= s.len() || c < 0 {
        c
    } else if is_ws(s[c]) {
        skip_ws(s, c + 1)
    } else {
        c
    }
}

/// The first position at or after `c` that is whitespace, or the end.
pub open spec fn skip_word(s: Seq<u8>, c: int) -> int
    decreases s.len() - c,
{
    if c >= s.len() || c < 0 {
        c
    } else if !is_ws(s[c]) {
        skip_word(s, c + 1)
    } else {
        c
    }
}

pub proof fn lemma_skip_bounds(s: Seq<u8>, c: int)
    requires
        0 <= c,
    ensures
        c <= skip_ws(s, c),
        c <= s.len() ==> skip_ws(s, c) <= s.len(),
        c <= skip_word(s, c),
        c <= s.len() ==> skip_word(s, c) <= s.len(),
        c < s.len() && !is_ws(s[c]) ==> c < skip_word(s, c),
        skip_ws(s, c) < s.len() ==> !is_ws(s[skip_ws(s, c)]),
    decreases s.len() - c,
{
    if c < s.len() {
        lemma_skip_bounds(s, c + 1);
    }
}

/// The token found from `c`: its start and end, or `None` when only whitespace is left.
pub open spec fn next_token_spec(s: Seq<u8>, c: int) -> Option<(int, int)> {
    let st = skip_ws(s, c);
    if st >= s.len() {
        None
    } else {
        Some((st, skip_word(s, st)))
    }
}

/// Skipping whitespace passes only whitespace; skipping a word passes only non-whitespace
/// and stops at whitespace or the end.
proof fn lemma_skip_runs(s: Seq<u8>, c: int)
    requires
        0 <= c <= s.len(),
    ensures
        forall|k: int| c <= k < skip_ws(s, c) ==> is_ws(#[trigger] s[k]),
        forall|k: int| c <= k < skip_word(s, c) ==> !is_ws(#[trigger] s[k]),
        skip_word(s, c) == s.len() || is_ws(s[skip_word(s, c)]),
        skip_word(s, c) <= s.len(),
    decreases s.len() - c,
{
    if c < s.len() {
        lemma_skip_runs(s, c + 1);
    }
}

/// Token `n` found from `c` is a whole word: it starts at or after `c`, is non-empty,
/// holds no whitespace, ends at whitespace or the end of the line, and starts at `c` or
/// right after whitespace.
pub proof fn lemma_token_is_word(s: Seq<u8>, c: int, n: nat)
    requires
        0 <= c <= s.len(),
    ensures
        nth_token(s, c, n) matches Some((a, b)) ==> {
            &&& c <= a < b <= s.len()
            &&& forall|k: int| a <= k < b ==> !is_ws(#[trigger] s[k])
            &&& b == s.len() || is_ws(s[b])
            &&& a == c || is_ws(s[a - 1])
        },
    decreases n,
{
    lemma_skip_bounds(s, c);
    lemma_skip_runs(s, c);
    let st = skip_ws(s, c);
    if st < s.len() {
        lemma_skip_bounds(s, st);
        lemma_skip_runs(s, st);
        let b = skip_word(s, st);
        if n > 0 {
            lemma_token_is_word(s, b, (n - 1) as nat);
            if let Some((a2, b2)) = nth_token(s, b, (n - 1) as nat) {
                if a2 == b && b < s.len() {
                    assert(is_ws(s[b]));
                }
            }
        } else if st > c {
            assert(is_ws(s[st - 1]));
        }
    }
}

/// The token with number `n` (from 0) found from `c`.
pub open spec fn nth_token(s: Seq<u8>, c: int, n: nat) -> Option<(int, int)>
    decreases n,
{
    match next_token_spec(s, c) {
        None => None,
        Some((a, b)) => if n == 0 {
            Some((a, b))
        } else {
            nth_token(s, b, (n - 1) as nat)
        },
    }
}

/// The number of tokens found from `c`.
pub open spec fn token_count(s: Seq<u8>, c: int) -> nat
    decreases s.len() - c,
{
    if c < 0 || c >= s.len() {
        0
    } else {
        match next_token_spec(s, c) {
            None => 0,
            Some((a, b)) => if c < b <= s.len() {
                1 + token_count(s, b)
            } else {
                0
            },
        }
    }
}

/// The next token of `cmdline` from `cursor`.
pub fn next_token(cmdline: &[u8], cursor: usize) -> (r: Option<(usize, usize)>)
    ensures
        r matches Some((a, b)) ==> next_token_spec(cmdline@, cursor as int) == Some((a as int, b as int)),
        r is None ==> next_token_spec(cmdline@, cursor as int) is None,
{
    let mut c = cursor;
    proof {
        lemma_skip_bounds(cmdline@, cursor as int);
    }
    while c < cmdline.len() && is_ascii_whitespace(cmdline[c])
        invariant
            cursor <= c,
            skip_ws(cmdline@, c as int) == skip_ws(cmdline@, cursor as int),
        decreases cmdline@.len() - c,
    {
        c += 1;
    }
    if c >= cmdline.len() {
        return None;
    }
    let start = c;
    while c < cmdline.len() && !is_ascii_whitespace(cmdline[c])
        invariant
            start <= c <= cmdline@.len(),
            skip_word(cmdline@, c as int) == skip_word(cmdline@, start as int),
        decreases cmdline@.len() - c,
    {
        c += 1;
    }
    Some((start, c))
}

/// The number of tokens of `cmdline` after the payload boundary; none without one.
/// The tokens from `c` are numbered 0 up to their count: token `n` exists exactly when `n`
/// is below the count.
pub proof fn lemma_token_count_numbers_tokens(s: Seq<u8>, c: int, n: nat)
    requires
        0 <= c <= s.len(),
    ensures
        (nth_token(s, c, n) is Some) == (n < token_count(s, c)),
    decreases s.len() - c, n,
{
    lemma_skip_bounds(s, c);
    let st = skip_ws(s, c);
    if c < s.len() && st < s.len() {
        lemma_skip_bounds(s, st);
        let b = skip_word(s, st);
        if n > 0 {
            lemma_token_count_numbers_tokens(s, b, (n - 1) as nat);
        }
    } else if c == s.len() {
        assert(st == c);
    }
}

pub open spec fn payload_arg_count_spec(cmdline: Seq<u8>, boundary: Option<usize>) -> nat {
    match boundary {
        Some(b) => token_count(cmdline, b as int),
        None => 0,
    }
}

pub fn payload_arg_count_after_boundary(cmdline: &[u8], boundary: Option<usize>) -> (r: usize)
    ensures
        r == payload_arg_count_spec(cmdline@, boundary),
{
    let b = match boundary {
        Some(b) => b,
        None => {
            return 0;
        },
    };
    let mut count: usize = 0;
    let mut cursor = b;
    while cursor < cmdline.len()
        invariant
            b <= cursor,
            boundary == Some(b),
            count <= cursor - b,
            count + token_count(cmdline@, cursor as int) == token_count(cmdline@, b as int),
        decreases cmdline@.len() - cursor,
    {
        match next_token(cmdline, cursor) {
            None => {
                return count;
            },
            Some((s, e)) => {
                proof {
                    lemma_skip_bounds(cmdline@, cursor as int);
                    lemma_skip_bounds(cmdline@, s as int);
                }
                count = count + 1;
                cursor = e;
            },
        }
    }
    count
}

pub struct PayloadParam {
    pub lifecycle: Lifecycle,
    pub arg_count: usize,
}

impl PayloadParam {
    pub fn new() -> (s: Self)
        ensures
            s.lifecycle@ == State::Base,
            s.arg_count == 0,
    {
        Self { lifecycle: Lifecycle::new(State::Base), arg_count: 0 }
    }

    pub fn state(&self) -> (r: State)
        ensures
            r == self.lifecycle@,
    {
        self.lifecycle.state()
    }

    pub fn arg_count(&self) -> (r: usize)
        ensures
            r == self.arg_count,
    {
        self.arg_count
    }

    /// Argument `index` of the payload: token `index` after the payload boundary.
    pub fn arg<'a>(&self, cmdline: &'a [u8], payload_boundary: Option<usize>, index: usize) -> (r:
        Option<&'a [u8]>)
        ensures
            payload_boundary is None ==> r is None,
            payload_boundary matches Some(b) ==> match nth_token(cmdline@, b as int, index as nat) {
                Some((s, e)) => r matches Some(t) && t@ == cmdline@.subrange(s, e),
                None => r is None,
            },
    {
        let b = match payload_boundary {
            Some(b) => b,
            None => {
                return None;
            },
        };
        let mut found: usize = 0;
        let mut cursor = b;
        loop
            invariant
                found <= index,
                b <= cursor,
                payload_boundary == Some(b),
                nth_token(cmdline@, cursor as int, (index - found) as nat) == nth_token(
                    cmdline@,
                    b as int,
                    index as nat,
                ),
            decreases index - found,
        {
            match next_token(cmdline, cursor) {
                None => {
                    return None;
                },
                Some((s, e)) => {
                    proof {
                        lemma_skip_bounds(cmdline@, cursor as int);
                        lemma_skip_bounds(cmdline@, s as int);
                    }
                    if found == index {
                        return Some(vstd::slice::slice_subrange(cmdline, s, e));
                    }
                    found = found + 1;
                    cursor = e;
                },
            }
        }
    }

    /// Counts the payload's arguments once the boot parameters and the static command
    /// line are ready. `payload_boundary` is where the boot parameters say the payload's
    /// part of `cmdline` starts.
    pub fn setup(
        &mut self,
        boot_param_state: State,
        payload_boundary: Option<usize>,
        static_command_line_state: State,
        cmdline: &[u8],
    ) -> (r: EventResult)
        ensures
            old(self).lifecycle@ != State::Base || boot_param_state != State::Ready
                || static_command_line_state != State::Ready ==> r == Err::<(), EventError>(
                condition_error(LifecycleEvent::Setup, old(self).lifecycle@, State::Base, State::Ready),
            ) && final(self).lifecycle == old(self).lifecycle && final(self).arg_count == old(self).arg_count,
            !(old(self).lifecycle@ != State::Base || boot_param_state != State::Ready
                || static_command_line_state != State::Ready) ==> r == Ok::<(), EventError>(())
                && final(self).lifecycle@ == State::Ready && final(self).arg_count
                == payload_arg_count_spec(cmdline@, payload_boundary),
    {
        if self.lifecycle.state() != State::Base || boot_param_state != State::Ready
            || static_command_line_state != State::Ready {
            return failed_condition(
                LifecycleEvent::Setup,
                self.lifecycle.state(),
                State::Base,
                State::Ready,
            );
        }
        self.arg_count = payload_arg_count_after_boundary(cmdline, payload_boundary);
        self.lifecycle.transition(LifecycleEvent::Setup, State::Base, State::Ready)
    }
}

} // verus!
