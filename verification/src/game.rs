//! The hangman state machine: a phase that is either a running game (secret
//! word, miss counter, per-letter guess record) or a terminal win/loss, with
//! one operation that records a guess and queries that project the state for
//! a renderer.

use vstd::prelude::*;
use crate::letters::{char_to_index, is_ascii_letter, is_upper_letter, lemma_upper_of_letter, letter_at, letter_index, normalize_guess, normalized, to_upper, upper_of};

verus! {

/// Number of wrong guesses that loses the game.
pub const MAX_MISSES: usize = 6;

/// Overall phase of one hangman session. A session starts `Running` and moves
/// exactly once to `Won` or `Lost`; the terminal variants accept no further
/// operations.
pub enum GameState {
    Running { secret: Vec<char>, misses: usize, guesses: Vec<bool> },
    Lost,
    Won,
}

/// A well-formed secret: non-empty and all uppercase letters.
pub open spec fn secret_wf(secret: Seq<char>) -> bool {
    &&& secret.len() > 0
    &&& forall|i: int| 0 <= i < secret.len() ==> is_upper_letter(#[trigger] secret[i])
}

/// Every letter of the secret has been guessed.
pub open spec fn solved(secret: Seq<char>, guesses: Seq<bool>) -> bool {
    forall|i: int| 0 <= i < secret.len() ==> guesses[letter_index(#[trigger] secret[i])]
}

/// The letter occurs somewhere in the secret.
pub open spec fn secret_has(secret: Seq<char>, c: char) -> bool {
    exists|i: int| 0 <= i < secret.len() && secret[i] == c
}

/// The word as shown to the player: guessed letters appear, the rest are '_'.
pub open spec fn status_of(secret: Seq<char>, guesses: Seq<bool>) -> Seq<char> {
    Seq::new(
        secret.len(),
        |i: int| if guesses[letter_index(secret[i])] {
            secret[i]
        } else {
            '_'
        },
    )
}

/// The alphabet grid: all 26 letters in order, each with its guessed flag.
pub open spec fn grid_of(guesses: Seq<bool>) -> Seq<(char, bool)> {
    Seq::new(26, |i: int| (letter_at(i), guesses[i]))
}

/// Miss count after recording a fresh letter: one more when it is absent
/// from the secret, unchanged when it is present.
pub open spec fn misses_after(secret: Seq<char>, misses: nat, c: char) -> nat {
    if secret_has(secret, c) {
        misses
    } else {
        misses + 1
    }
}

/// What one call of `submit_guess` reports back. `NoChange` means the input
/// was rejected (not a single fresh letter) and the state was left alone;
/// the other variants mean a fresh letter was recorded. A terminal outcome
/// carries the secret, which is no longer reachable through the running-game
/// queries once the phase has moved.
pub enum GuessOutcome {
    NoChange,
    Continuing,
    Finished { won: bool, secret: Vec<char> },
}

/// The full transition contract of `submit_guess`: how the state after the
/// call and the reported outcome follow from the state before it and the
/// submitted line.
///
/// An input that does not normalize to a letter, or normalizes to a letter
/// already guessed, changes nothing. A fresh letter sets its guessed flag
/// and, when absent from the secret, counts one miss; the phase then moves
/// to `Lost` when the misses reach the cap, to `Won` when the whole secret
/// is guessed, and otherwise stays `Running`.
pub open spec fn submit_post(pre: GameState, post: GameState, input: Seq<char>, out: GuessOutcome) -> bool
    recommends
        pre is Running,
{
    match normalized(input) {
        None => post == pre && out is NoChange,
        Some(c) => {
            if pre.spec_guesses()[letter_index(c)] {
                post == pre && out is NoChange
            } else {
                let g2 = pre.spec_guesses().update(letter_index(c), true);
                let m2 = misses_after(pre.spec_secret(), pre.spec_misses(), c);
                if m2 == MAX_MISSES {
                    &&& post is Lost
                    &&& (out matches GuessOutcome::Finished { won, secret } && !won && secret@
                        == pre.spec_secret())
                } else if solved(pre.spec_secret(), g2) {
                    &&& post is Won
                    &&& (out matches GuessOutcome::Finished { won, secret } && won && secret@
                        == pre.spec_secret())
                } else {
                    &&& post is Running
                    &&& post.spec_secret() == pre.spec_secret()
                    &&& post.spec_misses() == m2
                    &&& post.spec_guesses() == g2
                    &&& out is Continuing
                }
            }
        },
    }
}

/// Whether the letter occurs in the secret.
fn contains_letter(secret: &Vec<char>, c: char) -> (r: bool)
    ensures
        r == secret_has(secret@, c),
{
    let mut i: usize = 0;
    while i < secret.len()
        invariant
            0 <= i <= secret@.len(),
            forall|j: int| 0 <= j < i ==> secret@[j] != c,
        decreases secret@.len() - i,
    {
        if secret[i] == c {
            return true;
        }
        i = i + 1;
    }
    false
}

/// Whether every letter of the secret has its guessed flag set.
fn all_guessed(secret: &Vec<char>, guesses: &Vec<bool>) -> (r: bool)
    requires
        secret_wf(secret@),
        guesses@.len() == 26,
    ensures
        r == solved(secret@, guesses@),
{
    let mut i: usize = 0;
    while i < secret.len()
        invariant
            0 <= i <= secret@.len(),
            secret_wf(secret@),
            guesses@.len() == 26,
            forall|j: int| 0 <= j < i ==> guesses@[letter_index(#[trigger] secret@[j])],
        decreases secret@.len() - i,
    {
        let idx = char_to_index(secret[i]);
        if !guesses[idx] {
            return false;
        }
        i = i + 1;
    }
    true
}

impl GameState {
    /// The phase is still accepting guesses.
    pub open spec fn spec_is_running(self) -> bool {
        self is Running
    }

    /// The secret word of a running game.
    pub open spec fn spec_secret(self) -> Seq<char>
        recommends
            self is Running,
    {
        match self {
            GameState::Running { secret, .. } => secret@,
            _ => Seq::empty(),
        }
    }

    /// The miss count of a running game.
    pub open spec fn spec_misses(self) -> nat
        recommends
            self is Running,
    {
        match self {
            GameState::Running { misses, .. } => misses as nat,
            _ => 0,
        }
    }

    /// The guess record of a running game.
    pub open spec fn spec_guesses(self) -> Seq<bool>
        recommends
            self is Running,
    {
        match self {
            GameState::Running { guesses, .. } => guesses@,
            _ => Seq::empty(),
        }
    }

    /// Well-formedness, kept by every operation: a running game holds a
    /// non-empty uppercase secret, one guessed flag per letter of the
    /// alphabet, and fewer misses than the losing count (the phase leaves
    /// `Running` the moment the count is reached).
    pub open spec fn wf(self) -> bool {
        self is Running ==> {
            &&& secret_wf(self.spec_secret())
            &&& self.spec_guesses().len() == 26
            &&& self.spec_misses() < MAX_MISSES
        }
    }

    /// Start a session on the word the word source supplied. The word is
    /// taken verbatim up to ASCII uppercasing; no letter is guessed yet and
    /// no miss is counted.
    pub fn new_game(word: &[char]) -> (r: GameState)
        requires
            word@.len() > 0,
            forall|i: int| 0 <= i < word@.len() ==> is_ascii_letter(#[trigger] word@[i]),
        ensures
            r.wf(),
            r is Running,
            r.spec_secret().len() == word@.len(),
            forall|i: int| 0 <= i < word@.len() ==> r.spec_secret()[i] == upper_of(#[trigger] word@[i]),
            r.spec_misses() == 0,
            r.spec_guesses() =~= Seq::new(26, |i: int| false),
    {
        let mut secret: Vec<char> = Vec::new();
        let mut i: usize = 0;
        while i < word.len()
            invariant
                0 <= i <= word@.len(),
                forall|j: int| 0 <= j < word@.len() ==> is_ascii_letter(#[trigger] word@[j]),
                secret@.len() == i,
                forall|j: int| 0 <= j < i ==> secret@[j] == upper_of(#[trigger] word@[j]),
            decreases word@.len() - i,
        {
            secret.push(to_upper(word[i]));
            i = i + 1;
        }
        proof {
            assert forall|j: int| 0 <= j < secret@.len() implies is_upper_letter(secret@[j]) by {
                lemma_upper_of_letter(word@[j]);
            }
        }
        let mut guesses: Vec<bool> = Vec::new();
        let mut k: usize = 0;
        while k < 26
            invariant
                0 <= k <= 26,
                guesses@.len() == k,
                forall|j: int| 0 <= j < k ==> !guesses@[j],
            decreases 26 - k,
        {
            guesses.push(false);
            k = k + 1;
        }
        GameState::Running { secret, misses: 0, guesses }
    }

    /// Record one line of player input. Only callable while the game runs;
    /// the whole effect is pinned down by `submit_post`.
    pub fn submit_guess(&mut self, input: &[char]) -> (r: GuessOutcome)
        requires
            old(self).wf(),
            *old(self) is Running,
        ensures
            final(self).wf(),
            submit_post(*old(self), *final(self), input@, r),
    {
        let c = match normalize_guess(input) {
            Some(c) => c,
            None => {
                return GuessOutcome::NoChange;
            },
        };
        let idx = char_to_index(c);
        let (new_state, outcome) = match &*self {
            GameState::Running { secret, misses, guesses } => {
                if guesses[idx] {
                    return GuessOutcome::NoChange;
                }
                let m2: usize = if contains_letter(secret, c) {
                    *misses
                } else {
                    *misses + 1
                };
                let mut g2 = Vec::new();
                let mut i: usize = 0;
                while i < guesses.len()
                    invariant
                        0 <= i <= guesses@.len(),
                        g2@ =~= guesses@.take(i as int),
                    decreases guesses@.len() - i,
                {
                    g2.push(guesses[i]);
                    i = i + 1;
                }
                proof {
                    assert(g2@ =~= guesses@);
                }
                g2[idx] = true;
                proof {
                    assert(g2@ =~= guesses@.update(idx as int, true));
                }
                let mut sec = Vec::new();
                let mut k: usize = 0;
                while k < secret.len()
                    invariant
                        0 <= k <= secret@.len(),
                        sec@ =~= secret@.take(k as int),
                    decreases secret@.len() - k,
                {
                    sec.push(secret[k]);
                    k = k + 1;
                }
                proof {
                    assert(sec@ =~= secret@);
                }
                if m2 == MAX_MISSES {
                    (GameState::Lost, GuessOutcome::Finished { won: false, secret: sec })
                } else if all_guessed(secret, &g2) {
                    (GameState::Won, GuessOutcome::Finished { won: true, secret: sec })
                } else {
                    (
                        GameState::Running { secret: sec, misses: m2, guesses: g2 },
                        GuessOutcome::Continuing,
                    )
                }
            },
            _ => {
                proof {
                    assert(false);
                }
                (GameState::Lost, GuessOutcome::NoChange)
            },
        };
        *self = new_state;
        outcome
    }

    /// The phase still accepts guesses.
    pub fn is_running(&self) -> (r: bool)
        ensures
            r == (*self is Running),
    {
        match self {
            GameState::Running { .. } => true,
            _ => false,
        }
    }

    /// The game ended in a loss.
    pub fn is_lost(&self) -> (r: bool)
        ensures
            r == (*self is Lost),
    {
        match self {
            GameState::Lost => true,
            _ => false,
        }
    }

    /// The game ended in a win.
    pub fn is_won(&self) -> (r: bool)
        ensures
            r == (*self is Won),
    {
        match self {
            GameState::Won => true,
            _ => false,
        }
    }

    /// The word as the player sees it: each guessed letter shown, each
    /// unguessed position masked by '_'.
    pub fn render_status(&self) -> (r: Vec<char>)
        requires
            *self is Running,
            self.wf(),
        ensures
            r@ == status_of(self.spec_secret(), self.spec_guesses()),
    {
        match self {
            GameState::Running { secret, guesses, .. } => {
                let mut out: Vec<char> = Vec::new();
                let mut i: usize = 0;
                while i < secret.len()
                    invariant
                        0 <= i <= secret@.len(),
                        secret_wf(secret@),
                        guesses@.len() == 26,
                        out@.len() == i,
                        forall|j: int| 0 <= j < i ==> out@[j] == status_of(secret@, guesses@)[j],
                    decreases secret@.len() - i,
                {
                    let c = secret[i];
                    let idx = char_to_index(c);
                    if guesses[idx] {
                        out.push(c);
                    } else {
                        out.push('_');
                    }
                    i = i + 1;
                }
                proof {
                    assert(out@ =~= status_of(secret@, guesses@));
                }
                out
            },
            _ => {
                proof {
                    assert(false);
                }
                Vec::new()
            },
        }
    }

    /// The guessed-letter grid: all 26 letters in alphabetical order, each
    /// paired with whether it has been guessed. How to lay the pairs out
    /// (rows, spacing) is the renderer's business.
    pub fn render_guessed_grid(&self) -> (r: Vec<(char, bool)>)
        requires
            *self is Running,
            self.wf(),
        ensures
            r@ == grid_of(self.spec_guesses()),
    {
        match self {
            GameState::Running { guesses, .. } => {
                let mut out: Vec<(char, bool)> = Vec::new();
                let mut i: usize = 0;
                while i < 26
                    invariant
                        0 <= i <= 26,
                        guesses@.len() == 26,
                        out@.len() == i,
                        forall|j: int| 0 <= j < i ==> out@[j] == grid_of(guesses@)[j],
                    decreases 26 - i,
                {
                    let letter = (65 + i as u8) as char;
                    out.push((letter, guesses[i]));
                    i = i + 1;
                }
                proof {
                    assert(out@ =~= grid_of(guesses@));
                }
                out
            },
            _ => {
                proof {
                    assert(false);
                }
                Vec::new()
            },
        }
    }

    /// Whether every letter of the secret has been guessed. `submit_guess`
    /// uses the same notion to decide the move to `Won`.
    pub fn is_solved(&self) -> (r: bool)
        requires
            *self is Running,
            self.wf(),
        ensures
            r == solved(self.spec_secret(), self.spec_guesses()),
    {
        match self {
            GameState::Running { secret, guesses, .. } => all_guessed(secret, guesses),
            _ => {
                proof {
                    assert(false);
                }
                false
            },
        }
    }

    /// Which of the seven gallows drawings to show: exactly the miss count.
    pub fn gallows_stage(&self) -> (r: usize)
        requires
            *self is Running,
            self.wf(),
        ensures
            r == self.spec_misses(),
            0 <= r <= MAX_MISSES,
    {
        match self {
            GameState::Running { misses, .. } => *misses,
            _ => 0,
        }
    }

    /// The secret word, while the game is running.
    pub fn secret(&self) -> (r: Option<&Vec<char>>)
        ensures
            *self is Running ==> (r matches Some(s) && s@ == self.spec_secret()),
            !(*self is Running) ==> r is None,
    {
        match self {
            GameState::Running { secret, .. } => Some(secret),
            _ => None,
        }
    }

    /// The miss count, while the game is running.
    pub fn misses(&self) -> (r: Option<usize>)
        ensures
            *self is Running ==> (r matches Some(m) && m == self.spec_misses()),
            !(*self is Running) ==> r is None,
    {
        match self {
            GameState::Running { misses, .. } => Some(*misses),
            _ => None,
        }
    }

    /// The guess record, while the game is running.
    pub fn guesses(&self) -> (r: Option<&Vec<bool>>)
        ensures
            *self is Running ==> (r matches Some(g) && g@ == self.spec_guesses()),
            !(*self is Running) ==> r is None,
    {
        match self {
            GameState::Running { guesses, .. } => Some(guesses),
            _ => None,
        }
    }
}

/// A fresh guess of a letter that occurs in the secret costs no miss, shows
/// the letter at every position where it occurs, and leaves every other
/// position looking as before; such a guess can never lose the game.
pub proof fn lemma_correct_guess(
    pre: GameState,
    post: GameState,
    input: Seq<char>,
    out: GuessOutcome,
    c: char,
)
    requires
        pre is Running,
        pre.wf(),
        submit_post(pre, post, input, out),
        normalized(input) == Some(c),
        !pre.spec_guesses()[letter_index(c)],
        secret_has(pre.spec_secret(), c),
    ensures
        misses_after(pre.spec_secret(), pre.spec_misses(), c) == pre.spec_misses(),
        !(post is Lost),
        ({
            let shown = status_of(pre.spec_secret(), pre.spec_guesses().update(letter_index(c), true));
            let before = status_of(pre.spec_secret(), pre.spec_guesses());
            forall|i: int|
                0 <= i < pre.spec_secret().len() ==> #[trigger] shown[i] == if pre.spec_secret()[i]
                    == c {
                    c
                } else {
                    before[i]
                }
        }),
        post is Running ==> post.spec_misses() == pre.spec_misses()
            && post.spec_guesses() == pre.spec_guesses().update(letter_index(c), true),
{
    assert(is_upper_letter(c));
}

/// A fresh guess of a letter absent from the secret costs exactly one miss
/// and changes nothing in the shown word.
pub proof fn lemma_wrong_guess(
    pre: GameState,
    post: GameState,
    input: Seq<char>,
    out: GuessOutcome,
    c: char,
)
    requires
        pre is Running,
        pre.wf(),
        submit_post(pre, post, input, out),
        normalized(input) == Some(c),
        !pre.spec_guesses()[letter_index(c)],
        !secret_has(pre.spec_secret(), c),
    ensures
        misses_after(pre.spec_secret(), pre.spec_misses(), c) == pre.spec_misses() + 1,
        status_of(pre.spec_secret(), pre.spec_guesses().update(letter_index(c), true)) =~= status_of(
            pre.spec_secret(),
            pre.spec_guesses(),
        ),
        post is Running ==> post.spec_misses() == pre.spec_misses() + 1,
        post is Lost ==> pre.spec_misses() + 1 == MAX_MISSES,
{
    let secret = pre.spec_secret();
    let g1 = pre.spec_guesses();
    let g2 = g1.update(letter_index(c), true);
    assert forall|i: int| 0 <= i < secret.len() implies status_of(secret, g2)[i] == status_of(
        secret,
        g1,
    )[i] by {
        assert(secret[i] != c);
        assert(letter_index(secret[i]) != letter_index(c));
    }
}

/// Re-submitting an already-guessed letter changes nothing: not the misses,
/// not the guess record, not the phase.
pub proof fn lemma_resubmit_is_noop(
    pre: GameState,
    post: GameState,
    input: Seq<char>,
    out: GuessOutcome,
    c: char,
)
    requires
        pre is Running,
        submit_post(pre, post, input, out),
        normalized(input) == Some(c),
        pre.spec_guesses()[letter_index(c)],
    ensures
        post == pre,
        out is NoChange,
{
}

/// An input that is not a single letter changes nothing.
pub proof fn lemma_invalid_input_is_noop(
    pre: GameState,
    post: GameState,
    input: Seq<char>,
    out: GuessOutcome,
)
    requires
        pre is Running,
        submit_post(pre, post, input, out),
        normalized(input) is None,
    ensures
        post == pre,
        out is NoChange,
{
}

/// The sixth miss loses the game, and the outcome hands the secret back.
/// Once the phase is `Lost`, `submit_guess` may no longer be called: its
/// precondition demands a running game.
pub proof fn lemma_sixth_miss_loses(
    pre: GameState,
    post: GameState,
    input: Seq<char>,
    out: GuessOutcome,
    c: char,
)
    requires
        pre is Running,
        pre.wf(),
        submit_post(pre, post, input, out),
        normalized(input) == Some(c),
        !pre.spec_guesses()[letter_index(c)],
        !secret_has(pre.spec_secret(), c),
        pre.spec_misses() == MAX_MISSES - 1,
    ensures
        post is Lost,
        out matches GuessOutcome::Finished { won, secret } && !won && secret@
            == pre.spec_secret(),
{
}

/// The guess that completes the word wins the game at any miss count, and
/// the outcome hands the secret back.
pub proof fn lemma_completion_wins(
    pre: GameState,
    post: GameState,
    input: Seq<char>,
    out: GuessOutcome,
    c: char,
)
    requires
        pre is Running,
        pre.wf(),
        submit_post(pre, post, input, out),
        normalized(input) == Some(c),
        !pre.spec_guesses()[letter_index(c)],
        secret_has(pre.spec_secret(), c),
        solved(pre.spec_secret(), pre.spec_guesses().update(letter_index(c), true)),
    ensures
        post is Won,
        out matches GuessOutcome::Finished { won, secret } && won && secret@
            == pre.spec_secret(),
{
}

/// While the game keeps running, a guess never rewrites history: the secret
/// stays the same word, the miss count never drops and rises by at most one,
/// and a guessed flag, once set, is never cleared.
pub proof fn lemma_state_monotone(
    pre: GameState,
    post: GameState,
    input: Seq<char>,
    out: GuessOutcome,
)
    requires
        pre is Running,
        pre.wf(),
        submit_post(pre, post, input, out),
    ensures
        post is Running ==> post.spec_secret() == pre.spec_secret(),
        post is Running ==> pre.spec_misses() <= post.spec_misses() <= pre.spec_misses() + 1,
        post is Running ==> forall|i: int|
            0 <= i < 26 && pre.spec_guesses()[i] ==> #[trigger] post.spec_guesses()[i],
{
}

/// Rendering is a function of the state alone: any two grids that satisfy
/// the contract of `render_guessed_grid` for the same state are identical.
pub proof fn lemma_grid_deterministic(s: GameState, r1: Seq<(char, bool)>, r2: Seq<(char, bool)>)
    requires
        r1 == grid_of(s.spec_guesses()),
        r2 == grid_of(s.spec_guesses()),
    ensures
        r1 == r2,
{
}

} // verus!
