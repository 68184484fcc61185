//! Content drivers: word cycling over a fixed list, splitting a word into two
//! non-empty halves, and a score counter rendered as text.

use vstd::prelude::*;
use vstd::arithmetic::div_mod::lemma_add_mod_noop;
use vstd::arithmetic::div_mod::lemma_mod_add_multiples_vanish;
use vstd::arithmetic::div_mod::lemma_mod_division_less_than_divisor;
use vstd::arithmetic::div_mod::lemma_mod_self_0;
use vstd::arithmetic::div_mod::lemma_small_mod;
use vstd::string::StrSliceExecFns;
use vstd::string::StringExecFns;

use crate::gate::ChangeGate;
use crate::gate::gate_spec;
use crate::text::TextElement;
use crate::timer::Timer;

verus! {

/// The index following `i` in a cycle over a list of length `n`: the index
/// wraps back to the first entry when it reaches the list length.
pub open spec fn next_index(i: nat, n: nat) -> nat {
    if i + 1 == n {
        0
    } else {
        i + 1
    }
}

/// The index reached after `fires` firings from `start`, cycling over a list
/// of length `n`.
pub open spec fn index_after_fires(start: nat, fires: nat, n: nat) -> nat
    decreases fires,
{
    if fires == 0 {
        start
    } else {
        next_index(index_after_fires(start, (fires - 1) as nat, n), n)
    }
}

/// The cycled index is the start offset by the number of fires, modulo the
/// list length.
pub proof fn lemma_index_after_fires_mod(start: nat, fires: nat, n: nat)
    requires
        0 < n,
        start < n,
    ensures
        index_after_fires(start, fires, n) == (start + fires) % n,
    decreases fires,
{
    if fires == 0 {
        lemma_small_mod(start, n);
    } else {
        lemma_index_after_fires_mod(start, (fires - 1) as nat, n);
        let prev = index_after_fires(start, (fires - 1) as nat, n);
        lemma_mod_division_less_than_divisor((start + fires - 1) as int, n as int);
        lemma_add_mod_noop((start + fires - 1) as int, 1, n as int);
        if n == 1 {
            lemma_mod_division_less_than_divisor((start + fires) as int, 1);
        } else {
            lemma_small_mod(1, n);
            if prev + 1 == n {
                lemma_mod_self_0(n as int);
            } else {
                lemma_small_mod((prev + 1) as nat, n);
            }
        }
    }
}

/// Law: cycling wraps.  Over a list of length `n`, the index returns to its
/// starting entry after exactly `n` fires.
pub proof fn lemma_cycle_wraps(start: nat, n: nat)
    requires
        0 < n,
        start < n,
    ensures
        index_after_fires(start, n, n) == start,
{
    lemma_index_after_fires_mod(start, n, n);
    lemma_mod_add_multiples_vanish(start as int, n as int);
    lemma_small_mod(start, n);
}

/// Pops the next entry from a fixed ordered word list, wrapping to the first
/// entry after the last.
pub struct WordCycler {
    pub words: Vec<String>,
    pub index: usize,
}

impl WordCycler {
    pub open spec fn wf(self) -> bool {
        &&& self.words@.len() > 0
        &&& (self.index as nat) < self.words@.len()
    }

    pub fn new(words: Vec<String>) -> (c: WordCycler)
        requires
            words@.len() > 0,
        ensures
            c.words == words,
            c.index == 0,
            c.wf(),
    {
        WordCycler { words, index: 0 }
    }

    /// Produce the current entry and advance the index, wrapping past the end.
    pub fn fire(&mut self) -> (word: String)
        requires
            old(self).wf(),
        ensures
            word == old(self).words@[old(self).index as int],
            final(self).words == old(self).words,
            final(self).index as nat == next_index(old(self).index as nat, old(self).words@.len()),
            final(self).wf(),
    {
        let len = self.words.len();
        let word = self.words[self.index].clone();
        self.index = if self.index + 1 == len {
            0
        } else {
            self.index + 1
        };
        word
    }
}

/// How many times `c` occurs in `s`.
pub open spec fn count_char(s: Seq<char>, c: char) -> nat
    decreases s.len(),
{
    if s.len() == 0 {
        0
    } else {
        count_char(s.drop_last(), c) + (if s.last() == c {
            1nat
        } else {
            0nat
        })
    }
}

/// Occurrence counts add over concatenation.
pub proof fn lemma_count_char_concat(a: Seq<char>, b: Seq<char>, c: char)
    ensures
        count_char(a + b, c) == count_char(a, c) + count_char(b, c),
    decreases b.len(),
{
    if b.len() == 0 {
        assert(a + b =~= a);
    } else {
        lemma_count_char_concat(a, b.drop_last(), c);
        assert((a + b).drop_last() =~= a + b.drop_last());
        assert((a + b).last() == b.last());
    }
}

/// A character occurs zero times exactly when no position holds it.
pub proof fn lemma_count_char_zero(s: Seq<char>, c: char)
    ensures
        count_char(s, c) == 0 <==> (forall|i: int| 0 <= i < s.len() ==> s[i] != c),
    decreases s.len(),
{
    if s.len() > 0 {
        lemma_count_char_zero(s.drop_last(), c);
        assert(forall|i: int| 0 <= i < s.len() - 1 ==> s[i] == s.drop_last()[i]);
    }
}

/// A word split in two: matched/unmatched or left/right halves.  Produced only
/// with both halves non-empty.
#[derive(Debug)]
pub struct SplitWord {
    pub left: String,
    pub right: String,
}

/// A defect in authored content, detected when the configuration is loaded:
/// it aborts startup and is never retried at runtime.
#[derive(Clone, Copy, PartialEq, Eq, Structural, Debug)]
pub enum ConfigError {
    /// The source string holds no delimiter.
    DelimiterMissing,
    /// The source string holds more than one delimiter.
    DelimiterRepeated,
    /// The single delimiter sits at an end, leaving one half empty.
    EmptyHalf,
}

/// A source string is well-formed when it holds exactly one delimiter and
/// that delimiter separates two non-empty halves.
pub open spec fn parse_ok(s: Seq<char>, delimiter: char) -> bool {
    &&& count_char(s, delimiter) == 1
    &&& s.first() != delimiter
    &&& s.last() != delimiter
}

/// The error a malformed source reports: no delimiter, more than one, or a
/// single delimiter at an end leaving one half empty.
pub open spec fn parse_error(s: Seq<char>, delimiter: char) -> ConfigError {
    if count_char(s, delimiter) == 0 {
        ConfigError::DelimiterMissing
    } else if count_char(s, delimiter) >= 2 {
        ConfigError::DelimiterRepeated
    } else {
        ConfigError::EmptyHalf
    }
}

/// `sw` is the split of `s` at its delimiter: the halves are non-empty, free
/// of the delimiter, and rejoining them around the delimiter restores `s`.
pub open spec fn is_split_of(sw: SplitWord, s: Seq<char>, delimiter: char) -> bool {
    &&& sw.left@.len() >= 1
    &&& sw.right@.len() >= 1
    &&& sw.left@ + seq![delimiter] + sw.right@ == s
    &&& count_char(sw.left@, delimiter) == 0
    &&& count_char(sw.right@, delimiter) == 0
}

/// Count the delimiter's occurrences and find the first one.
fn scan_delimiter(source: &str, delimiter: char) -> (r: (usize, usize))
    ensures
        r.0 as nat == count_char(source@, delimiter),
        r.0 > 0 ==> r.1 < source@.len() && source@[r.1 as int] == delimiter,
        r.0 > 0 ==> forall|j: int| 0 <= j < r.1 ==> source@[j] != delimiter,
{
    let n = source.unicode_len();
    let mut i: usize = 0;
    let mut found: usize = 0;
    let mut first_at: usize = 0;
    while i < n
        invariant
            n as nat == source@.len(),
            i <= n,
            found <= i,
            found as nat == count_char(source@.subrange(0, i as int), delimiter),
            found > 0 ==> first_at < i && source@[first_at as int] == delimiter,
            forall|j: int| 0 <= j < (if found > 0 {
                first_at as int
            } else {
                i as int
            }) ==> source@[j] != delimiter,
        decreases n - i,
    {
        let c = source.get_char(i);
        proof {
            assert(source@.subrange(0, i + 1).drop_last() =~= source@.subrange(0, i as int));
            assert(source@.subrange(0, i + 1).last() == source@[i as int]);
        }
        if c == delimiter {
            if found == 0 {
                first_at = i;
            }
            found = found + 1;
        }
        i = i + 1;
    }
    proof {
        assert(source@.subrange(0, n as int) =~= source@);
    }
    (found, first_at)
}

/// A position holding the only occurrence of `c` is the only position
/// holding `c` at all.
proof fn lemma_single_occurrence(s: Seq<char>, c: char, p: int)
    requires
        count_char(s, c) == 1,
        0 <= p < s.len(),
        s[p] == c,
        forall|j: int| 0 <= j < p ==> s[j] != c,
    ensures
        forall|j: int| 0 <= j < s.len() && j != p ==> s[j] != c,
{
    let pre = s.subrange(0, p + 1);
    let post = s.subrange(p + 1, s.len() as int);
    assert(pre.drop_last() =~= s.subrange(0, p));
    assert(pre.last() == s[p]);
    assert forall|j: int| 0 <= j < p implies s.subrange(0, p)[j] != c by {
        assert(s.subrange(0, p)[j] == s[j]);
    }
    lemma_count_char_zero(s.subrange(0, p), c);
    assert(count_char(pre, c) == 1);
    assert(s =~= pre + post);
    lemma_count_char_concat(pre, post, c);
    lemma_count_char_zero(post, c);
    assert forall|j: int| 0 <= j < s.len() && j != p implies s[j] != c by {
        if p < j {
            assert(post[j - p - 1] == s[j]);
        }
    }
}

impl SplitWord {
    /// Parse a delimiter-separated source string into its two halves.
    /// Succeeds exactly on well-formed sources; a malformed source is a
    /// configuration error, reported precisely.
    pub fn parse(source: &str, delimiter: char) -> (r: Result<SplitWord, ConfigError>)
        ensures
            r is Ok <==> parse_ok(source@, delimiter),
            r matches Ok(sw) ==> is_split_of(sw, source@, delimiter),
            r matches Err(e) ==> e == parse_error(source@, delimiter),
    {
        let n = source.unicode_len();
        let (found, first_at) = scan_delimiter(source, delimiter);
        if found == 0 {
            proof {
                lemma_count_char_zero(source@, delimiter);
            }
            return Err(ConfigError::DelimiterMissing);
        }
        if found >= 2 {
            return Err(ConfigError::DelimiterRepeated);
        }
        proof {
            lemma_single_occurrence(source@, delimiter, first_at as int);
        }
        if first_at == 0 || first_at + 1 == n {
            return Err(ConfigError::EmptyHalf);
        }
        let left = source.substring_char(0, first_at).to_owned();
        let right = source.substring_char(first_at + 1, n).to_owned();
        proof {
            let s = source@;
            let p = first_at as int;
            assert forall|j: int| 0 <= j < p implies s.subrange(0, p)[j] != delimiter by {
                assert(s.subrange(0, p)[j] == s[j]);
            }
            lemma_count_char_zero(s.subrange(0, p), delimiter);
            assert forall|j: int| 0 <= j < n - p - 1 implies #[trigger] s.subrange(p + 1, n as int)[j]
                != delimiter by {
                assert(s.subrange(p + 1, n as int)[j] == s[p + 1 + j]);
            }
            lemma_count_char_zero(s.subrange(p + 1, n as int), delimiter);
            assert(s.subrange(0, p) + seq![delimiter] + s.subrange(p + 1, n as int) =~= s);
        }
        Ok(SplitWord { left, right })
    }
}

/// Map an externally drawn random sample to a split index: uniform samples
/// give uniform indices in `[1, len - 1]`, so neither half of a `len`-long
/// word can come out empty.
pub fn pick_split_index(sample: u64, len: usize) -> (index: usize)
    requires
        2 <= len,
    ensures
        1 <= index < len,
        index as int == 1 + sample as int % (len - 1),
{
    let m = (len as u64) - 1;
    let r = sample % m;
    1 + (r as usize)
}

/// Split a word at the given index into a non-empty prefix and a non-empty
/// suffix: the matched and unmatched parts of a re-split.
pub fn resplit(source: &str, index: usize) -> (sw: SplitWord)
    requires
        1 <= index < source@.len(),
    ensures
        sw.left@ == source@.subrange(0, index as int),
        sw.right@ == source@.subrange(index as int, source@.len() as int),
        sw.left@ + sw.right@ == source@,
        sw.left@.len() >= 1,
        sw.right@.len() >= 1,
{
    let n = source.unicode_len();
    let left = source.substring_char(0, index).to_owned();
    let right = source.substring_char(index, n).to_owned();
    proof {
        assert(source@.subrange(0, index as int) + source@.subrange(
            index as int,
            source@.len() as int,
        ) =~= source@);
    }
    SplitWord { left, right }
}

/// Law: the split invariant.  Splitting any word at any interior index leaves
/// two non-empty halves whose concatenation is the original word.
pub proof fn lemma_split_invariant(s: Seq<char>, index: int)
    requires
        1 <= index < s.len(),
    ensures
        s.subrange(0, index).len() >= 1,
        s.subrange(index, s.len() as int).len() >= 1,
        s.subrange(0, index) + s.subrange(index, s.len() as int) == s,
{
    assert(s.subrange(0, index) + s.subrange(index, s.len() as int) =~= s);
}

/// The decimal digit character for a value below ten.
pub open spec fn digit_char(d: int) -> char {
    if d == 0 {
        '0'
    } else if d == 1 {
        '1'
    } else if d == 2 {
        '2'
    } else if d == 3 {
        '3'
    } else if d == 4 {
        '4'
    } else if d == 5 {
        '5'
    } else if d == 6 {
        '6'
    } else if d == 7 {
        '7'
    } else if d == 8 {
        '8'
    } else {
        '9'
    }
}

/// The decimal rendering of `n`, most significant digit first.
pub open spec fn dec_chars(n: nat) -> Seq<char>
    decreases n,
{
    if n < 10 {
        seq![digit_char(n as int)]
    } else {
        dec_chars(n / 10) + seq![digit_char((n % 10) as int)]
    }
}

/// The text a score renders as.
pub open spec fn score_text(n: nat) -> Seq<char> {
    "Score: "@ + dec_chars(n)
}

fn digit_char_of(d: u64) -> (c: char)
    requires
        d < 10,
    ensures
        c == digit_char(d as int),
{
    if d == 0 {
        '0'
    } else if d == 1 {
        '1'
    } else if d == 2 {
        '2'
    } else if d == 3 {
        '3'
    } else if d == 4 {
        '4'
    } else if d == 5 {
        '5'
    } else if d == 6 {
        '6'
    } else if d == 7 {
        '7'
    } else if d == 8 {
        '8'
    } else {
        '9'
    }
}

/// Relies on `String::push`: appends exactly the given character to the end
/// of the string.
#[verifier::external_body]
fn push_char(s: &mut String, c: char)
    ensures
        final(s)@ == old(s)@ + seq![c],
{
    s.push(c);
}

/// Append the decimal rendering of `n`.
fn push_dec_chars(n: u64, out: &mut String)
    ensures
        final(out)@ == old(out)@ + dec_chars(n as nat),
    decreases n,
{
    if n < 10 {
        let c = digit_char_of(n);
        push_char(out, c);
    } else {
        assert(n / 10 < n) by (nonlinear_arith)
            requires
                n >= 10,
        ;
        push_dec_chars(n / 10, out);
        let c = digit_char_of(n % 10);
        push_char(out, c);
        proof {
            assert(old(out)@ + dec_chars((n / 10) as nat) + seq![digit_char((n % 10) as int)]
                =~= old(out)@ + dec_chars(n as nat));
        }
    }
}

/// Counts fires and renders the running score as text.
pub struct ScoreCounter {
    pub score: u64,
}

impl ScoreCounter {
    pub fn new() -> (c: ScoreCounter)
        ensures
            c.score == 0,
    {
        ScoreCounter { score: 0 }
    }

    /// One fire increments the score by one.
    pub fn fire(&mut self)
        requires
            old(self).score < u64::MAX,
        ensures
            final(self).score == old(self).score + 1,
    {
        self.score = self.score + 1;
    }

    /// The content this counter proposes: its score rendered in decimal
    /// behind the fixed prefix.
    pub fn render(&self) -> (text: String)
        ensures
            text@ == score_text(self.score as nat),
    {
        let mut text = String::from_str("Score: ");
        push_dec_chars(self.score, &mut text);
        text
    }
}

/// One tick of the word-cycling driver: advance the timer; on a fire, pop the
/// next entry from the list and commit it through the change gate.
pub fn cycle_driver_tick(
    timer: &mut Timer,
    cycler: &mut WordCycler,
    element: &mut TextElement,
    delta: u64,
) -> (fired: bool)
    requires
        old(timer).wf(),
        old(cycler).wf(),
        old(element).wf(),
    ensures
        fired == old(timer).fires(delta),
        *final(timer) == old(timer).tick_spec(delta),
        final(timer).wf(),
        final(cycler).wf(),
        final(element).wf(),
        !fired ==> *final(cycler) == *old(cycler) && *final(element) == *old(element),
        fired ==> final(cycler).words == old(cycler).words && final(cycler).index as nat
            == next_index(old(cycler).index as nat, old(cycler).words@.len()),
        fired ==> gate_spec(
            *old(element),
            old(cycler).words@[old(cycler).index as int]@,
            *final(element),
        ),
{
    let fired = timer.tick(delta);
    if fired {
        let word = cycler.fire();
        ChangeGate::apply(element, word);
    }
    fired
}

/// One tick of the random re-split driver: advance the timer; on a fire, map
/// the externally drawn sample to an interior split index of the fixed full
/// word and commit the matched prefix and unmatched suffix through the change
/// gate.
pub fn resplit_driver_tick(
    timer: &mut Timer,
    full: &str,
    sample: u64,
    matched: &mut TextElement,
    unmatched: &mut TextElement,
    delta: u64,
) -> (fired: bool)
    requires
        old(timer).wf(),
        old(matched).wf(),
        old(unmatched).wf(),
        2 <= full@.len(),
    ensures
        fired == old(timer).fires(delta),
        *final(timer) == old(timer).tick_spec(delta),
        final(timer).wf(),
        final(matched).wf(),
        final(unmatched).wf(),
        !fired ==> *final(matched) == *old(matched) && *final(unmatched) == *old(unmatched),
        fired ==> gate_spec(
            *old(matched),
            full@.subrange(0, 1 + sample as int % (full@.len() - 1)),
            *final(matched),
        ),
        fired ==> gate_spec(
            *old(unmatched),
            full@.subrange(1 + sample as int % (full@.len() - 1), full@.len() as int),
            *final(unmatched),
        ),
{
    let fired = timer.tick(delta);
    if fired {
        let n = full.unicode_len();
        let index = pick_split_index(sample, n);
        let sw = resplit(full, index);
        ChangeGate::apply(matched, sw.left);
        ChangeGate::apply(unmatched, sw.right);
    }
    fired
}

/// One tick of the counter driver: advance the timer; on a fire, count the
/// fire and commit the newly rendered score through the change gate.
pub fn score_driver_tick(
    timer: &mut Timer,
    counter: &mut ScoreCounter,
    element: &mut TextElement,
    delta: u64,
) -> (fired: bool)
    requires
        old(timer).wf(),
        old(element).wf(),
        old(counter).score < u64::MAX,
    ensures
        fired == old(timer).fires(delta),
        *final(timer) == old(timer).tick_spec(delta),
        final(timer).wf(),
        final(element).wf(),
        !fired ==> *final(counter) == *old(counter) && *final(element) == *old(element),
        fired ==> final(counter).score == old(counter).score + 1,
        fired ==> gate_spec(
            *old(element),
            score_text((old(counter).score + 1) as nat),
            *final(element),
        ),
{
    let fired = timer.tick(delta);
    if fired {
        counter.fire();
        let text = counter.render();
        ChangeGate::apply(element, text);
    }
    fired
}

} // verus!
