use vstd::prelude::*;

verus! {

/// A decimal digit.
pub open spec fn spec_is_digit(c: char) -> bool {
    '0' <= c && c <= '9'
}

/// The characters the interpreter accepts: the summation syntax and
/// digits.  Anything else is rejected as input.
pub open spec fn spec_valid_token(c: char) -> bool {
    c == '(' || c == '+' || c == ' ' || c == ')' || spec_is_digit(c)
}

/// An input made only of acceptable characters.
pub open spec fn spec_valid_input(s: Seq<char>) -> bool {
    forall|i: int| 0 <= i < s.len() ==> spec_valid_token(#[trigger] s[i])
}

/// The value of one digit.
pub open spec fn spec_digit_val(c: char) -> int {
    c as u32 - 48
}

/// The interpreter's state after scanning a prefix, reading left to
/// right: the sum of the numbers already finished, and the value of the
/// digit run currently being read (zero between numbers).
pub open spec fn spec_scan(s: Seq<char>) -> (int, int)
    decreases s.len(),
{
    if s.len() == 0 {
        (0, 0)
    } else {
        let st = spec_scan(s.drop_last());
        let c = s.last();
        if spec_is_digit(c) {
            (st.0, st.1 * 10 + spec_digit_val(c))
        } else {
            (st.0 + st.1, 0)
        }
    }
}

/// The sum of the numbers in the input: maximal digit runs, read as
/// decimal numbers, added together.
pub open spec fn spec_sum(s: Seq<char>) -> int {
    spec_scan(s).0 + spec_scan(s).1
}

/// Both scan components are never negative.
proof fn lemma_scan_nonneg(s: Seq<char>)
    ensures
        spec_scan(s).0 >= 0,
        spec_scan(s).1 >= 0,
    decreases s.len(),
{
    if s.len() > 0 {
        lemma_scan_nonneg(s.drop_last());
    }
}

/// The sum over a prefix never exceeds the sum over the whole input.
proof fn lemma_sum_prefix_le(s: Seq<char>, i: int)
    requires
        0 <= i <= s.len(),
    ensures
        spec_sum(s.take(i)) <= spec_sum(s),
    decreases s.len() - i,
{
    if i == s.len() {
        assert(s.take(i) =~= s);
    } else {
        lemma_sum_prefix_le(s, i + 1);
        let t = s.take(i + 1);
        assert(t.drop_last() =~= s.take(i));
        assert(t.last() == s[i]);
        lemma_scan_nonneg(s.take(i));
    }
}

/// The toy summation interpreter: it scans its input once and adds up
/// every number it meets, so `"(+ 1 2)"` comes to `3`.
#[derive(Debug)]
pub struct Interpreter {
    pub text: String,
    pub pos: usize,
    pub result: i32,
}

impl Interpreter {
    /// The reading position never passes the end of the input.
    pub open spec fn wf(&self) -> bool {
        self.pos <= self.text@.len()
    }

    pub fn new(str: &str) -> (it: Interpreter)
        ensures
            it.text@ == str@,
            it.pos == 0,
            it.result == 0,
    {
        Interpreter { text: str.to_owned(), pos: 0, result: 0 }
    }

    /// Runs the interpreter over the whole input and returns the sum of
    /// its numbers.
    pub fn interpret(&mut self) -> (r: i32)
        requires
            old(self).pos == 0,
            old(self).result == 0,
            spec_valid_input(old(self).text@),
            spec_sum(old(self).text@) <= i32::MAX,
        ensures
            final(self).text == old(self).text,
            r == spec_sum(old(self).text@),
    {
        loop
            invariant
                self.wf(),
                self.text == old(self).text,
                spec_valid_input(self.text@),
                spec_sum(self.text@) <= i32::MAX,
                self.result == spec_sum(self.text@.take(self.pos as int)),
                self.pos < self.text@.len() ==> spec_scan(self.text@.take(self.pos as int)).1 == 0,
            ensures
                self.text == old(self).text,
                self.pos == self.text@.len(),
                self.result == spec_sum(self.text@.take(self.pos as int)),
            decreases self.text@.len() - self.pos,
        {
            let token = match self.next_token() {
                Some(t) => t,
                None => {
                    break ;
                },
            };
            proof {
                let p = self.pos as int;
                assert(self.text@.take(p).drop_last() =~= self.text@.take(p - 1));
                assert(self.text@.take(p).last() == token);
            }
            self.parse_token(token);
        }
        proof {
            assert(self.text@.take(self.text@.len() as int) =~= self.text@);
        }
        self.result
    }

    /// Hands out the next character, advancing past it.
    fn next_token(&mut self) -> (r: Option<char>)
        requires
            old(self).wf(),
        ensures
            final(self).text == old(self).text,
            final(self).result == old(self).result,
            final(self).wf(),
            match r {
                Some(c) => old(self).pos < old(self).text@.len() && c == old(self).text@[old(
                    self,
                ).pos as int] && final(self).pos == old(self).pos + 1,
                None => old(self).pos == old(self).text@.len() && *final(self) == *old(self),
            },
    {
        if self.pos < self.text.as_str().unicode_len() {
            let c = self.text.as_str().get_char(self.pos);
            self.pos = self.pos + 1;
            Some(c)
        } else {
            None
        }
    }

    /// Handles one consumed character: syntax is skipped, a digit opens
    /// a number that is read to its end.
    fn parse_token(&mut self, token: char)
        requires
            old(self).wf(),
            spec_valid_input(old(self).text@),
            spec_sum(old(self).text@) <= i32::MAX,
            1 <= old(self).pos,
            token == old(self).text@[old(self).pos - 1],
            old(self).result == spec_scan(old(self).text@.take(old(self).pos - 1)).0,
            spec_scan(old(self).text@.take(old(self).pos - 1)).1 == 0,
        ensures
            final(self).text == old(self).text,
            final(self).wf(),
            old(self).pos <= final(self).pos,
            final(self).result == spec_sum(old(self).text@.take(final(self).pos as int)),
            final(self).pos < old(self).text@.len() ==> spec_scan(
                old(self).text@.take(final(self).pos as int),
            ).1 == 0,
    {
        proof {
            let p = old(self).pos as int;
            assert(self.text@.take(p).drop_last() =~= self.text@.take(p - 1));
            assert(self.text@.take(p).last() == token);
            lemma_scan_nonneg(self.text@.take(p - 1));
        }
        if token == '(' || token == '+' || token == ' ' || token == ')' {
            return ;
        }
        proof {
            assert(spec_is_digit(token));
        }
        let d = (token as u32) - 48;
        self.read_number(d as i32);
    }

    /// Reads the rest of a digit run that opened with `current`, adding
    /// the finished number to the running result.  The character that
    /// ends the run is consumed with it.
    fn read_number(&mut self, current: i32)
        requires
            old(self).wf(),
            spec_valid_input(old(self).text@),
            spec_sum(old(self).text@) <= i32::MAX,
            1 <= old(self).pos,
            current >= 0,
            spec_scan(old(self).text@.take(old(self).pos as int)) == (
                old(self).result as int,
                current as int,
            ),
        ensures
            final(self).text == old(self).text,
            final(self).wf(),
            old(self).pos <= final(self).pos,
            final(self).result == spec_sum(old(self).text@.take(final(self).pos as int)),
            final(self).pos < old(self).text@.len() ==> spec_scan(
                old(self).text@.take(final(self).pos as int),
            ).1 == 0,
    {
        let mut number = current;
        loop
            invariant_except_break
                spec_scan(self.text@.take(self.pos as int)) == (
                    self.result as int,
                    number as int,
                ),
            invariant
                self.wf(),
                self.text == old(self).text,
                spec_valid_input(self.text@),
                spec_sum(self.text@) <= i32::MAX,
                old(self).pos <= self.pos,
                self.result == old(self).result,
                number >= 0,
            ensures
                self.text == old(self).text,
                self.result == old(self).result,
                self.wf(),
                old(self).pos <= self.pos,
                (self.pos == self.text@.len() && spec_scan(self.text@.take(self.pos as int)) == (
                    self.result as int,
                    number as int,
                )) || (spec_scan(self.text@.take(self.pos as int)) == (
                    self.result as int + number,
                    0int,
                )),
            decreases self.text@.len() - self.pos,
        {
            let c = match self.next_token() {
                Some(c) => c,
                None => {
                    break ;
                },
            };
            proof {
                let p = self.pos as int;
                assert(self.text@.take(p).drop_last() =~= self.text@.take(p - 1));
                assert(self.text@.take(p).last() == c);
                lemma_scan_nonneg(self.text@.take(p - 1));
                lemma_sum_prefix_le(self.text@, p);
            }
            if '0' <= c && c <= '9' {
                proof {
                    assert(spec_scan(self.text@.take(self.pos as int)).1 == number * 10
                        + spec_digit_val(c));
                    assert(self.result + number * 10 + spec_digit_val(c) <= i32::MAX);
                }
                number = number * 10 + ((c as u32) - 48) as i32;
            } else {
                break ;
            }
        }
        proof {
            lemma_scan_nonneg(old(self).text@.take(old(self).pos as int));
            lemma_scan_nonneg(self.text@.take(self.pos as int));
            lemma_sum_prefix_le(self.text@, self.pos as int);
        }
        self.result = self.result + number;
    }
}

} // verus!
