use vstd::prelude::*;
use crate::game::GameState;

verus! {

/// The character of a decimal digit.
pub open spec fn digit_char(d: nat) -> char {
    if d == 0 {
        '0'
    } else if d == 1 {
        '1'
    } else if d == 2 {
        '2'
    } else if d == 3 {
        '3'
    } else if d == 4 {
        '4'
    } else if d == 5 {
        '5'
    } else if d == 6 {
        '6'
    } else if d == 7 {
        '7'
    } else if d == 8 {
        '8'
    } else {
        '9'
    }
}

/// The decimal numeral of `n`, most significant digit first, without
/// leading zeros (`0` is written `"0"`).
pub open spec fn decimal(n: nat) -> Seq<char>
    decreases n,
{
    if n < 10 {
        seq![digit_char(n)]
    } else {
        decimal(n / 10).push(digit_char(n % 10))
    }
}

/// The number a string of ASCII digits stands for, read in base ten.
pub open spec fn numeral_value(s: Seq<char>) -> int
    decreases s.len(),
{
    if s.len() == 0 {
        0
    } else {
        numeral_value(s.drop_last()) * 10 + (s.last() as int - '0' as int)
    }
}

/// `s` is a decimal numeral as Rust's `Display` writes one: at least one
/// character, only the ASCII digits `0`-`9`, and no leading zero unless the
/// numeral is `0` itself.
pub open spec fn is_numeral(s: Seq<char>) -> bool {
    &&& s.len() > 0
    &&& forall|i: int| 0 <= i < s.len() ==> '0' as int <= #[trigger] s[i] as int <= '9' as int
    &&& s.len() > 1 ==> s[0] != '0'
}

/// `digit_char` gives the ASCII digit of each number below ten.
pub proof fn lemma_digit_char_is_ascii_digit(d: nat)
    requires
        d < 10,
    ensures
        digit_char(d) as int == '0' as int + d,
{
}

/// The numeral `decimal(n)` is a well-formed decimal numeral that reads
/// back as `n`; its first digit is not `0` when `n` is positive.
pub proof fn lemma_decimal_reads_back(n: nat)
    ensures
        is_numeral(decimal(n)),
        numeral_value(decimal(n)) == n,
        n > 0 ==> decimal(n)[0] != '0',
    decreases n,
{
    lemma_digit_char_is_ascii_digit(n % 10);
    if n >= 10 {
        lemma_decimal_reads_back(n / 10);
        let d = decimal(n);
        let p = decimal(n / 10);
        assert(d.drop_last() =~= p);
        assert(d.last() == digit_char(n % 10));
        assert(numeral_value(d) == numeral_value(p) * 10 + (n % 10));
        assert(d[0] == p[0]);
        assert forall|i: int| 0 <= i < d.len() implies '0' as int <= #[trigger] d[i] as int
            <= '9' as int by {
            if i < p.len() {
                assert(d[i] == p[i]);
            }
        }
    } else {
        let d = decimal(n);
        assert(d.drop_last() =~= Seq::<char>::empty());
        assert(numeral_value(Seq::<char>::empty()) == 0);
        assert(d.last() == digit_char(n));
        assert(numeral_value(d) == n);
    }
}

/// Two numerals read the same only when they are the same string: the
/// decimal numeral of a number is unique.
pub proof fn lemma_numeral_unique(a: Seq<char>, b: Seq<char>)
    requires
        is_numeral(a),
        is_numeral(b),
        numeral_value(a) == numeral_value(b),
    ensures
        a == b,
    decreases a.len() + b.len(),
{
    lemma_numeral_bounds(a);
    lemma_numeral_bounds(b);
    if a.len() > 1 && b.len() > 1 {
        let a1 = a.drop_last();
        let b1 = b.drop_last();
        assert(a1[0] == a[0] && b1[0] == b[0]);
        assert(is_numeral(a1)) by {
            assert forall|i: int| 0 <= i < a1.len() implies '0' as int <= #[trigger] a1[i] as int
                <= '9' as int by {
                assert(a1[i] == a[i]);
            }
        }
        assert(is_numeral(b1)) by {
            assert forall|i: int| 0 <= i < b1.len() implies '0' as int <= #[trigger] b1[i] as int
                <= '9' as int by {
                assert(b1[i] == b[i]);
            }
        }
        let da = a.last() as int - '0' as int;
        let db = b.last() as int - '0' as int;
        assert(a.last() == a[a.len() - 1]);
        assert(b.last() == b[b.len() - 1]);
        assert(numeral_value(a1) == numeral_value(b1) && da == db) by (nonlinear_arith)
            requires
                numeral_value(a1) * 10 + da == numeral_value(b1) * 10 + db,
                0 <= da < 10,
                0 <= db < 10,
                numeral_value(a1) >= 0,
                numeral_value(b1) >= 0,
        ;
        lemma_numeral_unique(a1, b1);
        assert(a =~= a1.push(a.last()));
        assert(b =~= b1.push(b.last()));
        assert(a.last() as int == b.last() as int);
    } else if a.len() == 1 && b.len() == 1 {
        assert(a.drop_last() =~= Seq::<char>::empty());
        assert(b.drop_last() =~= Seq::<char>::empty());
        assert(numeral_value(Seq::<char>::empty()) == 0);
        assert(a.last() == a[0] && b.last() == b[0]);
        assert(a[0] as int == b[0] as int);
        assert(a =~= b);
    } else if a.len() == 1 {
        assert(a.drop_last() =~= Seq::<char>::empty());
        assert(numeral_value(Seq::<char>::empty()) == 0);
        assert(a.last() == a[0]);
        assert(a[0] as int <= '9' as int);
        assert(numeral_value(a) < 10);
    } else {
        assert(b.drop_last() =~= Seq::<char>::empty());
        assert(numeral_value(Seq::<char>::empty()) == 0);
        assert(b.last() == b[0]);
        assert(b[0] as int <= '9' as int);
        assert(numeral_value(b) < 10);
    }
}

/// A numeral of more than one digit stands for at least ten; every
/// numeral stands for a number at least zero.
proof fn lemma_numeral_bounds(s: Seq<char>)
    requires
        is_numeral(s),
    ensures
        numeral_value(s) >= 0,
        s.len() > 1 ==> numeral_value(s) >= 10,
    decreases s.len(),
{
    if s.len() > 1 {
        let s1 = s.drop_last();
        assert(s1[0] == s[0]);
        assert forall|i: int| 0 <= i < s1.len() implies '0' as int <= #[trigger] s1[i] as int
            <= '9' as int by {
            assert(s1[i] == s[i]);
        }
        assert(s.last() == s[s.len() - 1]);
        lemma_numeral_bounds(s1);
        assert('0' as int <= s[s.len() - 1] as int);
        if s1.len() == 1 {
            assert(s1.drop_last() =~= Seq::<char>::empty());
            assert(numeral_value(Seq::<char>::empty()) == 0);
            assert(s1.last() == s1[0]);
            assert(s1[0] as int <= '9' as int);
            assert(s1[0] != '0');
            assert(numeral_value(s1) >= 1);
        }
    } else {
        assert(s.drop_last() =~= Seq::<char>::empty());
        assert(numeral_value(Seq::<char>::empty()) == 0);
        assert(s.last() == s[0]);
        assert('0' as int <= s[0] as int);
    }
}

/// The score line of the head-up display.
pub open spec fn spec_score_line(score: nat, on_board: nat) -> Seq<char> {
    "Score: "@ + decimal(score) + "  \u{1F9AB}\u{00D7}"@ + decimal(on_board)
}

/// The final-score line of the game-over screen.
pub open spec fn spec_final_score_line(score: nat) -> Seq<char> {
    "Final Score: "@ + decimal(score)
}

/// The one-character string of a digit.
fn digit_str(d: u32) -> (s: &'static str)
    requires
        d < 10,
    ensures
        s@ == seq![digit_char(d as nat)],
{
    proof {
        reveal_strlit("0");
        reveal_strlit("1");
        reveal_strlit("2");
        reveal_strlit("3");
        reveal_strlit("4");
        reveal_strlit("5");
        reveal_strlit("6");
        reveal_strlit("7");
        reveal_strlit("8");
        reveal_strlit("9");
    }
    if d == 0 {
        "0"
    } else if d == 1 {
        "1"
    } else if d == 2 {
        "2"
    } else if d == 3 {
        "3"
    } else if d == 4 {
        "4"
    } else if d == 5 {
        "5"
    } else if d == 6 {
        "6"
    } else if d == 7 {
        "7"
    } else if d == 8 {
        "8"
    } else {
        "9"
    }
}

/// Appends the decimal numeral of `n` to `s`.
fn push_decimal(s: &mut String, n: u32)
    ensures
        final(s)@ == old(s)@ + decimal(n as nat),
    decreases n,
{
    if n >= 10 {
        push_decimal(s, n / 10);
    }
    s.append(digit_str(n % 10));
    assert(s@ =~= old(s)@ + decimal(n as nat));
}

/// The decimal numeral of `n`, as `n.to_string()` writes it.
pub fn decimal_string(n: u32) -> (s: String)
    ensures
        s@ == decimal(n as nat),
        is_numeral(s@),
        numeral_value(s@) == n,
{
    proof {
        lemma_decimal_reads_back(n as nat);
    }
    let mut s = String::new();
    push_decimal(&mut s, n);
    assert(s@ =~= decimal(n as nat));
    s
}

/// The score line shown while playing: the score, then the number of
/// passengers on board.
pub fn score_line(game: &GameState) -> (s: String)
    ensures
        s@ == spec_score_line(game.score as nat, game.passengers_on_board as nat),
{
    let mut s = String::from_str("Score: ");
    push_decimal(&mut s, game.score);
    s.append("  \u{1F9AB}\u{00D7}");
    push_decimal(&mut s, game.passengers_on_board);
    s
}

/// The line that reports the final score when the game is over.
pub fn final_score_line(game: &GameState) -> (s: String)
    ensures
        s@ == spec_final_score_line(game.score as nat),
{
    let mut s = String::from_str("Final Score: ");
    push_decimal(&mut s, game.score);
    s
}

} // verus!

verus! {

/// The score line is `"Score: "`, a numeral that reads back as the score,
/// the rider separator, and a numeral that reads back as the number of
/// riders on board.
pub proof fn lemma_score_line_reads_back(score: nat, on_board: nat)
    ensures
        exists|a: Seq<char>, b: Seq<char>|
            {
                &&& spec_score_line(score, on_board) == "Score: "@ + a + "  \u{1F9AB}\u{00D7}"@ + b
                &&& is_numeral(a)
                &&& numeral_value(a) == score
                &&& is_numeral(b)
                &&& numeral_value(b) == on_board
            },
{
    lemma_decimal_reads_back(score);
    lemma_decimal_reads_back(on_board);
    let a = decimal(score);
    let b = decimal(on_board);
    assert(spec_score_line(score, on_board) == "Score: "@ + a + "  \u{1F9AB}\u{00D7}"@ + b);
}

/// The final-score line is `"Final Score: "` followed by a numeral that
/// reads back as the whole score, and nothing else.
pub proof fn lemma_final_score_line_reads_back(score: nat)
    ensures
        spec_final_score_line(score).len() > ("Final Score: "@).len(),
        spec_final_score_line(score).subrange(0, ("Final Score: "@).len() as int)
            == "Final Score: "@,
        is_numeral(
            spec_final_score_line(score).subrange(
                ("Final Score: "@).len() as int,
                spec_final_score_line(score).len() as int,
            ),
        ),
        numeral_value(
            spec_final_score_line(score).subrange(
                ("Final Score: "@).len() as int,
                spec_final_score_line(score).len() as int,
            ),
        ) == score,
{
    lemma_decimal_reads_back(score);
    let p = "Final Score: "@;
    let line = spec_final_score_line(score);
    assert(line.subrange(0, p.len() as int) =~= p);
    assert(line.subrange(p.len() as int, line.len() as int) =~= decimal(score));
}

} // verus!
