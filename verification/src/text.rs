//! Plain text helpers: splitting a request into its words and writing numbers.

use vstd::prelude::*;

verus! {

/// The pieces of `s` between single spaces, as `str::split(" ")` yields them:
/// a run of `k` spaces yields `k - 1` empty pieces, and the empty text yields one
/// empty piece.
pub open spec fn split_on_space(s: Seq<char>) -> Seq<Seq<char>>
    decreases s.len(),
{
    if s.len() == 0 {
        seq![Seq::<char>::empty()]
    } else {
        let init = split_on_space(s.drop_last());
        if s.last() == ' ' {
            init.push(Seq::<char>::empty())
        } else {
            init.update(init.len() - 1, init.last().push(s.last()))
        }
    }
}

/// Splitting always yields at least one piece.
pub proof fn lemma_split_nonempty(s: Seq<char>)
    ensures
        split_on_space(s).len() >= 1,
    decreases s.len(),
{
    if s.len() > 0 {
        lemma_split_nonempty(s.drop_last());
    }
}

/// Whether `s` holds no space.
pub open spec fn space_free(s: Seq<char>) -> bool {
    forall|k: int| 0 <= k < s.len() ==> s[k] != ' '
}

/// Appending text without spaces extends the last piece.
pub proof fn lemma_split_append_word(a: Seq<char>, b: Seq<char>)
    requires
        space_free(b),
    ensures
        split_on_space(a + b) == split_on_space(a).update(
            split_on_space(a).len() - 1,
            split_on_space(a).last() + b,
        ),
    decreases b.len(),
{
    lemma_split_nonempty(a);
    if b.len() == 0 {
        assert(a + b =~= a);
        let p = split_on_space(a);
        assert(p.last() + b =~= p.last());
        assert(p.update(p.len() - 1, p.last()) =~= p);
    } else {
        let b0 = b.drop_last();
        assert(space_free(b0));
        lemma_split_append_word(a, b0);
        assert((a + b).drop_last() =~= a + b0);
        assert((a + b).last() == b.last());
        let p = split_on_space(a);
        let q = split_on_space(a + b0);
        assert(q.last() == p.last() + b0);
        assert(q.last().push(b.last()) =~= p.last() + b);
        assert(q.update(q.len() - 1, q.last().push(b.last())) =~= p.update(
            p.len() - 1,
            p.last() + b,
        ));
    }
}

/// Appending a space starts a new, empty piece.
pub proof fn lemma_split_append_space(a: Seq<char>)
    ensures
        split_on_space(a.push(' ')) == split_on_space(a).push(Seq::<char>::empty()),
{
    assert(a.push(' ').drop_last() =~= a);
}

/// Text without spaces is a single piece.
pub proof fn lemma_split_word(w: Seq<char>)
    requires
        space_free(w),
    ensures
        split_on_space(w) == seq![w],
{
    lemma_split_append_word(Seq::<char>::empty(), w);
    assert(Seq::<char>::empty() + w =~= w);
    assert(seq![Seq::<char>::empty()].update(0, Seq::<char>::empty() + w) =~= seq![w]);
}

/// A space and a word without spaces after a text add that word as a new piece.
pub proof fn lemma_split_push_word(x: Seq<char>, y: Seq<char>)
    requires
        space_free(y),
    ensures
        split_on_space(x + seq![' '] + y) == split_on_space(x).push(y),
{
    lemma_split_append_space(x);
    assert(x + seq![' '] =~= x.push(' '));
    lemma_split_append_word(x.push(' '), y);
    let p = split_on_space(x).push(Seq::<char>::empty());
    assert(Seq::<char>::empty() + y =~= y);
    assert(p.update(p.len() - 1, p.last() + y) =~= split_on_space(x).push(y));
}

/// The words in `words` joined with single spaces.
pub open spec fn join_with_spaces(words: Seq<Seq<char>>) -> Seq<char>
    decreases words.len(),
{
    if words.len() == 0 {
        Seq::<char>::empty()
    } else if words.len() == 1 {
        words[0]
    } else {
        join_with_spaces(words.drop_last()) + seq![' '] + words.last()
    }
}

/// Splitting gives the pieces between the spaces: no piece holds a space, and joining
/// the pieces with single spaces gives the text back.
pub proof fn lemma_split_pieces(s: Seq<char>)
    ensures
        join_with_spaces(split_on_space(s)) == s,
        forall|k: int| 0 <= k < split_on_space(s).len() ==> space_free(#[trigger] split_on_space(s)[k]),
    decreases s.len(),
{
    lemma_split_nonempty(s);
    if s.len() == 0 {
        assert(split_on_space(s)[0] =~= Seq::<char>::empty());
        assert(s =~= Seq::<char>::empty());
    } else {
        let init = s.drop_last();
        let c = s.last();
        lemma_split_pieces(init);
        lemma_split_nonempty(init);
        let p = split_on_space(init);
        assert(init.push(c) =~= s);
        if c == ' ' {
            let q = p.push(Seq::<char>::empty());
            assert(q.drop_last() =~= p);
            assert(join_with_spaces(q) =~= init + seq![' '] + Seq::<char>::empty());
            assert(init + seq![' '] + Seq::<char>::empty() =~= s);
            assert forall|k: int| 0 <= k < q.len() implies space_free(#[trigger] q[k]) by {
                if k < p.len() {
                    assert(q[k] == p[k]);
                }
            }
        } else {
            let q = p.update(p.len() - 1, p.last().push(c));
            assert forall|k: int| 0 <= k < q.len() implies space_free(#[trigger] q[k]) by {
                if k < p.len() - 1 {
                    assert(q[k] == p[k]);
                } else {
                    assert(space_free(p[p.len() - 1]));
                    assert(q[k] == p.last().push(c));
                }
            }
            if p.len() == 1 {
                assert(q[0] =~= init.push(c));
            } else {
                assert(q.drop_last() =~= p.drop_last());
                assert(join_with_spaces(q) =~= join_with_spaces(p.drop_last()) + seq![' ']
                    + p.last().push(c));
                assert(join_with_spaces(p) == join_with_spaces(p.drop_last()) + seq![' '] + p.last());
                assert(join_with_spaces(q) =~= join_with_spaces(p).push(c));
            }
        }
    }
}

/// The words of `text`, split on single spaces (empty words kept).
pub fn split_words(text: &str) -> (words: Vec<String>)
    ensures
        words@.map_values(|w: String| w@) == split_on_space(text@),
{
    let n = text.unicode_len();
    let mut words: Vec<String> = Vec::new();
    let mut start: usize = 0;
    let mut i: usize = 0;
    proof {
        assert(text@.take(0) =~= Seq::<char>::empty());
        assert(text@.subrange(0, 0) =~= Seq::<char>::empty());
        assert(words@.map_values(|w: String| w@).push(text@.subrange(0, 0)) =~= seq![
            Seq::<char>::empty(),
        ]);
    }
    while i < n
        invariant
            n == text@.len(),
            start <= i <= n,
            words@.map_values(|w: String| w@).push(text@.subrange(start as int, i as int))
                == split_on_space(text@.take(i as int)),
        decreases n - i,
    {
        let c = text.get_char(i);
        let ghost prefix = text@.take(i as int);
        let ghost next = text@.take(i + 1);
        assert(next.drop_last() =~= prefix);
        assert(next.last() == c);
        if c == ' ' {
            let piece = String::from_str(text.substring_char(start, i));
            let ghost old_words = words@;
            let ghost old_start = start;
            words.push(piece);
            start = i + 1;
            proof {
                assert(words@.map_values(|w: String| w@) =~= old_words.map_values(
                    |w: String| w@,
                ).push(text@.subrange(old_start as int, i as int)));
                assert(text@.subrange(start as int, i + 1) =~= Seq::<char>::empty());
            }
        } else {
            proof {
                let ws = words@.map_values(|w: String| w@);
                assert(text@.subrange(start as int, i + 1) =~= text@.subrange(
                    start as int,
                    i as int,
                ).push(c));
                assert(ws.push(text@.subrange(start as int, i + 1)) =~= ws.push(
                    text@.subrange(start as int, i as int),
                ).update(ws.len() as int, text@.subrange(start as int, i as int).push(c)));
            }
        }
        i = i + 1;
    }
    let last = String::from_str(text.substring_char(start, n));
    let ghost before = words@;
    words.push(last);
    proof {
        assert(text@.take(n as int) =~= text@);
        assert(words@.map_values(|w: String| w@) =~= before.map_values(|w: String| w@).push(
            text@.subrange(start as int, n as int),
        ));
    }
    words
}

/// Whether `s` holds exactly the characters of `lit`.
pub fn text_is(s: &String, lit: &str) -> (same: bool)
    ensures
        same == (s@ == lit@),
{
    let other = String::from_str(lit);
    *s == other
}

/// The decimal digit `d` (`d < 10`) as a character.
pub open spec fn digit_char(d: nat) -> char {
    (d + 48) as char
}

/// `n` written in decimal, most significant digit first, without leading zeros
/// (`0` is written as the single digit `0`), as `u64`'s `Display` writes it.
pub open spec fn decimal(n: nat) -> Seq<char>
    decreases n,
{
    if n < 10 {
        seq![digit_char(n)]
    } else {
        decimal(n / 10).push(digit_char(n % 10))
    }
}

/// A decimal numeral holds digits only, so no space.
pub proof fn lemma_decimal_space_free(n: nat)
    ensures
        space_free(decimal(n)),
        decimal(n).len() >= 1,
    decreases n,
{
    if n >= 10 {
        lemma_decimal_space_free(n / 10);
        let d = decimal(n / 10);
        assert forall|k: int| 0 <= k < decimal(n).len() implies decimal(n)[k] != ' ' by {
            if k < d.len() {
                assert(decimal(n)[k] == d[k]);
            } else {
                assert(decimal(n)[k] == digit_char(n % 10));
            }
        }
    }
}

/// The number that a run of decimal digits writes, most significant first.
pub open spec fn digits_value(s: Seq<char>) -> nat
    decreases s.len(),
{
    if s.len() == 0 {
        0
    } else {
        digits_value(s.drop_last()) * 10 + ((s.last() as nat) - 48) as nat
    }
}

/// `decimal(n)` is the numeral of `n`: digits only, reading back as `n`, without a
/// leading zero (but for `0` itself).
pub proof fn lemma_decimal_numeral(n: nat)
    ensures
        forall|k: int| 0 <= k < decimal(n).len() ==> 48 <= (#[trigger] decimal(n)[k]) as nat <= 57,
        digits_value(decimal(n)) == n,
        n > 0 ==> decimal(n)[0] != '0',
        decimal(n).len() >= 1,
    decreases n,
{
    if n < 10 {
        assert(digit_char(n) as nat == n + 48);
        assert(decimal(n).drop_last() =~= Seq::<char>::empty());
        assert(digits_value(Seq::<char>::empty()) == 0);
        assert(decimal(n).last() == digit_char(n));
        assert(digits_value(decimal(n)) == ((digit_char(n) as nat) - 48) as nat);
    } else {
        lemma_decimal_numeral(n / 10);
        let d = decimal(n / 10);
        assert(decimal(n).drop_last() =~= d);
        assert(digit_char(n % 10) as nat == n % 10 + 48);
        assert forall|k: int| 0 <= k < decimal(n).len() implies 48 <= (#[trigger] decimal(
            n,
        )[k]) as nat <= 57 by {
            if k < d.len() {
                assert(decimal(n)[k] == d[k]);
            }
        }
        assert(decimal(n)[0] == d[0]);
        assert(decimal(n).last() == digit_char(n % 10));
        assert(digits_value(decimal(n)) == digits_value(d) * 10 + n % 10);
        assert(n == (n / 10) * 10 + n % 10);
    }
}

/// The one-character text of the digit `d`.
fn digit_text(d: u64) -> (t: &'static str)
    requires
        d < 10,
    ensures
        t@ == seq![digit_char(d as nat)],
{
    proof {
        reveal_strlit("0");
        reveal_strlit("1");
        reveal_strlit("2");
        reveal_strlit("3");
        reveal_strlit("4");
        reveal_strlit("5");
        reveal_strlit("6");
        reveal_strlit("7");
        reveal_strlit("8");
        reveal_strlit("9");
    }
    let t = if d == 0 {
        "0"
    } else if d == 1 {
        "1"
    } else if d == 2 {
        "2"
    } else if d == 3 {
        "3"
    } else if d == 4 {
        "4"
    } else if d == 5 {
        "5"
    } else if d == 6 {
        "6"
    } else if d == 7 {
        "7"
    } else if d == 8 {
        "8"
    } else {
        "9"
    };
    assert(t@ =~= seq![digit_char(d as nat)]);
    t
}

/// Appends `n` in decimal to `out`.
pub fn push_decimal(out: &mut String, n: u64)
    ensures
        final(out)@ == old(out)@ + decimal(n as nat),
    decreases n,
{
    if n >= 10 {
        push_decimal(out, n / 10);
    }
    out.append(digit_text(n % 10));
    proof {
        if n >= 10 {
            assert(old(out)@ + decimal(n as nat) =~= old(out)@ + decimal((n / 10) as nat) + seq![
                digit_char((n % 10) as nat),
            ]);
        } else {
            assert(n % 10 == n);
        }
    }
}

/// `n` written in decimal.
pub fn decimal_text(n: u64) -> (t: String)
    ensures
        t@ == decimal(n as nat),
{
    let mut t = String::new();
    push_decimal(&mut t, n);
    assert(t@ =~= decimal(n as nat));
    t
}

} // verus!
