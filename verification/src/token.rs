//! The token text: unsigned integers in base 16, separated by dots.

use vstd::prelude::*;
use vstd::string::*;

verus! {

/// The character for one base-16 digit, in lower case.
pub open spec fn digit_char(d: int) -> char
    recommends
        0 <= d < 16,
{
    if d == 0 {
        '0'
    } else if d == 1 {
        '1'
    } else if d == 2 {
        '2'
    } else if d == 3 {
        '3'
    } else if d == 4 {
        '4'
    } else if d == 5 {
        '5'
    } else if d == 6 {
        '6'
    } else if d == 7 {
        '7'
    } else if d == 8 {
        '8'
    } else if d == 9 {
        '9'
    } else if d == 10 {
        'a'
    } else if d == 11 {
        'b'
    } else if d == 12 {
        'c'
    } else if d == 13 {
        'd'
    } else if d == 14 {
        'e'
    } else {
        'f'
    }
}

/// Whether a character is a base-16 digit in lower case.
pub open spec fn is_lower_hex(c: char) -> bool {
    ('0' <= c && c <= '9') || ('a' <= c && c <= 'f')
}

/// The value of a base-16 digit of either case, if the character is one.
pub open spec fn digit_value(c: char) -> Option<int> {
    let n = c as int;
    if 48 <= n <= 57 {
        Some(n - 48)
    } else if 97 <= n <= 102 {
        Some(n - 87)
    } else if 65 <= n <= 70 {
        Some(n - 55)
    } else {
        None
    }
}

/// A number in base 16, lower case, without leading zeros.
pub open spec fn hex_text(n: nat) -> Seq<char>
    decreases n,
{
    if n < 16 {
        seq![digit_char(n as int)]
    } else {
        hex_text(n / 16).push(digit_char((n % 16) as int))
    }
}

/// The number that a run of base-16 digits denotes, if every character is a
/// digit and the number fits in 64 bits. The empty run denotes zero.
pub open spec fn digits_value(s: Seq<char>) -> Option<u64>
    decreases s.len(),
{
    if s.len() == 0 {
        Some(0)
    } else {
        match (digits_value(s.drop_last()), digit_value(s.last())) {
            (Some(high), Some(d)) => if 16 * high + d <= u64::MAX {
                Some((16 * high + d) as u64)
            } else {
                None
            },
            _ => None,
        }
    }
}

/// The value of one token: a non-empty run of digits that fits in 64 bits.
pub open spec fn token_value(s: Seq<char>) -> Option<u64> {
    if s.len() == 0 {
        None
    } else {
        digits_value(s)
    }
}

/// The pieces of a text between its dots. A text without a dot is one piece;
/// two dots in a row hold an empty piece between them.
pub open spec fn pieces(s: Seq<char>) -> Seq<Seq<char>>
    decreases s.len(),
{
    if s.len() == 0 {
        seq![Seq::<char>::empty()]
    } else {
        let before = pieces(s.drop_last());
        if s.last() == '.' {
            before.push(Seq::<char>::empty())
        } else {
            before.drop_last().push(before.last().push(s.last()))
        }
    }
}

/// The tokens of a text: the value of each piece, where every piece is a
/// token. A text with a piece that is no token has no tokens at all.
pub open spec fn parse_tokens(s: Seq<char>) -> Option<Seq<u64>> {
    let p = pieces(s);
    if forall|i: int| 0 <= i < p.len() ==> (#[trigger] token_value(p[i])) is Some {
        Some(Seq::new(p.len(), |i: int| token_value(p[i]).unwrap()))
    } else {
        None
    }
}

/// The text of a run of tokens: each in base 16, with a dot between two.
pub open spec fn render(tokens: Seq<u64>) -> Seq<char>
    decreases tokens.len(),
{
    if tokens.len() == 0 {
        Seq::<char>::empty()
    } else if tokens.len() == 1 {
        hex_text(tokens[0] as nat)
    } else {
        render(tokens.drop_last()) + seq!['.'] + hex_text(tokens.last() as nat)
    }
}

/// The one-character text of a base-16 digit.
fn digit_str(d: u64) -> (r: &'static str)
    requires
        d < 16,
    ensures
        r@ == seq![digit_char(d as int)],
{
    proof {
        reveal_strlit("0");
        reveal_strlit("1");
        reveal_strlit("2");
        reveal_strlit("3");
        reveal_strlit("4");
        reveal_strlit("5");
        reveal_strlit("6");
        reveal_strlit("7");
        reveal_strlit("8");
        reveal_strlit("9");
        reveal_strlit("a");
        reveal_strlit("b");
        reveal_strlit("c");
        reveal_strlit("d");
        reveal_strlit("e");
        reveal_strlit("f");
    }
    let r = if d == 0 {
        "0"
    } else if d == 1 {
        "1"
    } else if d == 2 {
        "2"
    } else if d == 3 {
        "3"
    } else if d == 4 {
        "4"
    } else if d == 5 {
        "5"
    } else if d == 6 {
        "6"
    } else if d == 7 {
        "7"
    } else if d == 8 {
        "8"
    } else if d == 9 {
        "9"
    } else if d == 10 {
        "a"
    } else if d == 11 {
        "b"
    } else if d == 12 {
        "c"
    } else if d == 13 {
        "d"
    } else if d == 14 {
        "e"
    } else {
        "f"
    };
    assert(r@ =~= seq![digit_char(d as int)]);
    r
}

/// Appends a number in base 16 to a text.
pub fn push_hex(out: &mut String, n: u64)
    ensures
        final(out)@ == old(out)@ + hex_text(n as nat),
    decreases n,
{
    if n >= 16 {
        push_hex(out, n / 16);
    }
    out.append(digit_str(n % 16));
    proof {
        assert(final(out)@ =~= old(out)@ + hex_text(n as nat));
    }
}

/// Writes a run of tokens as text.
pub fn render_tokens(tokens: &Vec<u64>) -> (r: String)
    ensures
        r@ == render(tokens@),
{
    let mut out = String::new();
    let mut i: usize = 0;
    while i < tokens.len()
        invariant
            i <= tokens.len(),
            out@ == render(tokens@.take(i as int)),
        decreases tokens.len() - i,
    {
        if i > 0 {
            out.append(".");
        }
        push_hex(&mut out, tokens[i]);
        proof {
            reveal_strlit(".");
            let next = tokens@.take(i + 1);
            assert(next.drop_last() =~= tokens@.take(i as int));
            assert(next.last() == tokens@[i as int]);
            assert("."@ =~= seq!['.']);
            if i == 0 {
                assert(out@ =~= render(next));
            }
        }
        i += 1;
    }
    proof {
        assert(tokens@.take(tokens.len() as int) =~= tokens@);
    }
    out
}

/// Reads the tokens of a text. Gives nothing where a piece between two dots
/// is empty, holds a character that is no base-16 digit, or does not fit in
/// 64 bits.
pub fn parse(text: &str) -> (r: Option<Vec<u64>>)
    ensures
        match r {
            Some(v) => parse_tokens(text@) == Some(v@),
            None => parse_tokens(text@) is None,
        },
{
    if !text.is_ascii() {
        proof {
            let j = choose|j: int|
                0 <= j < text@.len() && !('\0' <= (#[trigger] text@[j]) && text@[j] <= '\u{7f}');
            lemma_stray_char(text@, j);
        }
        return None;
    }
    broadcast use is_ascii_spec_bytes;

    let bytes = text.as_bytes();
    let n = bytes.len();
    let mut out: Vec<u64> = Vec::new();
    let mut acc: u64 = 0;
    let mut started = false;
    let mut ok = true;
    let ghost mut bad: int = 0;
    let mut i: usize = 0;
    while i < n
        invariant
            i <= n,
            n == text@.len(),
            bytes@ == text.spec_bytes(),
            is_ascii(text),
            pieces(text@.take(i as int)).len() >= 1,
            ok ==> pieces(text@.take(i as int)).len() == out.len() + 1,
            ok ==> forall|k: int|
                0 <= k < out.len() ==> token_value(#[trigger] pieces(text@.take(i as int))[k])
                    == Some(out[k]),
            ok ==> digits_value(pieces(text@.take(i as int)).last()) == Some(acc),
            ok ==> started == (pieces(text@.take(i as int)).last().len() > 0),
            !ok ==> 0 <= bad < pieces(text@.take(i as int)).len(),
            !ok ==> token_value(pieces(text@.take(i as int))[bad]) is None,
            !ok ==> bad == pieces(text@.take(i as int)).len() - 1 ==> digits_value(
                pieces(text@.take(i as int))[bad],
            ) is None,
        decreases n - i,
    {
        let b = bytes[i];
        let ghost before = pieces(text@.take(i as int));
        proof {
            let next = text@.take(i + 1);
            assert(next.drop_last() =~= text@.take(i as int));
            assert(next.last() == text@[i as int]);
            assert(b == text@[i as int] as u8);
            assert('\0' <= text@[i as int] <= '\u{7f}');
            assert(before.last().push(next.last()).drop_last() =~= before.last());
        }
        if ok {
            if b == 46 {
                if started {
                    out.push(acc);
                    acc = 0;
                    started = false;
                } else {
                    ok = false;
                    proof {
                        bad = before.len() - 1;
                    }
                }
            } else {
                let d: u64 = if 48 <= b && b <= 57 {
                    (b - 48) as u64
                } else if 97 <= b && b <= 102 {
                    (b - 87) as u64
                } else if 65 <= b && b <= 70 {
                    (b - 55) as u64
                } else {
                    16
                };
                if d < 16 && acc <= (u64::MAX - d) / 16 {
                    acc = 16 * acc + d;
                    started = true;
                } else {
                    ok = false;
                    proof {
                        bad = before.len() - 1;
                    }
                }
            }
        }
        i += 1;
    }
    proof {
        assert(text@.take(n as int) =~= text@);
    }
    if ok && started {
        out.push(acc);
        proof {
            let p = pieces(text@);
            assert(Seq::new(p.len(), |i: int| token_value(p[i]).unwrap()) =~= out@);
        }
        Some(out)
    } else {
        proof {
            let p = pieces(text@);
            if ok {
                assert(token_value(p[p.len() - 1]) is None);
            } else {
                assert(token_value(p[bad]) is None);
            }
        }
        None
    }
}

/// A text with a character that is neither a dot nor a digit has no tokens.
proof fn lemma_stray_char(s: Seq<char>, j: int)
    requires
        0 <= j < s.len(),
        s[j] != '.',
        digit_value(s[j]) is None,
    ensures
        parse_tokens(s) is None,
{
    lemma_stray_piece(s, j);
    let p = pieces(s);
    let k = choose|k: int| 0 <= k < p.len() && p[k].len() > 0 && digits_value(p[k]) is None;
    assert(token_value(p[k]) is None);
}

proof fn lemma_stray_piece(s: Seq<char>, j: int)
    requires
        0 <= j < s.len(),
        s[j] != '.',
        digit_value(s[j]) is None,
    ensures
        exists|k: int|
            0 <= k < pieces(s).len() && (#[trigger] pieces(s)[k]).len() > 0 && digits_value(
                pieces(s)[k],
            ) is None,
    decreases s.len(),
{
    let before = pieces(s.drop_last());
    let p = pieces(s);
    lemma_pieces_len(s.drop_last());
    assert(before.last().push(s.last()).drop_last() =~= before.last());
    if j == s.len() - 1 {
        assert(p[p.len() - 1].len() > 0 && digits_value(p[p.len() - 1]) is None);
    } else {
        lemma_stray_piece(s.drop_last(), j);
        let k = choose|k: int|
            0 <= k < before.len() && (#[trigger] before[k]).len() > 0 && digits_value(before[k])
                is None;
        assert(p[k].len() > 0 && digits_value(p[k]) is None);
    }
}

/// A text has at least one piece.
pub proof fn lemma_pieces_len(s: Seq<char>)
    ensures
        pieces(s).len() >= 1,
    decreases s.len(),
{
    if s.len() > 0 {
        lemma_pieces_len(s.drop_last());
    }
}

/// A number written in base 16 is a dot-free token that reads back as the
/// number.
pub proof fn lemma_hex_text_value(n: nat)
    requires
        n <= u64::MAX,
    ensures
        hex_text(n).len() >= 1,
        forall|i: int| 0 <= i < hex_text(n).len() ==> hex_text(n)[i] != '.',
        token_value(hex_text(n)) == Some(n as u64),
    decreases n,
{
    if n >= 16 {
        lemma_hex_text_value(n / 16);
        let high = hex_text(n / 16);
        let d = digit_char((n % 16) as int);
        assert(high.push(d).drop_last() =~= high);
        assert(digit_value(d) == Some((n % 16) as int));
        assert(16 * (n / 16) + n % 16 == n);
    } else {
        let d = digit_char(n as int);
        assert(seq![d].drop_last() =~= Seq::<char>::empty());
        assert(digit_value(d) == Some(n as int));
        assert(digits_value(seq![d].drop_last()) == Some(0u64));
    }
}

/// Dot-free text put behind a text lengthens its last piece.
proof fn lemma_pieces_append(a: Seq<char>, b: Seq<char>)
    requires
        forall|i: int| 0 <= i < b.len() ==> b[i] != '.',
    ensures
        pieces(a).len() >= 1,
        pieces(a + b) == pieces(a).drop_last().push(pieces(a).last() + b),
    decreases b.len(),
{
    lemma_pieces_len(a);
    if b.len() == 0 {
        assert(a + b =~= a);
        assert(pieces(a).last() + b =~= pieces(a).last());
        assert(pieces(a).drop_last().push(pieces(a).last()) =~= pieces(a));
    } else {
        lemma_pieces_append(a, b.drop_last());
        assert((a + b).drop_last() =~= a + b.drop_last());
        assert((a + b).last() == b.last());
        let before = pieces(a + b.drop_last());
        assert(before.last().push(b.last()) =~= pieces(a).last() + b);
        assert(before.drop_last() =~= pieces(a).drop_last());
    }
}

/// The pieces of a written run of tokens are the tokens, each in base 16.
proof fn lemma_pieces_render(tokens: Seq<u64>)
    requires
        tokens.len() >= 1,
    ensures
        pieces(render(tokens)) == Seq::new(tokens.len(), |i: int| hex_text(tokens[i] as nat)),
    decreases tokens.len(),
{
    let want = Seq::new(tokens.len(), |i: int| hex_text(tokens[i] as nat));
    let last = hex_text(tokens.last() as nat);
    lemma_hex_text_value(tokens.last() as nat);
    if tokens.len() == 1 {
        let none = Seq::<char>::empty();
        lemma_pieces_append(none, last);
        assert(none + last =~= last);
        assert(pieces(none) =~= seq![none]);
        assert(pieces(last) =~= want);
    } else {
        let head = render(tokens.drop_last());
        lemma_pieces_render(tokens.drop_last());
        let dotted = head + seq!['.'];
        assert(dotted.drop_last() =~= head);
        assert(pieces(dotted) == pieces(head).push(Seq::<char>::empty()));
        lemma_pieces_append(dotted, last);
        assert(Seq::<char>::empty() + last =~= last);
        assert(pieces(dotted + last) =~= want);
    }
}

/// Reading what was written gives the tokens back.
pub proof fn lemma_parse_render(tokens: Seq<u64>)
    requires
        tokens.len() >= 1,
    ensures
        parse_tokens(render(tokens)) == Some(tokens),
{
    lemma_pieces_render(tokens);
    let p = pieces(render(tokens));
    assert forall|i: int| 0 <= i < p.len() implies (#[trigger] token_value(p[i])) == Some(
        tokens[i],
    ) by {
        lemma_hex_text_value(tokens[i] as nat);
    }
    assert(Seq::new(p.len(), |i: int| token_value(p[i]).unwrap()) =~= tokens);
}

/// A number written in base 16 holds nothing but digits in lower case.
pub proof fn lemma_hex_text_plain(n: nat)
    ensures
        forall|i: int| 0 <= i < hex_text(n).len() ==> is_lower_hex(#[trigger] hex_text(n)[i]),
    decreases n,
{
    let last = digit_char((n % 16) as int);
    assert(is_lower_hex(last));
    if n >= 16 {
        lemma_hex_text_plain(n / 16);
        let high = hex_text(n / 16);
        assert forall|i: int| 0 <= i < hex_text(n).len() implies is_lower_hex(
            #[trigger] hex_text(n)[i],
        ) by {
            if i < high.len() {
                assert(hex_text(n)[i] == high[i]);
            } else {
                assert(hex_text(n)[i] == last);
            }
        }
    }
}

/// A written run of tokens holds nothing but digits in lower case and dots.
pub proof fn lemma_render_plain(tokens: Seq<u64>)
    ensures
        forall|i: int|
            0 <= i < render(tokens).len() ==> {
                let c = #[trigger] render(tokens)[i];
                c == '.' || is_lower_hex(c)
            },
    decreases tokens.len(),
{
    if tokens.len() >= 1 {
        let last = hex_text(tokens.last() as nat);
        lemma_hex_text_plain(tokens.last() as nat);
        if tokens.len() >= 2 {
            let head = render(tokens.drop_last());
            lemma_render_plain(tokens.drop_last());
            assert forall|i: int| 0 <= i < render(tokens).len() implies {
                let c = #[trigger] render(tokens)[i];
                c == '.' || is_lower_hex(c)
            } by {
                if i < head.len() {
                    assert(render(tokens)[i] == head[i]);
                } else if i == head.len() {
                    assert(render(tokens)[i] == '.');
                } else {
                    assert(render(tokens)[i] == last[i - head.len() - 1]);
                }
            }
        }
    }
}

} // verus!
