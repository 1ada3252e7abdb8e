//! Text as a sequence of characters: comparing, cutting and joining.
use vstd::prelude::*;

verus! {

/// The texts that a list of strings holds.
pub open spec fn texts(list: Seq<String>) -> Seq<Seq<char>> {
    list.map_values(|s: String| s@)
}

/// The pieces of `s` between the occurrences of `sep`: always at least one,
/// and empty where two separators meet or `s` begins or ends with one.
pub open spec fn split(s: Seq<char>, sep: char) -> Seq<Seq<char>>
    decreases s.len(),
{
    if s.len() == 0 {
        seq![Seq::<char>::empty()]
    } else {
        let before = split(s.drop_last(), sep);
        if s.last() == sep {
            before.push(Seq::<char>::empty())
        } else {
            before.drop_last().push(before.last().push(s.last()))
        }
    }
}

/// The pieces one after the other, with `sep` between neighbours.
pub open spec fn join(pieces: Seq<Seq<char>>, sep: char) -> Seq<char>
    decreases pieces.len(),
{
    if pieces.len() == 0 {
        Seq::<char>::empty()
    } else if pieces.len() == 1 {
        pieces[0]
    } else {
        join(pieces.drop_last(), sep).push(sep) + pieces.last()
    }
}

/// The decimal digit of a number below ten.
pub open spec fn digit(d: nat) -> char {
    (('0' as u32) + d) as char
}

/// A number in decimal notation, without leading zeros.
pub open spec fn decimal(n: nat) -> Seq<char>
    decreases n,
{
    if n < 10 {
        seq![digit(n)]
    } else {
        decimal(n / 10).push(digit(n % 10))
    }
}

/// Splitting always gives a piece.
pub proof fn lemma_split_nonempty(s: Seq<char>, sep: char)
    ensures
        split(s, sep).len() > 0,
    decreases s.len(),
{
    if s.len() > 0 {
        lemma_split_nonempty(s.drop_last(), sep);
    }
}

/// Whether two texts are the same.
pub fn same_text(a: &str, b: &str) -> (r: bool)
    ensures
        r == (a@ == b@),
{
    let left: String = a.to_owned();
    let right: String = b.to_owned();
    left == right
}

/// A message with what caused it.
pub fn because(what: &str, cause: &str) -> (r: String)
    ensures
        r@ == what@ + cause@,
{
    let start: String = what.to_owned();
    start.concat(cause)
}

/// The value of an outcome with a message.
pub open spec fn reply_view(r: Result<(), String>) -> Result<(), Seq<char>> {
    match r {
        Ok(_) => Ok(()),
        Err(e) => Err(e@),
    }
}

/// The pieces of `s` between the occurrences of `sep`.
pub fn split_text(s: &str, sep: char) -> (r: Vec<String>)
    ensures
        texts(r@) == split(s@, sep),
{
    let mut pieces: Vec<String> = Vec::new();
    let mut start: usize = 0;
    let mut at: usize = 0;
    let len: usize = s.unicode_len();
    proof {
        assert(s@.take(0) =~= Seq::<char>::empty());
        assert(s@.subrange(0, 0) =~= Seq::<char>::empty());
        assert(texts(pieces@).push(s@.subrange(0, 0)) =~= split(s@.take(0), sep));
    }
    while at < len
        invariant
            len == s@.len(),
            start <= at <= len,
            texts(pieces@).push(s@.subrange(start as int, at as int)) == split(
                s@.take(at as int),
                sep,
            ),
        decreases len - at,
    {
        let c = s.get_char(at);
        let ghost seen = s@.take(at as int);
        let ghost more = s@.take(at + 1);
        let ghost done = texts(pieces@);
        let ghost current = s@.subrange(start as int, at as int);
        proof {
            assert(more.drop_last() =~= seen);
            assert(more.last() == c);
            assert(done.push(current).last() == current);
            assert(done.push(current).drop_last() =~= done);
        }
        if c == sep {
            pieces.push(s.substring_char(start, at).to_owned());
            start = at + 1;
            proof {
                assert(texts(pieces@) =~= done.push(current));
                assert(s@.subrange(start as int, at + 1) =~= Seq::<char>::empty());
            }
        } else {
            proof {
                assert(s@.subrange(start as int, at + 1) =~= current.push(c));
            }
        }
        at = at + 1;
    }
    proof {
        assert(s@.take(len as int) =~= s@);
    }
    let ghost done = texts(pieces@);
    pieces.push(s.substring_char(start, len).to_owned());
    proof {
        assert(texts(pieces@) =~= done.push(s@.subrange(start as int, len as int)));
    }
    pieces
}

/// The pieces one after the other, with `sep` between neighbours.
pub fn join_texts(pieces: &Vec<String>, sep: &str) -> (r: String)
    requires
        sep@.len() == 1,
    ensures
        r@ == join(texts(pieces@), sep@[0]),
{
    let mut out: String = String::new();
    let mut at: usize = 0;
    let ghost all = texts(pieces@);
    while at < pieces.len()
        invariant
            sep@.len() == 1,
            at <= pieces@.len(),
            all == texts(pieces@),
            out@ == join(all.take(at as int), sep@[0]),
        decreases pieces@.len() - at,
    {
        proof {
            assert(all.take(at + 1).drop_last() =~= all.take(at as int));
            assert(all.take(at + 1).last() == pieces@[at as int]@);
        }
        if at > 0 {
            out.append(sep);
            proof {
                assert(sep@ =~= seq![sep@[0]]);
                assert(out@ =~= join(all.take(at as int), sep@[0]).push(sep@[0]));
            }
        }
        out.append(pieces[at].as_str());
        at = at + 1;
        proof {
            assert(out@ =~= join(all.take(at as int), sep@[0]));
        }
    }
    proof {
        assert(all.take(at as int) =~= all);
    }
    out
}

/// The decimal digit of a number below ten, as a text.
fn digit_text(d: u32) -> (r: &'static str)
    requires
        d < 10,
    ensures
        r@ == seq![digit(d as nat)],
{
    proof {
        reveal_strlit("0");
        reveal_strlit("1");
        reveal_strlit("2");
        reveal_strlit("3");
        reveal_strlit("4");
        reveal_strlit("5");
        reveal_strlit("6");
        reveal_strlit("7");
        reveal_strlit("8");
        reveal_strlit("9");
        assert("0"@ =~= seq!['0']);
        assert("1"@ =~= seq!['1']);
        assert("2"@ =~= seq!['2']);
        assert("3"@ =~= seq!['3']);
        assert("4"@ =~= seq!['4']);
        assert("5"@ =~= seq!['5']);
        assert("6"@ =~= seq!['6']);
        assert("7"@ =~= seq!['7']);
        assert("8"@ =~= seq!['8']);
        assert("9"@ =~= seq!['9']);
    }
    match d {
        0 => "0",
        1 => "1",
        2 => "2",
        3 => "3",
        4 => "4",
        5 => "5",
        6 => "6",
        7 => "7",
        8 => "8",
        _ => "9",
    }
}

/// A number in decimal notation.
pub fn decimal_text(n: u32) -> (r: String)
    ensures
        r@ == decimal(n as nat),
    decreases n,
{
    if n < 10 {
        digit_text(n).to_owned()
    } else {
        let front: String = decimal_text(n / 10);
        let r: String = front.concat(digit_text(n % 10));
        proof {
            assert(r@ =~= decimal((n / 10) as nat).push(digit((n % 10) as nat)));
        }
        r
    }
}

/// Different numbers have different decimal notations.
pub proof fn lemma_decimal_injective(a: nat, b: nat)
    requires
        decimal(a) == decimal(b),
    ensures
        a == b,
    decreases a,
{
    lemma_decimal_nonempty(a / 10);
    lemma_decimal_nonempty(b / 10);
    if a < 10 && b < 10 {
        assert(decimal(a)[0] == digit(a));
        assert(decimal(b)[0] == digit(b));
    } else if a >= 10 && b >= 10 {
        assert(decimal(a) == decimal(a / 10).push(digit(a % 10)));
        assert(decimal(b) == decimal(b / 10).push(digit(b % 10)));
        assert(decimal(a).drop_last() =~= decimal(a / 10));
        assert(decimal(b).drop_last() =~= decimal(b / 10));
        assert(decimal(a).last() == digit(a % 10));
        assert(decimal(b).last() == digit(b % 10));
        assert(a % 10 == b % 10);
        lemma_decimal_injective(a / 10, b / 10);
    } else if a < 10 {
        assert(decimal(a).len() == 1);
        assert(decimal(b).len() == decimal(b / 10).len() + 1);
    } else {
        assert(decimal(b).len() == 1);
        assert(decimal(a).len() == decimal(a / 10).len() + 1);
    }
}

/// A number in decimal notation has a digit.
pub proof fn lemma_decimal_nonempty(n: nat)
    ensures
        decimal(n).len() > 0,
    decreases n,
{
    if n >= 10 {
        lemma_decimal_nonempty(n / 10);
    }
}

/// Joining the pieces of a text gives the text back.
pub proof fn law_join_undoes_split(s: Seq<char>, sep: char)
    ensures
        join(split(s, sep), sep) == s,
    decreases s.len(),
{
    if s.len() == 0 {
        assert(join(split(s, sep), sep) =~= s);
    } else {
        let t = s.drop_last();
        let before = split(t, sep);
        law_join_undoes_split(t, sep);
        lemma_split_nonempty(t, sep);
        if s.last() == sep {
            let all = before.push(Seq::<char>::empty());
            assert(all.drop_last() =~= before);
            assert(join(all, sep) =~= t.push(sep));
        } else {
            let all = before.drop_last().push(before.last().push(s.last()));
            assert(all.drop_last() =~= before.drop_last());
            if before.len() == 1 {
                assert(join(all, sep) =~= t.push(s.last()));
            } else {
                assert(join(all, sep) =~= t.push(s.last()));
            }
        }
    }
}

/// No piece holds the separator.
pub proof fn lemma_pieces_hold_no_separator(s: Seq<char>, sep: char)
    ensures
        forall|i: int| 0 <= i < split(s, sep).len() ==> !#[trigger] split(s, sep)[i].contains(sep),
    decreases s.len(),
{
    if s.len() > 0 {
        let before = split(s.drop_last(), sep);
        lemma_pieces_hold_no_separator(s.drop_last(), sep);
        lemma_split_nonempty(s.drop_last(), sep);
        assert forall|i: int| 0 <= i < split(s, sep).len() implies !#[trigger] split(
            s,
            sep,
        )[i].contains(sep) by {
            let piece = split(s, sep)[i];
            if i < before.len() - 1 || (s.last() == sep && i < before.len()) {
                assert(piece == before[i]);
            } else if s.last() != sep {
                assert(piece == before.last().push(s.last()));
                assert(!before.last().contains(sep)) by {
                    assert(before.last() == before[before.len() - 1]);
                }
                if piece.contains(sep) {
                    let k = choose|k: int| 0 <= k < piece.len() && piece[k] == sep;
                    assert(before.last()[k] == sep);
                }
            }
        }
    }
}

/// A text with one more piece at its end.
pub proof fn lemma_split_extend(s: Seq<char>, piece: Seq<char>, sep: char)
    requires
        !piece.contains(sep),
    ensures
        split(s.push(sep) + piece, sep) == split(s, sep).push(piece),
    decreases piece.len(),
{
    let whole = s.push(sep) + piece;
    if piece.len() == 0 {
        assert(whole.drop_last() =~= s);
        assert(piece =~= Seq::<char>::empty());
    } else {
        let shorter = piece.drop_last();
        assert(!shorter.contains(sep)) by {
            if shorter.contains(sep) {
                let k = choose|k: int| 0 <= k < shorter.len() && shorter[k] == sep;
                assert(piece[k] == sep);
            }
        }
        lemma_split_extend(s, shorter, sep);
        assert(whole.drop_last() =~= s.push(sep) + shorter);
        assert(piece[piece.len() - 1] != sep);
        let before = split(whole.drop_last(), sep);
        assert(before.drop_last() =~= split(s, sep));
        assert(before.last().push(whole.last()) =~= piece);
    }
}

/// A text with one more piece in front.
pub proof fn lemma_split_front(piece: Seq<char>, s: Seq<char>, sep: char)
    requires
        !piece.contains(sep),
    ensures
        split(piece.push(sep) + s, sep) == seq![piece] + split(s, sep),
    decreases s.len(),
{
    let whole = piece.push(sep) + s;
    if s.len() == 0 {
        assert(whole.drop_last() =~= piece);
        lemma_split_single(piece, sep);
        assert(split(whole, sep) =~= seq![piece] + split(s, sep));
    } else {
        lemma_split_front(piece, s.drop_last(), sep);
        lemma_split_nonempty(s.drop_last(), sep);
        assert(whole.drop_last() =~= piece.push(sep) + s.drop_last());
        let before = split(s.drop_last(), sep);
        assert((seq![piece] + before).drop_last() =~= seq![piece] + before.drop_last());
        assert((seq![piece] + before).last() == before.last());
        assert(split(whole, sep) =~= seq![piece] + split(s, sep));
    }
}

/// A text without the separator is its own only piece.
pub proof fn lemma_split_single(s: Seq<char>, sep: char)
    requires
        !s.contains(sep),
    ensures
        split(s, sep) == seq![s],
    decreases s.len(),
{
    if s.len() == 0 {
        assert(s =~= Seq::<char>::empty());
    } else {
        let t = s.drop_last();
        assert(!t.contains(sep)) by {
            if t.contains(sep) {
                let k = choose|k: int| 0 <= k < t.len() && t[k] == sep;
                assert(s[k] == sep);
            }
        }
        lemma_split_single(t, sep);
        assert(s[s.len() - 1] != sep);
        assert(t.push(s.last()) =~= s);
        assert(split(s, sep) =~= seq![s]);
    }
}

/// Splitting what was joined gives the pieces back, where there is a piece
/// and none holds the separator.
pub proof fn law_split_undoes_join(pieces: Seq<Seq<char>>, sep: char)
    requires
        pieces.len() > 0,
        forall|i: int| 0 <= i < pieces.len() ==> !#[trigger] pieces[i].contains(sep),
    ensures
        split(join(pieces, sep), sep) == pieces,
    decreases pieces.len(),
{
    assert(!pieces[pieces.len() - 1].contains(sep));
    if pieces.len() == 1 {
        lemma_split_single(pieces[0], sep);
        assert(seq![pieces[0]] =~= pieces);
    } else {
        let front = pieces.drop_last();
        assert forall|i: int| 0 <= i < front.len() implies !#[trigger] front[i].contains(sep) by {
            assert(front[i] == pieces[i]);
        }
        law_split_undoes_join(front, sep);
        lemma_split_extend(join(front, sep), pieces.last(), sep);
        assert(front.push(pieces.last()) =~= pieces);
    }
}

/// Joining puts the separator between neighbours, and nowhere else.
pub proof fn law_join_puts_separators_between(pieces: Seq<Seq<char>>, last: Seq<char>, sep: char)
    ensures
        join(Seq::empty(), sep) == Seq::<char>::empty(),
        join(seq![last], sep) == last,
        pieces.len() > 0 ==> join(pieces.push(last), sep) == join(pieces, sep) + seq![sep] + last,
{
    if pieces.len() > 0 {
        assert(pieces.push(last).drop_last() =~= pieces);
        assert(join(pieces.push(last), sep) =~= join(pieces, sep) + seq![sep] + last);
    }
}

/// A text falls into pieces without the separator, at least one, which joined
/// are the text again.
pub proof fn law_text_falls_into_its_pieces(s: &str, sep: char, r: Vec<String>)
    requires
        call_ensures(split_text, (s, sep), r),
    ensures
        r@.len() > 0,
        forall|i: int| 0 <= i < r@.len() ==> !(#[trigger] r@[i])@.contains(sep),
        join(texts(r@), sep) == s@,
{
    lemma_split_nonempty(s@, sep);
    lemma_pieces_hold_no_separator(s@, sep);
    law_join_undoes_split(s@, sep);
    assert forall|i: int| 0 <= i < r@.len() implies !(#[trigger] r@[i])@.contains(sep) by {
        assert(texts(r@)[i] == r@[i]@);
        assert(!split(s@, sep)[i].contains(sep));
    }
}

/// Joining the pieces of a text gives it back, and cutting joined pieces gives
/// them back.
pub proof fn law_joining_and_cutting(
    pieces: Vec<String>,
    sep: &str,
    r: String,
    read: &str,
    again: Vec<String>,
)
    requires
        sep@.len() == 1,
        pieces@.len() > 0,
        forall|i: int| 0 <= i < pieces@.len() ==> !(#[trigger] pieces@[i])@.contains(sep@[0]),
        call_ensures(join_texts, (&pieces, sep), r),
        read@ == r@,
        call_ensures(split_text, (read, sep@[0]), again),
    ensures
        texts(again@) == texts(pieces@),
{
    let all = texts(pieces@);
    assert forall|i: int| 0 <= i < all.len() implies !#[trigger] all[i].contains(sep@[0]) by {
        assert(all[i] == pieces@[i]@);
    }
    law_split_undoes_join(all, sep@[0]);
}

/// The number that decimal digits stand for.
pub open spec fn number_of(digits: Seq<char>) -> int
    decreases digits.len(),
{
    if digits.len() == 0 {
        0
    } else {
        10 * number_of(digits.drop_last()) + (digits.last() as u32 - 48)
    }
}

/// A number's decimal notation is made of the digits 0 to 9, does not begin
/// with 0 unless the number is 0, and stands for the number.
proof fn lemma_decimal_notation(n: nat)
    ensures
        number_of(decimal(n)) == n,
        decimal(n).len() > 0,
        forall|i: int| 0 <= i < decimal(n).len() ==> '0' <= #[trigger] decimal(n)[i] <= '9',
        n > 0 ==> decimal(n)[0] != '0',
    decreases n,
{
    reveal_with_fuel(number_of, 2);
    if n < 10 {
        assert(decimal(n).drop_last() =~= Seq::<char>::empty());
    } else {
        lemma_decimal_notation(n / 10);
        assert(decimal(n).drop_last() =~= decimal(n / 10));
        assert(decimal(n).last() == digit(n % 10));
        assert forall|i: int| 0 <= i < decimal(n).len() implies '0' <= #[trigger] decimal(n)[i]
            <= '9' by {
            if i < decimal(n / 10).len() {
                assert(decimal(n)[i] == decimal(n / 10)[i]);
            }
        }
    }
}

/// A number's decimal notation is made of the digits 0 to 9, does not begin
/// with 0 unless the number is 0, and stands for the number.
pub proof fn law_decimal_stands_for_the_number(n: u32, r: String)
    requires
        call_ensures(decimal_text, (n,), r),
    ensures
        number_of(r@) == n,
        r@.len() > 0,
        forall|i: int| 0 <= i < r@.len() ==> '0' <= #[trigger] r@[i] <= '9',
        n > 0 ==> r@[0] != '0',
        r@ == decimal(n as nat),
{
    lemma_decimal_notation(n as nat);
}

/// Two texts are the same where their characters are.
pub proof fn law_same_text(a: &str, b: &str, r: bool)
    requires
        call_ensures(same_text, (a, b), r),
    ensures
        r <==> a@.len() == b@.len() && forall|i: int| 0 <= i < a@.len() ==> a@[i] == b@[i],
{
    if forall|i: int| 0 <= i < a@.len() ==> a@[i] == b@[i] {
        if a@.len() == b@.len() {
            assert(a@ =~= b@);
        }
    }
}

/// A message names what went wrong and then the cause, both in full.
pub proof fn law_message_names_the_cause(what: &str, cause: &str, r: String)
    requires
        call_ensures(because, (what, cause), r),
    ensures
        r@.len() == what@.len() + cause@.len(),
        r@.take(what@.len() as int) == what@,
        r@.skip(what@.len() as int) == cause@,
{
    assert(r@.take(what@.len() as int) =~= what@);
    assert(r@.skip(what@.len() as int) =~= cause@);
}

} // verus!
