//! Text as sequences of characters: the pieces of string handling that the
//! rest of the library is stated over.

use vstd::prelude::*;

verus! {

/// `String::push` appends one character and changes nothing else.
pub assume_specification[ String::push ](s: &mut String, ch: char)
    ensures
        final(s)@ == old(s)@.push(ch),
;

/// The contents of a list of strings.
pub open spec fn texts(v: Seq<String>) -> Seq<Seq<char>> {
    v.map_values(|s: String| s@)
}

/// The characters of `s`, in order.
pub fn chars_of(s: &str) -> (r: Vec<char>)
    ensures
        r@ == s@,
{
    let mut out: Vec<char> = Vec::new();
    for c in it: s.chars()
        invariant
            out@ == it.seq().take(it.index()),
            it.seq() == s@,
    {
        out.push(c);
        proof { assert(it.seq().take(it.index() + 1) =~= it.seq().take(it.index()).push(it.seq()[it.index()])); }
    }
    proof { assert(s@.take(s@.len() as int) =~= s@); }
    out
}

/// The characters `from..to` of `v` as a string.
pub fn string_of(v: &Vec<char>, from: usize, to: usize) -> (r: String)
    requires
        from <= to <= v@.len(),
    ensures
        r@ == v@.subrange(from as int, to as int),
{
    let mut out = String::new();
    let mut i: usize = from;
    while i < to
        invariant
            from <= i <= to <= v@.len(),
            out@ == v@.subrange(from as int, i as int),
        decreases to - i,
    {
        out.push(v[i]);
        i += 1;
        proof { assert(v@.subrange(from as int, i as int) =~= v@.subrange(from as int, i - 1).push(v@[i - 1])); }
    }
    out
}

/// Whether two strings hold the same characters.
pub fn same(a: &str, b: &str) -> (r: bool)
    ensures
        r == (a@ == b@),
{
    a.to_owned() == b.to_owned()
}

/// The concatenation of two strings.
pub fn join2(a: &str, b: &str) -> (r: String)
    ensures
        r@ == a@ + b@,
{
    let mut out = a.to_owned();
    out.append(b);
    out
}

/// The characters that Unicode counts as white space.
pub open spec fn is_blank(c: char) -> bool {
    ||| '\u{9}' <= c <= '\u{d}'
    ||| c == ' '
    ||| c == '\u{85}'
    ||| c == '\u{a0}'
    ||| c == '\u{1680}'
    ||| '\u{2000}' <= c <= '\u{200a}'
    ||| c == '\u{2028}'
    ||| c == '\u{2029}'
    ||| c == '\u{202f}'
    ||| c == '\u{205f}'
    ||| c == '\u{3000}'
}

/// Whether `c` is white space.
pub fn blank(c: char) -> (r: bool)
    ensures
        r == is_blank(c),
{
    ('\u{9}' <= c && c <= '\u{d}') || c == ' ' || c == '\u{85}' || c == '\u{a0}' || c
        == '\u{1680}' || ('\u{2000}' <= c && c <= '\u{200a}') || c == '\u{2028}' || c
        == '\u{2029}' || c == '\u{202f}' || c == '\u{205f}' || c == '\u{3000}'
}

/// Where a text is cut into pieces: at one character, or at white space.
#[derive(Clone, Copy, Debug, PartialEq, Eq, Structural)]
pub enum Cut {
    At(char),
    Blank,
}

impl Cut {
    /// Whether the cut falls on `c`.
    pub open spec fn falls_on(self, c: char) -> bool {
        match self {
            Cut::At(sep) => c == sep,
            Cut::Blank => is_blank(c),
        }
    }

    fn falls(self, c: char) -> (r: bool)
        ensures
            r == self.falls_on(c),
    {
        match self {
            Cut::At(sep) => c == sep,
            Cut::Blank => blank(c),
        }
    }
}

/// The pieces of `s` between the characters that `cut` falls on, empty pieces
/// included: always one more than there are such characters.
pub open spec fn pieces(s: Seq<char>, cut: Cut) -> Seq<Seq<char>>
    decreases s.len(),
{
    if s.len() == 0 {
        seq![Seq::<char>::empty()]
    } else {
        let front = pieces(s.drop_last(), cut);
        if cut.falls_on(s.last()) {
            front.push(Seq::<char>::empty())
        } else {
            front.drop_last().push(front.last().push(s.last()))
        }
    }
}

/// There is always a piece, and at most one more than there are characters.
pub proof fn lemma_pieces_len(s: Seq<char>, cut: Cut)
    ensures
        1 <= pieces(s, cut).len() <= s.len() + 1,
    decreases s.len(),
{
    if s.len() > 0 {
        lemma_pieces_len(s.drop_last(), cut);
    }
}

/// Cuts `s` into its pieces.
pub fn split(s: &str, cut: Cut) -> (r: Vec<String>)
    ensures
        texts(r@) == pieces(s@, cut),
{
    let cs = chars_of(s);
    let mut out: Vec<String> = Vec::new();
    let mut cur = String::new();
    let mut i: usize = 0;
    proof {
        assert(cs@.take(0) =~= Seq::<char>::empty());
        assert(texts(out@).push(cur@) =~= pieces(cs@.take(0), cut));
    }
    while i < cs.len()
        invariant
            i <= cs@.len(),
            texts(out@).push(cur@) == pieces(cs@.take(i as int), cut),
        decreases cs@.len() - i,
    {
        let c = cs[i];
        proof {
            assert(cs@.take(i + 1).drop_last() =~= cs@.take(i as int));
            assert(cs@.take(i + 1).last() == c);
            assert(texts(out@).push(cur@).drop_last() =~= texts(out@));
        }
        if cut.falls(c) {
            let ghost before = out@;
            out.push(cur);
            cur = String::new();
            proof {
                assert(texts(out@) =~= texts(before).push(out@.last()@));
                assert(cur@ =~= Seq::<char>::empty());
            }
        } else {
            cur.push(c);
        }
        i += 1;
    }
    proof {
        assert(cs@.take(i as int) =~= s@);
    }
    let ghost before = out@;
    out.push(cur);
    proof {
        assert(texts(out@) =~= texts(before).push(out@.last()@));
    }
    out
}

/// `s` without a carriage return at its end.
pub open spec fn without_cr(s: Seq<char>) -> Seq<char> {
    if s.len() > 0 && s.last() == '\r' {
        s.drop_last()
    } else {
        s
    }
}

/// The lines of `s`: its pieces at line feeds, a carriage return before the
/// line feed left out, and no empty line after a last line feed.
pub open spec fn lines_of(s: Seq<char>) -> Seq<Seq<char>> {
    let ps = pieces(s, Cut::At('\n'));
    let ended = ps.drop_last().map_values(|p: Seq<char>| without_cr(p));
    if ps.last().len() == 0 {
        ended
    } else {
        ended.push(ps.last())
    }
}

/// The lines of `s`.
pub fn lines(s: &str) -> (r: Vec<String>)
    ensures
        texts(r@) == lines_of(s@),
{
    let ps = split(s, Cut::At('\n'));
    proof {
        lemma_pieces_len(s@, Cut::At('\n'));
        assert(texts(ps@).len() == ps@.len());
    }
    let last: usize = ps.len() - 1;
    let mut out: Vec<String> = Vec::new();
    let ghost want = pieces(s@, Cut::At('\n')).drop_last().map_values(|p: Seq<char>| without_cr(p));
    let mut i: usize = 0;
    while i < last
        invariant
            i <= last,
            last == ps@.len() - 1,
            texts(ps@) == pieces(s@, Cut::At('\n')),
            want == pieces(s@, Cut::At('\n')).drop_last().map_values(|p: Seq<char>| without_cr(p)),
            texts(out@) == want.take(i as int),
        decreases last - i,
    {
        let cs = chars_of(ps[i].as_str());
        let n: usize = if cs.len() > 0 && cs[cs.len() - 1] == '\r' {
            cs.len() - 1
        } else {
            cs.len()
        };
        let ghost before = out@;
        out.push(string_of(&cs, 0, n));
        proof {
            assert(texts(ps@)[i as int] == ps@[i as int]@);
            assert(out@.last()@ =~= without_cr(ps@[i as int]@));
            assert(texts(out@) =~= texts(before).push(out@.last()@));
            assert(want.take(i + 1) =~= want.take(i as int).push(want[i as int]));
        }
        i += 1;
    }
    proof {
        assert(want.take(last as int) =~= want);
        assert(texts(ps@).last() == ps@[last as int]@);
    }
    let cs = chars_of(ps[last].as_str());
    if cs.len() > 0 {
        let ghost before = out@;
        out.push(ps[last].clone());
        proof {
            assert(texts(out@) =~= texts(before).push(out@.last()@));
        }
    }
    out
}

/// A text has at most one line more than characters.
pub proof fn lemma_lines_len(s: Seq<char>)
    ensures
        lines_of(s).len() <= s.len() + 1,
{
    lemma_pieces_len(s, Cut::At('\n'));
}

/// The lines of two texts, of which the first is empty or ends a line, are those
/// of the one and then those of the other.
pub proof fn lemma_lines_join(a: Seq<char>, b: Seq<char>)
    requires
        a.len() == 0 || a.last() == '\n',
    ensures
        lines_of(a + b) == lines_of(a) + lines_of(b),
{
    let cut = Cut::At('\n');
    lemma_pieces_len(b, cut);
    if a.len() == 0 {
        assert(a + b =~= b);
        assert(pieces(a, cut).drop_last() =~= Seq::<Seq<char>>::empty());
        assert(lines_of(a) =~= Seq::<Seq<char>>::empty());
        assert(lines_of(a) + lines_of(b) =~= lines_of(b));
    } else {
        let front = a.drop_last();
        lemma_pieces_len(front, cut);
        assert(a =~= front.push('\n'));
        lemma_pieces_join(front, '\n', b, cut);
        assert(pieces(a, cut).drop_last() =~= pieces(front, cut));
        assert(pieces(a + b, cut).drop_last() =~= pieces(front, cut) + pieces(b, cut).drop_last());
        assert(pieces(a + b, cut).last() == pieces(b, cut).last());
        assert(lines_of(a + b) =~= lines_of(a) + lines_of(b));
    }
}

proof fn lemma_first_piece(s: Seq<char>, pat: Seq<char>, cut: Cut)
    requires
        begins(s, pat),
        forall|i: int| 0 <= i < pat.len() ==> !cut.falls_on(#[trigger] pat[i]),
    ensures
        begins(pieces(s, cut)[0], pat),
    decreases s.len(),
{
    if s.len() == pat.len() {
        assert(s =~= s.subrange(0, pat.len() as int));
        lemma_one_piece(pat, cut);
    } else {
        let front = s.drop_last();
        lemma_pieces_len(front, cut);
        assert(front.subrange(0, pat.len() as int) =~= s.subrange(0, pat.len() as int));
        lemma_first_piece(front, pat, cut);
        let p = pieces(front, cut)[0];
        assert(p.push(s.last()).subrange(0, pat.len() as int) =~= p.subrange(
            0,
            pat.len() as int,
        ));
    }
}

/// A text that begins with `pat`, which holds no line end, has a first line, and
/// that begins with `pat` too.
pub proof fn lemma_first_line(s: Seq<char>, pat: Seq<char>)
    requires
        pat.len() > 0,
        begins(s, pat),
        forall|i: int| 0 <= i < pat.len() ==> #[trigger] pat[i] != '\n' && pat[i] != '\r',
    ensures
        lines_of(s).len() > 0,
        begins(lines_of(s)[0], pat),
{
    let cut = Cut::At('\n');
    lemma_pieces_len(s, cut);
    lemma_first_piece(s, pat, cut);
    let p = pieces(s, cut)[0];
    if p.len() == pat.len() {
        assert(p =~= p.subrange(0, pat.len() as int));
        assert(pat[pat.len() - 1] != '\r');
    }
    assert(without_cr(p).subrange(0, pat.len() as int) =~= p.subrange(0, pat.len() as int));
}

/// The non-empty ones of a list of pieces.
pub open spec fn filled(ps: Seq<Seq<char>>) -> Seq<Seq<char>>
    decreases ps.len(),
{
    if ps.len() == 0 {
        Seq::empty()
    } else if ps.last().len() == 0 {
        filled(ps.drop_last())
    } else {
        filled(ps.drop_last()).push(ps.last())
    }
}

/// The words of `s`: its non-empty pieces between white space.
pub open spec fn words_of(s: Seq<char>) -> Seq<Seq<char>> {
    filled(pieces(s, Cut::Blank))
}

/// The words of `s`.
pub fn words(s: &str) -> (r: Vec<String>)
    ensures
        texts(r@) == words_of(s@),
{
    let ps = split(s, Cut::Blank);
    let mut out: Vec<String> = Vec::new();
    let mut i: usize = 0;
    proof {
        assert(texts(out@) =~= filled(texts(ps@).take(0)));
    }
    while i < ps.len()
        invariant
            i <= ps@.len(),
            texts(out@) == filled(texts(ps@).take(i as int)),
        decreases ps@.len() - i,
    {
        proof {
            assert(texts(ps@).take(i + 1).drop_last() =~= texts(ps@).take(i as int));
            assert(texts(ps@).take(i + 1).last() == ps@[i as int]@);
        }
        if ps[i].as_str().unicode_len() > 0 {
            let ghost before = out@;
            out.push(ps[i].clone());
            proof {
                assert(texts(out@) =~= texts(before).push(out@.last()@));
            }
        }
        i += 1;
    }
    proof {
        assert(texts(ps@).take(i as int) =~= texts(ps@));
    }
    out
}

/// Whether `w` is a word: not empty, and without white space.
pub open spec fn is_word(w: Seq<char>) -> bool {
    w.len() > 0 && forall|i: int| 0 <= i < w.len() ==> !is_blank(#[trigger] w[i])
}

/// The words of a text are words.
pub proof fn lemma_words_are_words(s: Seq<char>, i: int)
    requires
        0 <= i < words_of(s).len(),
    ensures
        is_word(words_of(s)[i]),
{
    lemma_pieces_hold_no_cut(s, Cut::Blank);
    lemma_filled(pieces(s, Cut::Blank), i);
}

proof fn lemma_pieces_hold_no_cut(s: Seq<char>, cut: Cut)
    ensures
        pieces(s, cut).len() > 0,
        forall|i: int, j: int|
            0 <= i < pieces(s, cut).len() && 0 <= j < pieces(s, cut)[i].len() ==> !cut.falls_on(
                #[trigger] pieces(s, cut)[i][j],
            ),
    decreases s.len(),
{
    if s.len() > 0 {
        lemma_pieces_hold_no_cut(s.drop_last(), cut);
        let front = pieces(s.drop_last(), cut);
        let all = pieces(s, cut);
        assert forall|i: int, j: int|
            0 <= i < all.len() && 0 <= j < all[i].len() implies !cut.falls_on(
            #[trigger] all[i][j],
        ) by {
            if i < all.len() - 1 {
                assert(all[i] == front[i]);
                assert(!cut.falls_on(front[i][j]));
            } else if !cut.falls_on(s.last()) {
                if j < front.last().len() {
                    assert(all[i][j] == front[front.len() - 1][j]);
                    assert(!cut.falls_on(front[front.len() - 1][j]));
                }
            }
        }
    }
}

proof fn lemma_filled(ps: Seq<Seq<char>>, i: int)
    requires
        0 <= i < filled(ps).len(),
    ensures
        filled(ps)[i].len() > 0,
        exists|j: int| 0 <= j < ps.len() && #[trigger] ps[j] == filled(ps)[i],
    decreases ps.len(),
{
    let rest = ps.drop_last();
    if ps.last().len() > 0 && i == filled(ps).len() - 1 {
        assert(ps[ps.len() - 1] == filled(ps)[i]);
    } else {
        lemma_filled(rest, i);
        let j = choose|j: int| 0 <= j < rest.len() && #[trigger] rest[j] == filled(rest)[i];
        assert(ps[j] == filled(ps)[i]);
    }
}

proof fn lemma_filled_joins(a: Seq<Seq<char>>, b: Seq<Seq<char>>)
    ensures
        filled(a + b) == filled(a) + filled(b),
    decreases b.len(),
{
    if b.len() == 0 {
        assert(a + b =~= a);
        assert(filled(a) + filled(b) =~= filled(a));
    } else {
        lemma_filled_joins(a, b.drop_last());
        assert((a + b).drop_last() =~= a + b.drop_last());
        assert((a + b).last() == b.last());
        assert(filled(a + b) =~= filled(a) + filled(b));
    }
}

/// The pieces of two texts with a separator between them are those of the one and
/// then those of the other.
pub proof fn lemma_pieces_join(a: Seq<char>, c: char, b: Seq<char>, cut: Cut)
    requires
        cut.falls_on(c),
    ensures
        pieces(a.push(c) + b, cut) == pieces(a, cut) + pieces(b, cut),
    decreases b.len(),
{
    let s = a.push(c) + b;
    if b.len() == 0 {
        assert(s =~= a.push(c));
        assert(s.drop_last() =~= a);
        assert(pieces(s, cut) =~= pieces(a, cut) + pieces(b, cut));
    } else {
        lemma_pieces_join(a, c, b.drop_last(), cut);
        lemma_pieces_len(b.drop_last(), cut);
        assert(s.drop_last() =~= a.push(c) + b.drop_last());
        assert(s.last() == b.last());
        assert(pieces(s, cut) =~= pieces(a, cut) + pieces(b, cut));
    }
}

/// The words of two texts with a blank between them are the words of the one
/// and then those of the other.
pub proof fn lemma_words_join(a: Seq<char>, b: Seq<char>)
    ensures
        words_of(a + " "@ + b) == words_of(a) + words_of(b),
{
    reveal_strlit(" ");
    assert(a + " "@ + b =~= a.push(' ') + b);
    lemma_pieces_join(a, ' ', b, Cut::Blank);
    lemma_filled_joins(pieces(a, Cut::Blank), pieces(b, Cut::Blank));
}

/// A word is the only word of itself, and there is none in an empty text.
pub proof fn lemma_word_alone(w: Seq<char>)
    requires
        w.len() == 0 || is_word(w),
    ensures
        words_of(w) == if w.len() == 0 {
            Seq::empty()
        } else {
            Seq::empty().push(w)
        },
{
    lemma_one_piece(w, Cut::Blank);
    reveal_with_fuel(filled, 2);
    assert(pieces(w, Cut::Blank).drop_last() =~= Seq::<Seq<char>>::empty());
    assert(words_of(w) =~= if w.len() == 0 {
        Seq::empty()
    } else {
        Seq::empty().push(w)
    });
}

/// A text without a separator is its only piece.
pub proof fn lemma_one_piece(w: Seq<char>, cut: Cut)
    requires
        forall|i: int| 0 <= i < w.len() ==> !cut.falls_on(#[trigger] w[i]),
    ensures
        pieces(w, cut) == seq![w],
    decreases w.len(),
{
    if w.len() == 0 {
        assert(w =~= Seq::<char>::empty());
        assert(pieces(w, cut) =~= seq![w]);
    } else {
        assert forall|i: int| 0 <= i < w.drop_last().len() implies !cut.falls_on(
            #[trigger] w.drop_last()[i],
        ) by {
            assert(w.drop_last()[i] == w[i]);
        }
        lemma_one_piece(w.drop_last(), cut);
        assert(w.drop_last().push(w.last()) =~= w);
        assert(!cut.falls_on(w[w.len() - 1]));
        assert(pieces(w, cut) =~= seq![w]);
    }
}

/// `s` without the white space at its start.
pub open spec fn trim_front(s: Seq<char>) -> Seq<char>
    decreases s.len(),
{
    if s.len() > 0 && is_blank(s[0]) {
        trim_front(s.skip(1))
    } else {
        s
    }
}

/// `s` without the white space at its end.
pub open spec fn trim_back(s: Seq<char>) -> Seq<char>
    decreases s.len(),
{
    if s.len() > 0 && is_blank(s.last()) {
        trim_back(s.drop_last())
    } else {
        s
    }
}

/// `s` without the white space at both ends.
pub open spec fn trimmed(s: Seq<char>) -> Seq<char> {
    trim_back(trim_front(s))
}

/// `s` without the white space at both ends.
pub fn trim(s: &str) -> (r: String)
    ensures
        r@ == trimmed(s@),
{
    let cs = chars_of(s);
    let mut from: usize = 0;
    proof {
        assert(cs@.skip(0) =~= cs@);
    }
    while from < cs.len() && blank(cs[from])
        invariant
            from <= cs@.len(),
            trim_front(cs@.skip(from as int)) == trim_front(s@),
        decreases cs@.len() - from,
    {
        proof {
            assert(cs@.skip(from as int).skip(1) =~= cs@.skip(from + 1));
        }
        from += 1;
    }
    let mut to: usize = cs.len();
    proof {
        assert(trim_front(s@) == cs@.skip(from as int));
        assert(cs@.subrange(from as int, to as int) =~= cs@.skip(from as int));
    }
    while from < to && blank(cs[to - 1])
        invariant
            from <= to <= cs@.len(),
            trim_back(cs@.subrange(from as int, to as int)) == trimmed(s@),
        decreases to,
    {
        proof {
            assert(cs@.subrange(from as int, to as int).drop_last() =~= cs@.subrange(
                from as int,
                to - 1,
            ));
        }
        to -= 1;
    }
    string_of(&cs, from, to)
}

/// `s` without the characters `c` at its start.
pub open spec fn strip_leading(s: Seq<char>, c: char) -> Seq<char>
    decreases s.len(),
{
    if s.len() > 0 && s[0] == c {
        strip_leading(s.skip(1), c)
    } else {
        s
    }
}

/// `s` without the characters `c` at its start.
pub fn trim_start_matches(s: &str, c: char) -> (r: String)
    ensures
        r@ == strip_leading(s@, c),
{
    let cs = chars_of(s);
    let mut from: usize = 0;
    proof {
        assert(cs@.skip(0) =~= cs@);
    }
    while from < cs.len() && cs[from] == c
        invariant
            from <= cs@.len(),
            strip_leading(cs@.skip(from as int), c) == strip_leading(s@, c),
        decreases cs@.len() - from,
    {
        proof {
            assert(cs@.skip(from as int).skip(1) =~= cs@.skip(from + 1));
        }
        from += 1;
    }
    proof {
        assert(cs@.subrange(from as int, cs@.len() as int) =~= cs@.skip(from as int));
    }
    string_of(&cs, from, cs.len())
}

/// Whether `pat` stands in `s` at position `at`.
pub open spec fn stands_at(s: Seq<char>, pat: Seq<char>, at: int) -> bool {
    0 <= at && at + pat.len() <= s.len() && s.subrange(at, at + pat.len()) == pat
}

/// The first position of `pat` in `s`, from `at` on.
pub open spec fn find_from(s: Seq<char>, pat: Seq<char>, at: int) -> Option<int>
    decreases s.len() - at + 1,
{
    if at + pat.len() > s.len() {
        None
    } else if stands_at(s, pat, at) {
        Some(at)
    } else {
        find_from(s, pat, at + 1)
    }
}

fn stands(cs: &Vec<char>, pat: &Vec<char>, at: usize) -> (r: bool)
    ensures
        r == stands_at(cs@, pat@, at as int),
{
    if at > cs.len() || pat.len() > cs.len() - at {
        return false;
    }
    let mut i: usize = 0;
    while i < pat.len()
        invariant
            i <= pat@.len(),
            at + pat@.len() <= cs.len(),
            forall|k: int| 0 <= k < i ==> cs@[at + k] == pat@[k],
        decreases pat@.len() - i,
    {
        if cs[at + i] != pat[i] {
            proof {
                assert(cs@.subrange(at as int, at + pat@.len())[i as int] == cs@[at + i]);
            }
            return false;
        }
        i += 1;
    }
    proof {
        assert(cs@.subrange(at as int, at + pat@.len()) =~= pat@);
    }
    true
}

/// The first position of `pat` in `s`, counted in characters.
pub fn find(s: &str, pat: &str) -> (r: Option<usize>)
    ensures
        match r {
            Some(i) => find_from(s@, pat@, 0) == Some(i as int),
            None => find_from(s@, pat@, 0) is None,
        },
{
    let cs = chars_of(s);
    let ps = chars_of(pat);
    if ps.len() > cs.len() {
        return None;
    }
    let stop: usize = cs.len() - ps.len();
    let mut at: usize = 0;
    loop
        invariant
            at <= stop,
            stop + ps@.len() == cs@.len(),
            cs@ == s@,
            ps@ == pat@,
            find_from(s@, pat@, at as int) == find_from(s@, pat@, 0),
        decreases stop - at,
    {
        if stands(&cs, &ps, at) {
            return Some(at);
        }
        if at == stop {
            proof {
                assert(find_from(s@, pat@, at + 1) is None);
            }
            return None;
        }
        at += 1;
    }
}

/// Whether `pat` stands somewhere in `s`.
pub open spec fn holds(s: Seq<char>, pat: Seq<char>) -> bool {
    find_from(s, pat, 0) is Some
}

/// Whether `pat` stands somewhere in `s`.
pub fn contains(s: &str, pat: &str) -> (r: bool)
    ensures
        r == holds(s@, pat@),
{
    find(s, pat).is_some()
}

/// Whether `s` begins with `pat`.
pub open spec fn begins(s: Seq<char>, pat: Seq<char>) -> bool {
    stands_at(s, pat, 0)
}

/// Whether `s` ends with `pat`.
pub open spec fn ends(s: Seq<char>, pat: Seq<char>) -> bool {
    stands_at(s, pat, s.len() - pat.len())
}

/// Whether `s` begins with `pat`.
pub fn starts_with(s: &str, pat: &str) -> (r: bool)
    ensures
        r == begins(s@, pat@),
{
    let cs = chars_of(s);
    let ps = chars_of(pat);
    stands(&cs, &ps, 0)
}

/// Whether `s` ends with `pat`.
pub fn ends_with(s: &str, pat: &str) -> (r: bool)
    ensures
        r == ends(s@, pat@),
{
    let cs = chars_of(s);
    let ps = chars_of(pat);
    if ps.len() > cs.len() {
        return false;
    }
    stands(&cs, &ps, cs.len() - ps.len())
}

/// `s` from character `n` on; nothing when it is shorter than that.
pub open spec fn after(s: Seq<char>, n: int) -> Seq<char> {
    if n <= s.len() {
        s.skip(n)
    } else {
        Seq::empty()
    }
}

/// `s` from character `n` on.
pub fn skip(s: &str, n: usize) -> (r: String)
    ensures
        r@ == after(s@, n as int),
{
    let cs = chars_of(s);
    if n <= cs.len() {
        proof {
            assert(cs@.subrange(n as int, cs@.len() as int) =~= cs@.skip(n as int));
        }
        string_of(&cs, n, cs.len())
    } else {
        String::new()
    }
}

/// The first `n` characters of `s`, or all of it when it is shorter.
pub open spec fn first(s: Seq<char>, n: int) -> Seq<char> {
    if n <= s.len() {
        s.take(n)
    } else {
        s
    }
}

/// The first `n` characters of `s`, or all of it when it is shorter.
pub fn take(s: &str, n: usize) -> (r: String)
    ensures
        r@ == first(s@, n as int),
{
    let cs = chars_of(s);
    if n <= cs.len() {
        proof {
            assert(cs@.subrange(0, n as int) =~= cs@.take(n as int));
        }
        string_of(&cs, 0, n)
    } else {
        s.to_owned()
    }
}

/// The first position of `s` in a list of texts, from `from` on.
pub open spec fn index_in(list: Seq<Seq<char>>, s: Seq<char>, from: int) -> Option<int>
    decreases list.len() - from,
{
    if from < 0 || from >= list.len() {
        None
    } else if list[from] == s {
        Some(from)
    } else {
        index_in(list, s, from + 1)
    }
}

/// The first position of `s` in a list of texts.
pub open spec fn place(list: Seq<Seq<char>>, s: Seq<char>) -> Option<int> {
    index_in(list, s, 0)
}

/// The first position of `s` in a list of strings.
pub fn position(list: &Vec<String>, s: &str) -> (r: Option<usize>)
    ensures
        match r {
            Some(i) => i < list@.len() && list@[i as int]@ == s@ && place(texts(list@), s@) == Some(
                i as int,
            ),
            None => place(texts(list@), s@) is None,
        },
{
    let mut i: usize = 0;
    while i < list.len()
        invariant
            i <= list@.len(),
            index_in(texts(list@), s@, i as int) == place(texts(list@), s@),
        decreases list@.len() - i,
    {
        if same(list[i].as_str(), s) {
            return Some(i);
        }
        i += 1;
    }
    None
}

/// Whether `c` is an ASCII character.
pub open spec fn is_ascii(c: char) -> bool {
    (c as u32) < 128
}

/// `c` with an ASCII capital letter made small.
pub open spec fn ascii_small(c: char) -> char {
    if 'A' <= c <= 'Z' {
        ((c as u32) + 32) as char
    } else {
        c
    }
}

/// `s` with its ASCII capital letters made small.
pub open spec fn small(s: Seq<char>) -> Seq<char> {
    s.map_values(|c: char| ascii_small(c))
}

/// `s` with its small ASCII letters made capitals.
pub open spec fn capitals(s: Seq<char>) -> Seq<char> {
    s.map_values(|c: char| ascii_capital(c))
}

/// Whether `s` holds ASCII characters only.
pub open spec fn all_ascii(s: Seq<char>) -> bool {
    forall|i: int| 0 <= i < s.len() ==> is_ascii(#[trigger] s[i])
}

/// What `str::to_lowercase` makes of a text.
pub uninterp spec fn lowercase(s: Seq<char>) -> Seq<char>;

/// Calls `str::to_lowercase`, which depends on the text alone. Of a text of
/// ASCII characters it is claimed besides that just the letters `A` to `Z`
/// change, each to its small form.
#[verifier::external_body]
pub(crate) fn to_lowercase(s: &str) -> (r: String)
    ensures
        r@ == lowercase(s@),
        all_ascii(s@) ==> r@ == small(s@),
{
    s.to_lowercase()
}

/// `s` in lower case.
pub open spec fn lowered(s: Seq<char>) -> Seq<char> {
    if all_ascii(s) {
        small(s)
    } else {
        lowercase(s)
    }
}

/// The case in which a text of ASCII characters is written makes no difference
/// to it in lower case.
pub proof fn lemma_lowered(s: Seq<char>)
    requires
        all_ascii(s),
    ensures
        lowered(small(s)) == lowered(s),
        lowered(capitals(s)) == lowered(s),
{
    assert forall|i: int| 0 <= i < s.len() implies is_ascii(#[trigger] small(s)[i]) by {
        assert(is_ascii(s[i]));
    }
    assert forall|i: int| 0 <= i < s.len() implies is_ascii(#[trigger] capitals(s)[i]) by {
        assert(is_ascii(s[i]));
    }
    assert(small(small(s)) =~= small(s));
    assert(small(capitals(s)) =~= small(s));
}

/// Changing characters other than the separator, and none to it, changes the
/// pieces in just the same way.
pub proof fn lemma_pieces_mapped(s: Seq<char>, sep: char, f: spec_fn(char) -> char)
    requires
        forall|c: char| (#[trigger] f(c)) == sep <==> c == sep,
    ensures
        pieces(s.map_values(f), Cut::At(sep)).len() == pieces(s, Cut::At(sep)).len(),
        forall|i: int|
            0 <= i < pieces(s, Cut::At(sep)).len() ==> #[trigger] pieces(
                s.map_values(f),
                Cut::At(sep),
            )[i] == pieces(s, Cut::At(sep))[i].map_values(f),
    decreases s.len(),
{
    let cut = Cut::At(sep);
    let t = s.map_values(f);
    if s.len() == 0 {
        assert(Seq::<char>::empty().map_values(f) =~= Seq::<char>::empty());
    } else {
        let rest = s.drop_last();
        lemma_pieces_mapped(rest, sep, f);
        lemma_pieces_len(rest, cut);
        assert(t.drop_last() =~= rest.map_values(f));
        assert(t.last() == f(s.last()));
        let p = pieces(rest, cut);
        let q = pieces(rest.map_values(f), cut);
        assert(Seq::<char>::empty().map_values(f) =~= Seq::<char>::empty());
        assert(q[q.len() - 1] == p[p.len() - 1].map_values(f));
        assert(p.last().push(s.last()).map_values(f) =~= q.last().push(t.last()));
        assert forall|i: int| 0 <= i < pieces(s, cut).len() implies #[trigger] pieces(t, cut)[i]
            == pieces(s, cut)[i].map_values(f) by {
            if i < p.len() {
                assert(q[i] == p[i].map_values(f));
            }
        }
    }
}

/// The pieces of a text of ASCII characters are such texts.
pub proof fn lemma_pieces_ascii(s: Seq<char>, cut: Cut)
    requires
        all_ascii(s),
    ensures
        forall|i: int| 0 <= i < pieces(s, cut).len() ==> all_ascii(#[trigger] pieces(s, cut)[i]),
    decreases s.len(),
{
    if s.len() > 0 {
        let rest = s.drop_last();
        assert(is_ascii(s[s.len() - 1]));
        assert forall|i: int| 0 <= i < rest.len() implies is_ascii(#[trigger] rest[i]) by {
            assert(is_ascii(s[i]));
        }
        lemma_pieces_ascii(rest, cut);
        lemma_pieces_len(rest, cut);
        let p = pieces(rest, cut);
        assert(all_ascii(p[p.len() - 1]));
        assert forall|i: int| 0 <= i < pieces(s, cut).len() implies all_ascii(
            #[trigger] pieces(s, cut)[i],
        ) by {
            if i < p.len() {
                assert(all_ascii(p[i]));
            }
        }
    }
}

/// `c` with an ASCII capital letter made small.
pub fn to_ascii_small(c: char) -> (r: char)
    ensures
        r == ascii_small(c),
{
    if 'A' <= c && c <= 'Z' {
        (c as u8 + 32) as char
    } else {
        c
    }
}

/// `c` with a small ASCII letter made a capital.
pub open spec fn ascii_capital(c: char) -> char {
    if 'a' <= c <= 'z' {
        ((c as u32) - 32) as char
    } else {
        c
    }
}

/// `c` with a small ASCII letter made a capital.
pub fn to_ascii_capital(c: char) -> (r: char)
    ensures
        r == ascii_capital(c),
{
    if 'a' <= c && c <= 'z' {
        (c as u8 - 32) as char
    } else {
        c
    }
}

/// The parts of `s` at a separator, at most `n` of them: the last one takes
/// all that is left.
pub open spec fn fields(s: Seq<char>, sep: Seq<char>, n: nat) -> Seq<Seq<char>>
    decreases n,
{
    if n <= 1 {
        seq![s]
    } else {
        match find_from(s, sep, 0) {
            Some(i) => seq![s.take(i)] + fields(after(s, i + 1), sep, (n - 1) as nat),
            None => seq![s],
        }
    }
}

/// A place that was found lies inside the text.
pub proof fn lemma_found_inside(s: Seq<char>, pat: Seq<char>, at: int)
    requires
        0 <= at,
    ensures
        match find_from(s, pat, at) {
            Some(i) => at <= i && i + pat.len() <= s.len(),
            None => true,
        },
    decreases s.len() - at + 1,
{
    if at + pat.len() <= s.len() && !stands_at(s, pat, at) {
        lemma_found_inside(s, pat, at + 1);
    }
}

/// Cuts `s` at a separator of one character into at most `n` parts.
pub fn split_n(s: &str, sep: &str, n: usize) -> (r: Vec<String>)
    requires
        sep@.len() == 1,
    ensures
        texts(r@) == fields(s@, sep@, n as nat),
{
    let mut out: Vec<String> = Vec::new();
    let mut rest: String = s.to_owned();
    let mut left: usize = n;
    proof {
        assert(texts(out@) + fields(rest@, sep@, left as nat) =~= fields(s@, sep@, n as nat));
    }
    while left > 1
        invariant
            sep@.len() == 1,
            left <= n,
            texts(out@) + fields(rest@, sep@, left as nat) == fields(s@, sep@, n as nat),
        ensures
            texts(out@).push(rest@) == fields(s@, sep@, n as nat),
        decreases left,
    {
        match find(rest.as_str(), sep) {
            Some(i) => {
                let cs = chars_of(rest.as_str());
                proof {
                    lemma_found_inside(rest@, sep@, 0);
                    assert(i + 1 <= cs.len());
                }
                let head = string_of(&cs, 0, i);
                let tail = string_of(&cs, i + 1, cs.len());
                proof {
                    assert(head@ =~= rest@.take(i as int));
                    assert(tail@ =~= after(rest@, i + 1));
                    assert(texts(out@.push(head)) =~= texts(out@).push(head@));
                    assert(texts(out@) + (seq![head@] + fields(tail@, sep@, (left - 1) as nat))
                        =~= texts(out@).push(head@) + fields(tail@, sep@, (left - 1) as nat));
                }
                out.push(head);
                rest = tail;
                left -= 1;
            },
            None => {
                proof {
                    assert(texts(out@) + seq![rest@] =~= texts(out@).push(rest@));
                }
                break;
            },
        }
        proof {
            if left <= 1 {
                assert(texts(out@) + seq![rest@] =~= texts(out@).push(rest@));
            }
        }
    }
    proof {
        assert(texts(out@.push(rest)) =~= texts(out@).push(rest@));
    }
    out.push(rest);
    out
}

/// The text that `String::from_utf8_lossy` reads from bytes.
pub uninterp spec fn lossy(bytes: Seq<u8>) -> Seq<char>;

/// Calls `String::from_utf8_lossy`, which depends on the bytes alone. Of bytes
/// that are valid UTF-8 it is claimed besides that the text is the one they
/// encode.
#[verifier::external_body]
pub(crate) fn from_utf8_lossy(bytes: &[u8]) -> (r: String)
    ensures
        r@ == lossy(bytes@),
        vstd::utf8::valid_utf8(bytes@) ==> r@ == vstd::utf8::decode_utf8(bytes@),
{
    String::from_utf8_lossy(bytes).into_owned()
}

/// The signed 64-bit number that `s` spells: digits, with a sign before them
/// or not.
pub open spec fn parsed_signed(s: Seq<char>) -> Option<int> {
    if s.len() > 0 && s[0] == '-' {
        let ds = s.skip(1);
        if all_digits(ds) && value_of(ds) <= 0x8000_0000_0000_0000 {
            Some(-(value_of(ds) as int))
        } else {
            None
        }
    } else {
        match parsed(s, 0x7fff_ffff_ffff_ffff) {
            Some(v) => Some(v as int),
            None => None,
        }
    }
}

/// The signed 64-bit number that `s` spells.
pub fn parse_i64(s: &str) -> (r: Option<i64>)
    ensures
        match r {
            Some(v) => parsed_signed(s@) == Some(v as int),
            None => parsed_signed(s@) is None,
        },
{
    let cs = chars_of(s);
    if cs.len() > 0 && cs[0] == '-' {
        let ds = string_of(&cs, 1, cs.len());
        proof {
            assert(ds@ =~= s@.skip(1));
        }
        if cs.len() > 1 && cs[1] == '+' {
            proof {
                assert(s@.skip(1)[0] == '+');
                assert(!all_digits(s@.skip(1))) by {
                    assert(!is_digit(s@.skip(1)[0]));
                }
            }
            return None;
        }
        proof {
            if ds@.len() > 0 {
                assert(s@.skip(1)[0] == cs@[1]);
            }
            assert(without_plus(ds@) == ds@);
        }
        match parse_unsigned(ds.as_str(), 0x8000_0000_0000_0000) {
            Some(v) => if v == 0x8000_0000_0000_0000 {
                Some(i64::MIN)
            } else {
                Some(-(v as i64))
            },
            None => None,
        }
    } else {
        match parse_unsigned(s, 0x7fff_ffff_ffff_ffff) {
            Some(v) => Some(v as i64),
            None => None,
        }
    }
}

/// How many bytes `c` takes in UTF-8.
pub open spec fn byte_width(c: char) -> nat {
    if (c as u32) < 0x80 {
        1
    } else if (c as u32) < 0x800 {
        2
    } else if (c as u32) < 0x10000 {
        3
    } else {
        4
    }
}

/// How many bytes `c` takes in UTF-8.
pub fn width_in_bytes(c: char) -> (r: usize)
    ensures
        r == byte_width(c),
{
    let u: u32 = c as u32;
    if u < 0x80 {
        1
    } else if u < 0x800 {
        2
    } else if u < 0x10000 {
        3
    } else {
        4
    }
}

/// How many bytes `s` takes in UTF-8.
pub open spec fn byte_len(s: Seq<char>) -> nat
    decreases s.len(),
{
    if s.len() == 0 {
        0
    } else {
        byte_len(s.drop_last()) + byte_width(s.last())
    }
}

/// How many bytes `s` takes in UTF-8.
pub fn bytes_in(s: &str) -> (r: u128)
    ensures
        r == byte_len(s@),
        r <= 4 * usize::MAX,
{
    let cs = chars_of(s);
    let mut total: u128 = 0;
    let mut i: usize = 0;
    proof {
        assert(cs@.take(0) =~= Seq::<char>::empty());
    }
    while i < cs.len()
        invariant
            i <= cs@.len(),
            total == byte_len(cs@.take(i as int)),
            total <= 4 * i,
        decreases cs@.len() - i,
    {
        proof {
            assert(cs@.take(i + 1).drop_last() =~= cs@.take(i as int));
        }
        total = total + width_in_bytes(cs[i]) as u128;
        i += 1;
    }
    proof {
        assert(cs@.take(i as int) =~= s@);
    }
    total
}

/// The longest beginning of `s` that takes at most `max` bytes.
pub open spec fn clipped(s: Seq<char>, max: nat) -> Seq<char>
    decreases s.len(),
{
    if s.len() == 0 || byte_len(s) <= max {
        s
    } else {
        clipped(s.drop_last(), max)
    }
}

/// A longer beginning takes no fewer bytes.
pub proof fn lemma_byte_len_grows(s: Seq<char>, a: int, b: int)
    requires
        0 <= a <= b <= s.len(),
    ensures
        byte_len(s.take(a)) + (b - a) <= byte_len(s.take(b)),
    decreases b - a,
{
    if a < b {
        assert(s.take(b).drop_last() =~= s.take(b - 1));
        lemma_byte_len_grows(s, a, b - 1);
    }
}

/// Two texts together take as many bytes as both of them.
pub proof fn lemma_byte_len_joins(a: Seq<char>, b: Seq<char>)
    ensures
        byte_len(a + b) == byte_len(a) + byte_len(b),
    decreases b.len(),
{
    if b.len() == 0 {
        assert(a + b =~= a);
    } else {
        lemma_byte_len_joins(a, b.drop_last());
        assert((a + b).drop_last() =~= a + b.drop_last());
    }
}

proof fn lemma_clipped(s: Seq<char>, max: nat, k: int, n: int)
    requires
        0 <= k < n <= s.len(),
        byte_len(s.take(k)) <= max,
        byte_len(s.take(k + 1)) > max,
    ensures
        clipped(s.take(n), max) == s.take(k),
    decreases n,
{
    lemma_byte_len_grows(s, k + 1, n);
    assert(s.take(n).drop_last() =~= s.take(n - 1));
    if n > k + 1 {
        lemma_clipped(s, max, k, n - 1);
    } else {
        reveal_with_fuel(clipped, 2);
    }
}

/// The longest beginning of `s` that takes at most `max` bytes, and whether
/// that leaves something out.
pub fn clip(s: &str, max: usize) -> (r: (String, bool))
    requires
        max <= usize::MAX - 4,
    ensures
        r.0@ == clipped(s@, max as nat),
        r.1 == (byte_len(s@) > max),
        r.0@.len() <= max,
{
    let cs = chars_of(s);
    let mut total: usize = 0;
    let mut i: usize = 0;
    proof {
        assert(cs@.take(0) =~= Seq::<char>::empty());
        assert(cs@.take(cs@.len() as int) =~= cs@);
        assert(byte_len(cs@.take(0)) == 0);
    }
    while i < cs.len()
        invariant
            i <= cs@.len(),
            cs@ == s@,
            cs@.take(cs@.len() as int) == cs@,
            total == byte_len(cs@.take(i as int)),
            total <= max <= usize::MAX - 4,
        decreases cs@.len() - i,
    {
        let w: usize = width_in_bytes(cs[i]);
        proof {
            assert(cs@.take(i + 1).drop_last() =~= cs@.take(i as int));
            assert(cs@.take(i + 1).last() == cs@[i as int]);
        }
        if total + w > max {
            proof {
                lemma_clipped(cs@, max as nat, i as int, cs@.len() as int);
                lemma_byte_len_grows(cs@, i + 1, cs@.len() as int);
                lemma_byte_len_grows(cs@, 0, i as int);
                assert(cs@.take(0) =~= Seq::<char>::empty());
                assert(cs@.subrange(0, i as int) =~= cs@.take(i as int));
            }
            return (string_of(&cs, 0, i), true);
        }
        total = total + w;
        i += 1;
    }
    proof {
        lemma_byte_len_grows(cs@, 0, i as int);
        assert(cs@.take(0) =~= Seq::<char>::empty());
    }
    (s.to_owned(), false)
}

/// The decimal digit `d`.
pub open spec fn digit(d: nat) -> char {
    (48 + d) as char
}

/// Whether `c` is one of `0` to `9`.
pub open spec fn is_digit(c: char) -> bool {
    '0' <= c <= '9'
}

/// `n` in decimal, without leading zeros.
pub open spec fn decimal(n: nat) -> Seq<char>
    decreases n,
{
    if n < 10 {
        seq![digit(n)]
    } else {
        decimal(n / 10).push(digit(n % 10))
    }
}

/// `n` in decimal.
pub fn dec_wide(n: u128) -> (r: String)
    ensures
        r@ == decimal(n as nat),
    decreases n,
{
    let d: u8 = (n % 10) as u8;
    let c = (48 + d) as char;
    if n < 10 {
        let mut out = String::new();
        out.push(c);
        proof {
            assert(out@ =~= seq![digit(n as nat)]);
        }
        out
    } else {
        let mut out = dec_wide(n / 10);
        out.push(c);
        out
    }
}

/// `n` in decimal.
pub fn dec(n: u64) -> (r: String)
    ensures
        r@ == decimal(n as nat),
{
    dec_wide(n as u128)
}

/// The number that a run of decimal digits stands for.
pub open spec fn value_of(s: Seq<char>) -> nat
    decreases s.len(),
{
    if s.len() == 0 {
        0
    } else {
        value_of(s.drop_last()) * 10 + (s.last() as nat - 48) as nat
    }
}

/// Whether `s` is a run of at least one decimal digit.
pub open spec fn all_digits(s: Seq<char>) -> bool {
    s.len() > 0 && forall|i: int| 0 <= i < s.len() ==> is_digit(#[trigger] s[i])
}

/// `s` without a plus sign at its start.
pub open spec fn without_plus(s: Seq<char>) -> Seq<char> {
    if s.len() > 0 && s[0] == '+' {
        s.skip(1)
    } else {
        s
    }
}

/// The unsigned number of at most `max` that `s` spells: digits, with a plus
/// sign before them or not.
pub open spec fn parsed(s: Seq<char>, max: nat) -> Option<nat> {
    let ds = without_plus(s);
    if all_digits(ds) && value_of(ds) <= max {
        Some(value_of(ds))
    } else {
        None
    }
}

/// Reading digits never makes the value smaller.
proof fn lemma_value_grows(s: Seq<char>, k: int)
    requires
        0 <= k <= s.len(),
    ensures
        value_of(s.take(k)) <= value_of(s),
    decreases s.len() - k,
{
    if k < s.len() {
        assert(s.take(k + 1).drop_last() =~= s.take(k));
        assert(value_of(s.take(k)) <= value_of(s.take(k + 1))) by {
            assert(value_of(s.take(k + 1)) == value_of(s.take(k)) * 10 + (s[k] as nat - 48) as nat);
        }
        lemma_value_grows(s, k + 1);
    } else {
        assert(s.take(k) =~= s);
    }
}

/// The unsigned number of at most `max` that `s` spells.
pub fn parse_unsigned(s: &str, max: u64) -> (r: Option<u64>)
    ensures
        match r {
            Some(v) => parsed(s@, max as nat) == Some(v as nat),
            None => parsed(s@, max as nat) is None,
        },
{
    let cs = chars_of(s);
    let start: usize = if cs.len() > 0 && cs[0] == '+' {
        1
    } else {
        0
    };
    let ghost ds = without_plus(s@);
    proof {
        assert(ds =~= cs@.skip(start as int));
    }
    if start == cs.len() {
        return None;
    }
    let mut total: u64 = 0;
    let mut i: usize = start;
    proof {
        assert(ds.take(0) =~= Seq::<char>::empty());
    }
    while i < cs.len()
        invariant
            start <= i <= cs@.len(),
            start < cs@.len(),
            ds == cs@.skip(start as int),
            ds == without_plus(s@),
            total == value_of(ds.take(i - start)),
            total <= max,
            forall|k: int| 0 <= k < i - start ==> is_digit(#[trigger] ds[k]),
        decreases cs@.len() - i,
    {
        let c = cs[i];
        proof {
            assert(ds[i - start] == c);
        }
        if !('0' <= c && c <= '9') {
            return None;
        }
        let d: u64 = (c as u32 - 48) as u64;
        let next: u128 = (total as u128) * 10 + (d as u128);
        proof {
            assert(ds.take(i + 1 - start).drop_last() =~= ds.take(i - start));
            assert(ds.take(i + 1 - start).last() == c);
            assert(next == value_of(ds.take(i + 1 - start)));
            lemma_value_grows(ds, i + 1 - start);
        }
        if next > max as u128 {
            return None;
        }
        total = next as u64;
        i += 1;
    }
    proof {
        assert(ds.take(i - start) =~= ds);
    }
    Some(total)
}

/// `s` with a first letter `a` to `z` made a capital.
pub open spec fn capitalised(s: Seq<char>) -> Seq<char> {
    if s.len() > 0 {
        seq![ascii_capital(s[0])] + s.skip(1)
    } else {
        s
    }
}

/// `s` with a first letter `a` to `z` made a capital.
pub fn capitalise(s: &str) -> (r: String)
    ensures
        r@ == capitalised(s@),
{
    let cs = chars_of(s);
    if cs.len() == 0 {
        return s.to_owned();
    }
    let mut out = String::new();
    out.push(to_ascii_capital(cs[0]));
    out.append(string_of(&cs, 1, cs.len()).as_str());
    proof {
        assert(out@ =~= capitalised(s@));
    }
    out
}

/// Texts joined by a separator.
pub open spec fn joined_by(parts: Seq<Seq<char>>, sep: Seq<char>) -> Seq<char>
    decreases parts.len(),
{
    if parts.len() == 0 {
        Seq::empty()
    } else if parts.len() == 1 {
        parts[0]
    } else {
        joined_by(parts.drop_last(), sep) + sep + parts.last()
    }
}

/// The strings joined by a separator.
pub fn join(parts: &Vec<String>, sep: &str) -> (r: String)
    ensures
        r@ == joined_by(texts(parts@), sep@),
{
    let mut out = String::new();
    let ghost all = texts(parts@);
    let mut i: usize = 0;
    proof {
        assert(out@ =~= joined_by(all.take(0), sep@));
    }
    while i < parts.len()
        invariant
            i <= parts@.len(),
            all == texts(parts@),
            out@ == joined_by(all.take(i as int), sep@),
        decreases parts@.len() - i,
    {
        proof {
            assert(all.take(i + 1).drop_last() =~= all.take(i as int));
            assert(all.take(i + 1).last() == parts@[i as int]@);
        }
        if i > 0 {
            out.append(sep);
        }
        out.append(parts[i].as_str());
        i += 1;
        proof {
            assert(out@ =~= joined_by(all.take(i as int), sep@));
        }
    }
    proof {
        assert(all.take(i as int) =~= all);
    }
    out
}

/// `n` blanks.
pub open spec fn blanks(n: int) -> Seq<char> {
    Seq::new(
        if n >= 0 {
            n as nat
        } else {
            0
        },
        |i: int| ' ',
    )
}

/// `n` blanks.
pub fn spaces(n: usize) -> (r: String)
    ensures
        r@ == blanks(n as int),
{
    let mut out = String::new();
    let mut i: usize = 0;
    while i < n
        invariant
            i <= n,
            out@ == blanks(i as int),
        decreases n - i,
    {
        out.push(' ');
        i += 1;
        proof {
            assert(out@ =~= blanks(i as int));
        }
    }
    proof {
        assert(out@ =~= blanks(n as int));
    }
    out
}

/// `s` with blanks before it up to `width` characters.
pub open spec fn right_aligned(s: Seq<char>, width: int) -> Seq<char> {
    blanks(width - s.len()) + s
}

/// `s` with blanks after it up to `width` characters.
pub open spec fn left_aligned(s: Seq<char>, width: int) -> Seq<char> {
    s + blanks(width - s.len())
}

/// `s` with blanks before it up to `width` characters.
pub fn pad_left(s: &str, width: usize) -> (r: String)
    ensures
        r@ == right_aligned(s@, width as int),
{
    let n: usize = s.unicode_len();
    if n < width {
        join2(spaces(width - n).as_str(), s)
    } else {
        proof {
            assert(right_aligned(s@, width as int) =~= s@);
        }
        s.to_owned()
    }
}

/// `s` with blanks after it up to `width` characters.
pub fn pad_right(s: &str, width: usize) -> (r: String)
    ensures
        r@ == left_aligned(s@, width as int),
{
    let n: usize = s.unicode_len();
    if n < width {
        join2(s, spaces(width - n).as_str())
    } else {
        proof {
            assert(left_aligned(s@, width as int) =~= s@);
        }
        s.to_owned()
    }
}

/// Decimal notation reads back as the number it was written from.
pub proof fn law_decimal_reads_back(n: nat, max: nat)
    requires
        n <= max,
    ensures
        parsed(decimal(n), max) == Some(n),
{
    lemma_decimal_digits(n);
    assert(without_plus(decimal(n)) =~= decimal(n)) by {
        assert(is_digit(decimal(n)[0]));
    }
}

/// Decimal notation is made of digits only, and they stand for the number.
pub proof fn lemma_decimal_digits(n: nat)
    ensures
        all_digits(decimal(n)),
        value_of(decimal(n)) == n,
    decreases n,
{
    if n < 10 {
        assert(decimal(n).drop_last() =~= Seq::<char>::empty());
        assert(decimal(n).last() == digit(n));
        reveal_with_fuel(value_of, 2);
    } else {
        lemma_decimal_digits(n / 10);
        assert(decimal(n).drop_last() =~= decimal(n / 10));
        assert(decimal(n).last() == digit(n % 10));
        assert forall|i: int| 0 <= i < decimal(n).len() implies is_digit(#[trigger] decimal(n)[i]) by {
            if i < decimal(n / 10).len() {
                assert(decimal(n)[i] == decimal(n / 10)[i]);
            }
        }
    }
}

proof fn lemma_trim_front(s: Seq<char>) -> (n: int)
    ensures
        0 <= n <= s.len(),
        trim_front(s) == s.skip(n),
        forall|i: int| 0 <= i < n ==> is_blank(#[trigger] s[i]),
        n < s.len() ==> !is_blank(s[n]),
    decreases s.len(),
{
    if s.len() > 0 && is_blank(s[0]) {
        let n = lemma_trim_front(s.skip(1));
        assert(s.skip(1).skip(n) =~= s.skip(n + 1));
        assert forall|i: int| 0 <= i < n + 1 implies is_blank(#[trigger] s[i]) by {
            if i > 0 {
                assert(s.skip(1)[i - 1] == s[i]);
            }
        }
        n + 1
    } else {
        assert(s.skip(0) =~= s);
        0
    }
}

proof fn lemma_trim_back(s: Seq<char>) -> (n: int)
    ensures
        0 <= n <= s.len(),
        trim_back(s) == s.take(n),
        forall|i: int| n <= i < s.len() ==> is_blank(#[trigger] s[i]),
        n > 0 ==> !is_blank(s[n - 1]),
    decreases s.len(),
{
    if s.len() > 0 && is_blank(s.last()) {
        let n = lemma_trim_back(s.drop_last());
        assert(s.drop_last().take(n) =~= s.take(n));
        assert forall|i: int| n <= i < s.len() implies is_blank(#[trigger] s[i]) by {
            if i < s.len() - 1 {
                assert(s.drop_last()[i] == s[i]);
            }
        }
        n
    } else {
        assert(s.take(s.len() as int) =~= s);
        s.len() as int
    }
}

/// Trimming takes off white space at both ends, all of it and nothing else.
pub proof fn law_trimming_takes_off_white_space(s: Seq<char>) -> (r: (int, int))
    ensures
        0 <= r.0 <= r.1 <= s.len(),
        trimmed(s) == s.subrange(r.0, r.1),
        forall|i: int| 0 <= i < r.0 || r.1 <= i < s.len() ==> is_blank(#[trigger] s[i]),
        trimmed(s).len() > 0 ==> !is_blank(trimmed(s)[0]) && !is_blank(trimmed(s).last()),
{
    let a = lemma_trim_front(s);
    let rest = s.skip(a);
    let n = lemma_trim_back(rest);
    assert(rest.take(n) =~= s.subrange(a, a + n));
    assert forall|i: int| 0 <= i < a || a + n <= i < s.len() implies is_blank(#[trigger] s[i]) by {
        if i >= a {
            assert(rest[i - a] == s[i]);
        }
    }
    if n > 0 {
        assert(rest[0] == s[a]);
    }
    (a, a + n)
}

/// What is found stands where it was found, and nowhere before; what is not found
/// stands nowhere.
pub proof fn law_first_place_is_found(s: Seq<char>, pat: Seq<char>, from: int)
    requires
        0 <= from,
    ensures
        match find_from(s, pat, from) {
            Some(i) => from <= i && stands_at(s, pat, i) && forall|k: int|
                from <= k < i ==> !(#[trigger] stands_at(s, pat, k)),
            None => forall|k: int| from <= k ==> !(#[trigger] stands_at(s, pat, k)),
        },
    decreases s.len() - from + 1,
{
    if from + pat.len() <= s.len() && !stands_at(s, pat, from) {
        law_first_place_is_found(s, pat, from + 1);
    }
}

/// A field ends where the separator first stands: behind a field without it and
/// the separator come the fields of what is left.
pub proof fn law_fields_are_parted(a: Seq<char>, c: char, rest: Seq<char>, n: nat)
    requires
        n > 1,
        forall|i: int| 0 <= i < a.len() ==> #[trigger] a[i] != c,
    ensures
        fields(a + seq![c] + rest, seq![c], n) == seq![a] + fields(rest, seq![c], (n - 1) as nat),
        fields(a, seq![c], n) == seq![a],
{
    let s = a + seq![c] + rest;
    law_first_place_is_found(s, seq![c], 0);
    law_first_place_is_found(a, seq![c], 0);
    assert(s.subrange(a.len() as int, a.len() as int + 1) =~= seq![c]);
    assert(stands_at(s, seq![c], a.len() as int));
    match find_from(s, seq![c], 0) {
        Some(i) => {
            assert(s.subrange(i, i + 1)[0] == s[i]);
            if i < a.len() {
                assert(s[i] == a[i]);
            }
            assert(s.take(i) =~= a);
            assert(after(s, i + 1) =~= rest);
        },
        None => {},
    }
    match find_from(a, seq![c], 0) {
        Some(i) => {
            assert(a.subrange(i, i + 1)[0] == a[i]);
        },
        None => {},
    }
}

/// A text that is clipped keeps its beginning, within the limit; one character
/// more would go beyond it, and a text within the limit is kept whole.
pub proof fn law_clipping_keeps_the_beginning(s: Seq<char>, max: nat)
    ensures
        ({
            let n = clipped(s, max).len() as int;
            &&& n <= s.len()
            &&& clipped(s, max) == s.take(n)
            &&& byte_len(clipped(s, max)) <= max
            &&& n < s.len() ==> byte_len(s.take(n + 1)) > max
        }),
    decreases s.len(),
{
    if s.len() == 0 || byte_len(s) <= max {
        assert(s.take(s.len() as int) =~= s);
    } else {
        law_clipping_keeps_the_beginning(s.drop_last(), max);
        let n = clipped(s, max).len() as int;
        assert(s.drop_last().take(n) =~= s.take(n));
        if n + 1 < s.len() {
            assert(s.drop_last().take(n + 1) =~= s.take(n + 1));
        } else {
            assert(s.take(n + 1) =~= s);
        }
    }
}

/// Different numbers are spelled differently.
pub proof fn law_numbers_are_told_apart(a: nat, b: nat)
    requires
        decimal(a) == decimal(b),
    ensures
        a == b,
{
    lemma_decimal_digits(a);
    lemma_decimal_digits(b);
}

/// A line ends at a line feed, which is no part of it; nor is one carriage return
/// right before it, while any other stays.
pub proof fn law_lines_end_at_line_feeds(line: Seq<char>)
    requires
        forall|i: int| 0 <= i < line.len() ==> #[trigger] line[i] != '\n',
    ensures
        lines_of(line.push('\r').push('\n')) == seq![line],
        line.len() == 0 || line.last() != '\r' ==> lines_of(line.push('\n')) == seq![line],
        line.len() > 0 ==> lines_of(line) == seq![line],
{
    let cut = Cut::At('\n');
    let long = line.push('\r');
    assert forall|i: int| 0 <= i < long.len() implies !cut.falls_on(#[trigger] long[i]) by {
        if i < line.len() {
            assert(line[i] != '\n');
        }
    }
    lemma_one_piece(line, cut);
    lemma_one_piece(long, cut);
    lemma_pieces_join(line, '\n', Seq::empty(), cut);
    lemma_pieces_join(long, '\n', Seq::empty(), cut);
    assert(line.push('\n') + Seq::<char>::empty() =~= line.push('\n'));
    assert(long.push('\n') + Seq::<char>::empty() =~= long.push('\n'));
    assert(pieces(line.push('\n'), cut) =~= seq![line, Seq::<char>::empty()]);
    assert(pieces(long.push('\n'), cut) =~= seq![long, Seq::<char>::empty()]);
    assert(long.drop_last() =~= line);
    assert(lines_of(long.push('\n')) =~= seq![line]);
    if line.len() == 0 || line.last() != '\r' {
        assert(lines_of(line.push('\n')) =~= seq![line]);
    }
    if line.len() > 0 {
        assert(lines_of(line) =~= seq![line]);
    }
}

/// Capitalising changes the first letter alone, from small to capital.
pub proof fn law_capitalising_changes_the_first_letter(s: Seq<char>)
    requires
        s.len() > 0,
    ensures
        capitalised(s).len() == s.len(),
        capitalised(s).skip(1) == s.skip(1),
        'a' <= s[0] <= 'z' ==> capitalised(s)[0] as int == s[0] as int - 32,
        !('a' <= s[0] <= 'z') ==> capitalised(s) == s,
{
    assert(capitalised(s).skip(1) =~= s.skip(1));
    if !('a' <= s[0] <= 'z') {
        assert(capitalised(s) =~= s);
    }
}

/// Texts are aligned by blanks alone: behind them stands the text that is aligned
/// to the right, before them the one that is aligned to the left, and a text that
/// is as wide as asked for, or wider, stays as it is.
pub proof fn law_aligning_adds_blanks(s: Seq<char>, width: int)
    ensures
        ends(right_aligned(s, width), s),
        begins(left_aligned(s, width), s),
        s.len() <= width ==> right_aligned(s, width).len() == width && left_aligned(
            s,
            width,
        ).len() == width,
        s.len() >= width ==> right_aligned(s, width) == s && left_aligned(s, width) == s,
        forall|i: int| 0 <= i < width - s.len() ==> #[trigger] right_aligned(s, width)[i] == ' ',
{
    let r = right_aligned(s, width);
    let l = left_aligned(s, width);
    let at = r.len() - s.len();
    assert(r.subrange(at, at + s.len()) =~= s);
    assert(l.subrange(0, s.len() as int) =~= s);
    if s.len() >= width {
        assert(r =~= s);
        assert(l =~= s);
    }
}

} // verus!
