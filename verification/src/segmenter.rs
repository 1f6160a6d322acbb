//! Cutting running text into words.
//!
//! Japanese is written without spaces between words. The segmenter decides for
//! every place between two characters whether a word ends there, from a score:
//! the sum of the weights of the features of the place. The features are the
//! three characters on either side of the place, their classes, and the three
//! decisions made before it. A word ends where the score is above zero.

pub mod weights;

use crate::text::{chars_of, string_of_char};
use vstd::prelude::*;
use weights::{
    BC1, BC2, BC3, BIAS, BP1, BP2, BQ1, BQ2, BQ3, BQ4, BW1, BW2, BW3, TC1, TC2, TC3, TC4, TQ1, TQ2,
    TQ3, TQ4, TW1, TW2, TW3, TW4, UC1, UC2, UC3, UC4, UC5, UC6, UP1, UP2, UP3, UQ1, UQ2, UQ3, UW1,
    UW2, UW3, UW4, UW5, UW6,
};

verus! {

/// The class of a character, or of a decision.
#[derive(Clone, Copy, Debug, PartialEq, Eq, Structural)]
pub enum Ctype {
    /// A kanji numeral.
    M,
    /// A kanji.
    H,
    /// A hiragana.
    I,
    /// A katakana.
    K,
    /// A Latin letter.
    A,
    /// A digit.
    N,
    /// Any other character; as a decision, "no word ends here".
    O,
    /// As a decision, "a word ends here".
    B,
    /// As a decision, "before the start of the text".
    U,
}

impl Ctype {
    /// The number of the class in the keys of the weight tables.
    pub open spec fn spec_number(self) -> u64 {
        match self {
            Ctype::M => 0,
            Ctype::H => 1,
            Ctype::I => 2,
            Ctype::K => 3,
            Ctype::A => 4,
            Ctype::N => 5,
            Ctype::O => 6,
            Ctype::B => 7,
            Ctype::U => 8,
        }
    }

    /// The number of the class in the keys of the weight tables.
    pub fn number(self) -> (n: u64)
        ensures
            n == self.spec_number(),
    {
        match self {
            Ctype::M => 0,
            Ctype::H => 1,
            Ctype::I => 2,
            Ctype::K => 3,
            Ctype::A => 4,
            Ctype::N => 5,
            Ctype::O => 6,
            Ctype::B => 7,
            Ctype::U => 8,
        }
    }
}

/// The characters that are kanji numerals, as a regular expression.
pub const KANJI_NUMERAL: &'static str = "[一二三四五六七八九十百千万億兆]";

/// The characters that are kanji, as a regular expression.
pub const KANJI: &'static str = "[一-龠々〆ヵヶ]";

/// The characters that are hiragana, as a regular expression.
pub const HIRAGANA: &'static str = "[ぁ-ん]";

/// The characters that are katakana, as a regular expression.
pub const KATAKANA: &'static str = "[ァ-ヴーｱ-ﾝﾞｰ]";

/// The characters that are Latin letters, as a regular expression.
pub const LATIN: &'static str = "[a-zA-Zａ-ｚＡ-Ｚ]";

/// The characters that are digits, as a regular expression.
pub const DIGIT: &'static str = "[0-9０-９]";

/// Whether the `regex` crate finds a match of a pattern in a text; `None`
/// where the pattern does not compile.
pub uninterp spec fn regex_is_match(pattern: Seq<char>, text: Seq<char>) -> Option<bool>;

/// Compiles `pattern` with `regex::Regex::new` and asks `Regex::is_match` of
/// `text`. Believed, not proved: the result is a function of the two texts
/// alone, and it is `None` exactly where `Regex::new` returns an error.
#[verifier::external_body]
fn is_match(pattern: &str, text: &str) -> (found: Option<bool>)
    ensures
        found == regex_is_match(pattern@, text@),
{
    match regex::Regex::new(pattern) {
        Ok(regex) => Some(regex.is_match(text)),
        Err(_) => None,
    }
}

/// Whether `c` is one of the characters that `pattern` describes.
pub open spec fn in_class(pattern: Seq<char>, c: char) -> bool {
    regex_is_match(pattern, seq![c]) == Some(true)
}

/// The class of a character: the first of kanji numeral, kanji, hiragana,
/// katakana, Latin letter and digit that it belongs to, or `O`.
pub open spec fn spec_ctype(c: char) -> Ctype {
    if in_class(KANJI_NUMERAL@, c) {
        Ctype::M
    } else if in_class(KANJI@, c) {
        Ctype::H
    } else if in_class(HIRAGANA@, c) {
        Ctype::I
    } else if in_class(KATAKANA@, c) {
        Ctype::K
    } else if in_class(LATIN@, c) {
        Ctype::A
    } else if in_class(DIGIT@, c) {
        Ctype::N
    } else {
        Ctype::O
    }
}

/// Whether a match was looked for and found.
pub fn found(answer: Option<bool>) -> (yes: bool)
    ensures
        yes == (answer == Some(true)),
{
    match answer {
        Some(yes) => yes,
        None => false,
    }
}

/// The class of a character.
pub fn ctype_(c: char) -> (class: Ctype)
    ensures
        class == spec_ctype(c),
{
    let text = string_of_char(c);
    if found(is_match(KANJI_NUMERAL, text.as_str())) {
        Ctype::M
    } else if found(is_match(KANJI, text.as_str())) {
        Ctype::H
    } else if found(is_match(HIRAGANA, text.as_str())) {
        Ctype::I
    } else if found(is_match(KATAKANA, text.as_str())) {
        Ctype::K
    } else if found(is_match(LATIN, text.as_str())) {
        Ctype::A
    } else if found(is_match(DIGIT, text.as_str())) {
        Ctype::N
    } else {
        Ctype::O
    }
}

/// The token that stands for the place one before the text.
pub const B1: u64 = 0x110001;

/// The token that stands for the place two before the text.
pub const B2: u64 = 0x110002;

/// The token that stands for the place three before the text.
pub const B3: u64 = 0x110003;

/// The token that stands for the place one behind the text.
pub const E1: u64 = 0x110011;

/// The token that stands for the place two behind the text.
pub const E2: u64 = 0x110012;

/// The token that stands for the place three behind the text.
pub const E3: u64 = 0x110013;

/// The token at place `k` of a text: the code of the character there, or the
/// token of a place before or behind the text.
pub open spec fn token(chars: Seq<char>, k: int) -> u64 {
    if k < 0 {
        if k == -1 {
            B1
        } else if k == -2 {
            B2
        } else {
            B3
        }
    } else if k < chars.len() {
        chars[k] as u32 as u64
    } else if k == chars.len() {
        E1
    } else if k == chars.len() + 1 {
        E2
    } else {
        E3
    }
}

/// The class at place `k` of a text: the class of the character there, or `O`
/// before and behind the text.
pub open spec fn class(chars: Seq<char>, k: int) -> Ctype {
    if 0 <= k < chars.len() {
        spec_ctype(chars[k])
    } else {
        Ctype::O
    }
}

/// The weight a table gives a key: that of its first entry with the key, or
/// nothing.
pub open spec fn weight_in(table: Seq<(u64, i32)>, key: u64) -> int
    decreases table.len(),
{
    if table.len() == 0 {
        0
    } else if table[0].0 == key {
        table[0].1 as int
    } else {
        weight_in(table.skip(1), key)
    }
}

/// The key of a feature over two tokens.
pub open spec fn pair(a: u64, b: u64) -> u64 {
    (a * 0x20_0000 + b) as u64
}

/// The key of a feature over three tokens.
pub open spec fn triple(a: u64, b: u64, c: u64) -> u64 {
    ((a * 0x20_0000 + b) * 0x20_0000 + c) as u64
}

/// The key of a feature over two classes.
pub open spec fn classes2(a: Ctype, b: Ctype) -> u64 {
    (a.spec_number() * 16 + b.spec_number()) as u64
}

/// The key of a feature over three classes.
pub open spec fn classes3(a: Ctype, b: Ctype, c: Ctype) -> u64 {
    ((a.spec_number() * 16 + b.spec_number()) * 16 + c.spec_number()) as u64
}

/// The key of a feature over four classes.
pub open spec fn classes4(a: Ctype, b: Ctype, c: Ctype, d: Ctype) -> u64 {
    (((a.spec_number() * 16 + b.spec_number()) * 16 + c.spec_number()) * 16
        + d.spec_number()) as u64
}

/// What the score of a place is computed from: the tokens and classes of the
/// three places before it (`w1` to `w3`) and behind it (`w4` to `w6`), and the
/// three decisions before it, the latest last.
#[derive(Clone, Copy, Debug, PartialEq, Eq)]
pub struct Window {
    pub w1: u64,
    pub w2: u64,
    pub w3: u64,
    pub w4: u64,
    pub w5: u64,
    pub w6: u64,
    pub c1: Ctype,
    pub c2: Ctype,
    pub c3: Ctype,
    pub c4: Ctype,
    pub c5: Ctype,
    pub c6: Ctype,
    pub p1: Ctype,
    pub p2: Ctype,
    pub p3: Ctype,
}

impl Window {
    /// Whether every token is a character code or the token of a place outside
    /// the text.
    pub open spec fn fits(self) -> bool {
        &&& self.w1 < 0x20_0000
        &&& self.w2 < 0x20_0000
        &&& self.w3 < 0x20_0000
        &&& self.w4 < 0x20_0000
        &&& self.w5 < 0x20_0000
        &&& self.w6 < 0x20_0000
    }
}

/// The score of a place: the bias and the weight of each of its features.
#[verifier::opaque]
pub open spec fn score_of(win: Window) -> int {
    BIAS + weight_in(UP1@, win.p1.spec_number()) + weight_in(UP2@, win.p2.spec_number())
        + weight_in(UP3@, win.p3.spec_number()) + weight_in(BP1@, classes2(win.p1, win.p2))
        + weight_in(BP2@, classes2(win.p2, win.p3)) + weight_in(UW1@, win.w1) + weight_in(
        UW2@,
        win.w2,
    ) + weight_in(UW3@, win.w3) + weight_in(UW4@, win.w4) + weight_in(UW5@, win.w5) + weight_in(
        UW6@,
        win.w6,
    ) + weight_in(BW1@, pair(win.w2, win.w3)) + weight_in(BW2@, pair(win.w3, win.w4))
        + weight_in(BW3@, pair(win.w4, win.w5)) + weight_in(
        TW1@,
        triple(win.w1, win.w2, win.w3),
    ) + weight_in(TW2@, triple(win.w2, win.w3, win.w4)) + weight_in(
        TW3@,
        triple(win.w3, win.w4, win.w5),
    ) + weight_in(TW4@, triple(win.w4, win.w5, win.w6)) + weight_in(
        UC1@,
        win.c1.spec_number(),
    ) + weight_in(UC2@, win.c2.spec_number()) + weight_in(UC3@, win.c3.spec_number())
        + weight_in(UC4@, win.c4.spec_number()) + weight_in(UC5@, win.c5.spec_number())
        + weight_in(UC6@, win.c6.spec_number()) + weight_in(BC1@, classes2(win.c2, win.c3))
        + weight_in(BC2@, classes2(win.c3, win.c4)) + weight_in(BC3@, classes2(win.c4, win.c5))
        + weight_in(TC1@, classes3(win.c1, win.c2, win.c3)) + weight_in(
        TC2@,
        classes3(win.c2, win.c3, win.c4),
    ) + weight_in(TC3@, classes3(win.c3, win.c4, win.c5)) + weight_in(
        TC4@,
        classes3(win.c4, win.c5, win.c6),
    ) + weight_in(UQ1@, classes2(win.p1, win.c1)) + weight_in(UQ2@, classes2(win.p2, win.c2))
        + weight_in(UQ3@, classes2(win.p3, win.c3)) + weight_in(
        BQ1@,
        classes3(win.p2, win.c2, win.c3),
    ) + weight_in(BQ2@, classes3(win.p2, win.c3, win.c4)) + weight_in(
        BQ3@,
        classes3(win.p3, win.c2, win.c3),
    ) + weight_in(BQ4@, classes3(win.p3, win.c3, win.c4)) + weight_in(
        TQ1@,
        classes4(win.p2, win.c1, win.c2, win.c3),
    ) + weight_in(TQ2@, classes4(win.p2, win.c2, win.c3, win.c4)) + weight_in(
        TQ3@,
        classes4(win.p3, win.c1, win.c2, win.c3),
    ) + weight_in(TQ4@, classes4(win.p3, win.c2, win.c3, win.c4))
}

/// The three decisions before the place in front of character `c`, the latest
/// last: `U` for each place before the first, and `B` or `O` for each place
/// according to whether a word ends there.
pub open spec fn marks_before(chars: Seq<char>, c: int) -> (Ctype, Ctype, Ctype)
    decreases c,
{
    if c <= 1 {
        (Ctype::U, Ctype::U, Ctype::U)
    } else {
        let earlier = marks_before(chars, c - 1);
        let mark = if score_of(window(chars, c - 1, earlier)) > 0 {
            Ctype::B
        } else {
            Ctype::O
        };
        (earlier.1, earlier.2, mark)
    }
}

/// The features of the place in front of character `c`, given the decisions
/// before it.
pub open spec fn window(chars: Seq<char>, c: int, marks: (Ctype, Ctype, Ctype)) -> Window {
    Window {
        w1: token(chars, c - 3),
        w2: token(chars, c - 2),
        w3: token(chars, c - 1),
        w4: token(chars, c),
        w5: token(chars, c + 1),
        w6: token(chars, c + 2),
        c1: class(chars, c - 3),
        c2: class(chars, c - 2),
        c3: class(chars, c - 1),
        c4: class(chars, c),
        c5: class(chars, c + 1),
        c6: class(chars, c + 2),
        p1: marks.0,
        p2: marks.1,
        p3: marks.2,
    }
}

/// Whether a word ends in front of character `c`.
pub open spec fn is_cut(chars: Seq<char>, c: int) -> bool {
    score_of(window(chars, c, marks_before(chars, c))) > 0
}

/// Where the word begins that is open once the places up to the one in front
/// of character `c` are decided.
pub open spec fn open_start(chars: Seq<char>, c: int) -> int
    decreases c,
{
    if c <= 0 {
        0
    } else if is_cut(chars, c) {
        c
    } else {
        open_start(chars, c - 1)
    }
}

/// The words that have ended once the places up to the one in front of
/// character `c` are decided.
pub open spec fn closed_words(chars: Seq<char>, c: int) -> Seq<Seq<char>>
    decreases c,
{
    if c <= 0 {
        Seq::empty()
    } else if is_cut(chars, c) {
        closed_words(chars, c - 1).push(chars.subrange(open_start(chars, c - 1), c))
    } else {
        closed_words(chars, c - 1)
    }
}

/// The words of a text: it is cut at every place between two characters whose
/// score is above zero. The empty text has no words.
pub open spec fn segments(chars: Seq<char>) -> Seq<Seq<char>> {
    if chars.len() == 0 {
        Seq::empty()
    } else {
        closed_words(chars, chars.len() - 1).push(
            chars.subrange(open_start(chars, chars.len() - 1), chars.len() as int),
        )
    }
}

/// The words that have ended are the text up to where the open word begins,
/// and none of them is empty.
pub proof fn lemma_closed_words_cover(chars: Seq<char>, c: int)
    requires
        0 <= c < chars.len(),
    ensures
        0 <= open_start(chars, c) <= c,
        closed_words(chars, c).flatten() == chars.subrange(0, open_start(chars, c)),
        forall|i: int|
            0 <= i < closed_words(chars, c).len() ==> (#[trigger] closed_words(chars, c)[i]).len()
                > 0,
    decreases c,
{
    if c <= 0 {
        assert(chars.subrange(0, 0) =~= Seq::empty());
    } else {
        lemma_closed_words_cover(chars, c - 1);
        if is_cut(chars, c) {
            let earlier = closed_words(chars, c - 1);
            let from = open_start(chars, c - 1);
            let piece = chars.subrange(from, c);
            earlier.lemma_flatten_push(piece);
            assert(chars.subrange(0, from) + piece =~= chars.subrange(0, c));
        }
    }
}

/// The words of a text, one after another, are the text; and no word is
/// empty.
pub proof fn lemma_segments_cover(chars: Seq<char>)
    ensures
        segments(chars).flatten() == chars,
        forall|i: int| 0 <= i < segments(chars).len() ==> (#[trigger] segments(chars)[i]).len() > 0,
{
    if chars.len() == 0 {
        assert(chars =~= Seq::empty());
    } else {
        let last = chars.len() - 1;
        lemma_closed_words_cover(chars, last);
        let earlier = closed_words(chars, last);
        let from = open_start(chars, last);
        let piece = chars.subrange(from, chars.len() as int);
        earlier.lemma_flatten_push(piece);
        assert(chars.subrange(0, from) + piece =~= chars);
    }
}

/// The weight a table gives a key.
pub fn weight(table: &[(u64, i32)], key: u64) -> (w: i32)
    ensures
        w == weight_in(table@, key),
{
    let mut i: usize = 0;
    proof {
        assert(table@.skip(0) =~= table@);
    }
    while i < table.len()
        invariant
            i <= table@.len(),
            weight_in(table@, key) == weight_in(table@.skip(i as int), key),
        decreases table.len() - i,
    {
        proof {
            assert(table@.skip(i as int)[0] == table@[i as int]);
            assert(table@.skip(i as int).skip(1) =~= table@.skip(i + 1));
        }
        if table[i].0 == key {
            return table[i].1;
        }
        i += 1;
    }
    0
}

fn weight1(table: &[(u64, i32)], a: Ctype) -> (w: i64)
    ensures
        w == weight_in(table@, a.spec_number()),
        i32::MIN <= w <= i32::MAX,
{
    weight(table, a.number()) as i64
}

fn weight2(table: &[(u64, i32)], a: Ctype, b: Ctype) -> (w: i64)
    ensures
        w == weight_in(table@, classes2(a, b)),
        i32::MIN <= w <= i32::MAX,
{
    weight(table, a.number() * 16 + b.number()) as i64
}

fn weight3(table: &[(u64, i32)], a: Ctype, b: Ctype, c: Ctype) -> (w: i64)
    ensures
        w == weight_in(table@, classes3(a, b, c)),
        i32::MIN <= w <= i32::MAX,
{
    weight(table, (a.number() * 16 + b.number()) * 16 + c.number()) as i64
}

fn weight4(table: &[(u64, i32)], a: Ctype, b: Ctype, c: Ctype, d: Ctype) -> (w: i64)
    ensures
        w == weight_in(table@, classes4(a, b, c, d)),
        i32::MIN <= w <= i32::MAX,
{
    weight(table, ((a.number() * 16 + b.number()) * 16 + c.number()) * 16 + d.number()) as i64
}

fn token_weight1(table: &[(u64, i32)], a: u64) -> (w: i64)
    ensures
        w == weight_in(table@, a),
        i32::MIN <= w <= i32::MAX,
{
    weight(table, a) as i64
}

fn token_weight2(table: &[(u64, i32)], a: u64, b: u64) -> (w: i64)
    requires
        a < 0x20_0000,
        b < 0x20_0000,
    ensures
        w == weight_in(table@, pair(a, b)),
        i32::MIN <= w <= i32::MAX,
{
    weight(table, a * 0x20_0000 + b) as i64
}

fn token_weight3(table: &[(u64, i32)], a: u64, b: u64, c: u64) -> (w: i64)
    requires
        a < 0x20_0000,
        b < 0x20_0000,
        c < 0x20_0000,
    ensures
        w == weight_in(table@, triple(a, b, c)),
        i32::MIN <= w <= i32::MAX,
{
    weight(table, (a * 0x20_0000 + b) * 0x20_0000 + c) as i64
}

fn decisions_score(win: &Window) -> (s: i64)
    ensures
        s == weight_in(UP1@, win.p1.spec_number()) + weight_in(UP2@, win.p2.spec_number())
            + weight_in(UP3@, win.p3.spec_number()) + weight_in(BP1@, classes2(win.p1, win.p2))
            + weight_in(BP2@, classes2(win.p2, win.p3)),
        -0x5_0000_0000 <= s <= 0x5_0000_0000,
{
    weight1(UP1.as_slice(), win.p1) + weight1(UP2.as_slice(), win.p2) + weight1(
        UP3.as_slice(),
        win.p3,
    ) + weight2(BP1.as_slice(), win.p1, win.p2) + weight2(BP2.as_slice(), win.p2, win.p3)
}

fn tokens_score(win: &Window) -> (s: i64)
    requires
        win.fits(),
    ensures
        s == weight_in(UW1@, win.w1) + weight_in(UW2@, win.w2) + weight_in(UW3@, win.w3)
            + weight_in(UW4@, win.w4) + weight_in(UW5@, win.w5) + weight_in(UW6@, win.w6)
            + weight_in(BW1@, pair(win.w2, win.w3)) + weight_in(BW2@, pair(win.w3, win.w4))
            + weight_in(BW3@, pair(win.w4, win.w5)) + weight_in(
            TW1@,
            triple(win.w1, win.w2, win.w3),
        ) + weight_in(TW2@, triple(win.w2, win.w3, win.w4)) + weight_in(
            TW3@,
            triple(win.w3, win.w4, win.w5),
        ) + weight_in(TW4@, triple(win.w4, win.w5, win.w6)),
        -0xd_0000_0000 <= s <= 0xd_0000_0000,
{
    let unigrams = token_weight1(UW1.as_slice(), win.w1) + token_weight1(UW2.as_slice(), win.w2)
        + token_weight1(UW3.as_slice(), win.w3) + token_weight1(UW4.as_slice(), win.w4)
        + token_weight1(UW5.as_slice(), win.w5) + token_weight1(UW6.as_slice(), win.w6);
    let bigrams = token_weight2(BW1.as_slice(), win.w2, win.w3) + token_weight2(
        BW2.as_slice(),
        win.w3,
        win.w4,
    ) + token_weight2(BW3.as_slice(), win.w4, win.w5);
    let trigrams = token_weight3(TW1.as_slice(), win.w1, win.w2, win.w3) + token_weight3(
        TW2.as_slice(),
        win.w2,
        win.w3,
        win.w4,
    ) + token_weight3(TW3.as_slice(), win.w3, win.w4, win.w5) + token_weight3(
        TW4.as_slice(),
        win.w4,
        win.w5,
        win.w6,
    );
    unigrams + bigrams + trigrams
}

fn classes_score(win: &Window) -> (s: i64)
    ensures
        s == weight_in(UC1@, win.c1.spec_number()) + weight_in(UC2@, win.c2.spec_number())
            + weight_in(UC3@, win.c3.spec_number()) + weight_in(UC4@, win.c4.spec_number())
            + weight_in(UC5@, win.c5.spec_number()) + weight_in(UC6@, win.c6.spec_number())
            + weight_in(BC1@, classes2(win.c2, win.c3)) + weight_in(
            BC2@,
            classes2(win.c3, win.c4),
        ) + weight_in(BC3@, classes2(win.c4, win.c5)) + weight_in(
            TC1@,
            classes3(win.c1, win.c2, win.c3),
        ) + weight_in(TC2@, classes3(win.c2, win.c3, win.c4)) + weight_in(
            TC3@,
            classes3(win.c3, win.c4, win.c5),
        ) + weight_in(TC4@, classes3(win.c4, win.c5, win.c6)),
        -0xd_0000_0000 <= s <= 0xd_0000_0000,
{
    let unigrams = weight1(UC1.as_slice(), win.c1) + weight1(UC2.as_slice(), win.c2) + weight1(
        UC3.as_slice(),
        win.c3,
    ) + weight1(UC4.as_slice(), win.c4) + weight1(UC5.as_slice(), win.c5) + weight1(
        UC6.as_slice(),
        win.c6,
    );
    let bigrams = weight2(BC1.as_slice(), win.c2, win.c3) + weight2(
        BC2.as_slice(),
        win.c3,
        win.c4,
    ) + weight2(BC3.as_slice(), win.c4, win.c5);
    let trigrams = weight3(TC1.as_slice(), win.c1, win.c2, win.c3) + weight3(
        TC2.as_slice(),
        win.c2,
        win.c3,
        win.c4,
    ) + weight3(TC3.as_slice(), win.c3, win.c4, win.c5) + weight3(
        TC4.as_slice(),
        win.c4,
        win.c5,
        win.c6,
    );
    unigrams + bigrams + trigrams
}

fn mixed_score(win: &Window) -> (s: i64)
    ensures
        s == weight_in(UQ1@, classes2(win.p1, win.c1)) + weight_in(
            UQ2@,
            classes2(win.p2, win.c2),
        ) + weight_in(UQ3@, classes2(win.p3, win.c3)) + weight_in(
            BQ1@,
            classes3(win.p2, win.c2, win.c3),
        ) + weight_in(BQ2@, classes3(win.p2, win.c3, win.c4)) + weight_in(
            BQ3@,
            classes3(win.p3, win.c2, win.c3),
        ) + weight_in(BQ4@, classes3(win.p3, win.c3, win.c4)) + weight_in(
            TQ1@,
            classes4(win.p2, win.c1, win.c2, win.c3),
        ) + weight_in(TQ2@, classes4(win.p2, win.c2, win.c3, win.c4)) + weight_in(
            TQ3@,
            classes4(win.p3, win.c1, win.c2, win.c3),
        ) + weight_in(TQ4@, classes4(win.p3, win.c2, win.c3, win.c4)),
        -0xb_0000_0000 <= s <= 0xb_0000_0000,
{
    let unigrams = weight2(UQ1.as_slice(), win.p1, win.c1) + weight2(
        UQ2.as_slice(),
        win.p2,
        win.c2,
    ) + weight2(UQ3.as_slice(), win.p3, win.c3);
    let bigrams = weight3(BQ1.as_slice(), win.p2, win.c2, win.c3) + weight3(
        BQ2.as_slice(),
        win.p2,
        win.c3,
        win.c4,
    ) + weight3(BQ3.as_slice(), win.p3, win.c2, win.c3) + weight3(
        BQ4.as_slice(),
        win.p3,
        win.c3,
        win.c4,
    );
    let trigrams = weight4(TQ1.as_slice(), win.p2, win.c1, win.c2, win.c3) + weight4(
        TQ2.as_slice(),
        win.p2,
        win.c2,
        win.c3,
        win.c4,
    ) + weight4(TQ3.as_slice(), win.p3, win.c1, win.c2, win.c3) + weight4(
        TQ4.as_slice(),
        win.p3,
        win.c2,
        win.c3,
        win.c4,
    );
    unigrams + bigrams + trigrams
}

/// The score of a place.
pub fn score(win: &Window) -> (s: i64)
    requires
        win.fits(),
    ensures
        s == score_of(*win),
{
    reveal(score_of);
    (BIAS as i64) + decisions_score(win) + tokens_score(win) + classes_score(win) + mixed_score(
        win,
    )
}

fn code(c: char) -> (t: u64)
    ensures
        t == c as u32 as u64,
        t < 0x20_0000,
{
    (c as u32) as u64
}

fn token_back(chars: &Vec<char>, c: usize, back: usize) -> (t: u64)
    requires
        c < chars@.len(),
        1 <= back <= 3,
    ensures
        t == token(chars@, c - back),
        t < 0x20_0000,
{
    if c >= back {
        code(chars[c - back])
    } else if back - c == 1 {
        B1
    } else if back - c == 2 {
        B2
    } else {
        B3
    }
}

fn token_ahead(chars: &Vec<char>, c: usize, ahead: usize) -> (t: u64)
    requires
        c < chars@.len(),
        ahead <= 2,
    ensures
        t == token(chars@, c + ahead),
        t < 0x20_0000,
{
    let left: usize = chars.len() - c;
    if ahead < left {
        code(chars[c + ahead])
    } else if ahead == left {
        E1
    } else {
        E2
    }
}

fn class_back(classes: &Vec<Ctype>, c: usize, back: usize) -> (class: Ctype)
    requires
        c < classes@.len(),
        1 <= back <= 3,
    ensures
        class == if c >= back {
            classes@[c - back]
        } else {
            Ctype::O
        },
{
    if c >= back {
        classes[c - back]
    } else {
        Ctype::O
    }
}

fn class_ahead(classes: &Vec<Ctype>, c: usize, ahead: usize) -> (class: Ctype)
    requires
        c < classes@.len(),
        ahead <= 2,
    ensures
        class == if c + ahead < classes@.len() {
            classes@[c + ahead]
        } else {
            Ctype::O
        },
{
    let left: usize = classes.len() - c;
    if ahead < left {
        classes[c + ahead]
    } else {
        Ctype::O
    }
}

fn word(chars: &Vec<char>, from: usize, to: usize) -> (text: String)
    requires
        from <= to <= chars@.len(),
    ensures
        text@ == chars@.subrange(from as int, to as int),
{
    let mut text = String::new();
    let mut i: usize = from;
    proof {
        assert(chars@.subrange(from as int, from as int) =~= Seq::empty());
    }
    while i < to
        invariant
            from <= i <= to <= chars@.len(),
            text@ == chars@.subrange(from as int, i as int),
        decreases to - i,
    {
        proof {
            assert(chars@.subrange(from as int, i + 1) =~= chars@.subrange(
                from as int,
                i as int,
            ).push(chars@[i as int]));
        }
        text.push(chars[i]);
        i += 1;
    }
    text
}

/// The class of each character of a text. A character that occurs again is
/// not classified again.
fn classify(chars: &Vec<char>) -> (classes: Vec<Ctype>)
    ensures
        classes@.len() == chars@.len(),
        forall|j: int| 0 <= j < chars@.len() ==> classes@[j] == spec_ctype(chars@[j]),
{
    let mut classes: Vec<Ctype> = Vec::new();
    let mut known: Vec<char> = Vec::new();
    let mut known_classes: Vec<Ctype> = Vec::new();
    let mut k: usize = 0;
    while k < chars.len()
        invariant
            k <= chars@.len(),
            classes@.len() == k,
            forall|j: int| 0 <= j < k ==> classes@[j] == spec_ctype(chars@[j]),
            known_classes@.len() == known@.len(),
            forall|j: int| 0 <= j < known@.len() ==> known_classes@[j] == spec_ctype(known@[j]),
        decreases chars.len() - k,
    {
        let c = chars[k];
        let mut at: usize = 0;
        while at < known.len() && known[at] != c
            invariant
                at <= known@.len(),
            decreases known.len() - at,
        {
            at += 1;
        }
        if at < known.len() {
            classes.push(known_classes[at]);
        } else {
            let class = ctype_(c);
            known.push(c);
            known_classes.push(class);
            classes.push(class);
        }
        k += 1;
    }
    classes
}

/// Cuts `input` into its words, in order. The words, one after another, are
/// the input, and none of them is empty; the empty text has no words.
pub fn segment(input: &str) -> (words: Vec<String>)
    ensures
        words.deep_view() == segments(input@),
        words.deep_view().flatten() == input@,
        forall|i: int| 0 <= i < words@.len() ==> (#[trigger] words.deep_view()[i]).len() > 0,
{
    proof {
        lemma_segments_cover(input@);
    }
    let chars = chars_of(input);
    let mut words: Vec<String> = Vec::new();
    if chars.len() == 0 {
        proof {
            assert(words.deep_view() =~= segments(input@));
        }
        return words;
    }
    let classes = classify(&chars);
    let mut p1 = Ctype::U;
    let mut p2 = Ctype::U;
    let mut p3 = Ctype::U;
    let mut start: usize = 0;
    let mut c: usize = 1;
    proof {
        assert(words.deep_view() =~= closed_words(chars@, 0));
    }
    while c < chars.len()
        invariant
            chars@ == input@,
            1 <= c <= chars@.len(),
            classes@.len() == chars@.len(),
            forall|j: int| 0 <= j < chars@.len() ==> classes@[j] == spec_ctype(chars@[j]),
            (p1, p2, p3) == marks_before(chars@, c as int),
            start == open_start(chars@, c - 1),
            start < c,
            words.deep_view() == closed_words(chars@, c - 1),
        decreases chars.len() - c,
    {
        let win = Window {
            w1: token_back(&chars, c, 3),
            w2: token_back(&chars, c, 2),
            w3: token_back(&chars, c, 1),
            w4: token_ahead(&chars, c, 0),
            w5: token_ahead(&chars, c, 1),
            w6: token_ahead(&chars, c, 2),
            c1: class_back(&classes, c, 3),
            c2: class_back(&classes, c, 2),
            c3: class_back(&classes, c, 1),
            c4: class_ahead(&classes, c, 0),
            c5: class_ahead(&classes, c, 1),
            c6: class_ahead(&classes, c, 2),
            p1,
            p2,
            p3,
        };
        proof {
            assert(win == window(chars@, c as int, (p1, p2, p3)));
        }
        let mut mark = Ctype::O;
        if score(&win) > 0 {
            let ghost sofar = words.deep_view();
            let text = word(&chars, start, c);
            words.push(text);
            proof {
                assert(words.deep_view() =~= sofar.push(text@));
            }
            start = c;
            mark = Ctype::B;
        }
        p1 = p2;
        p2 = p3;
        p3 = mark;
        c += 1;
    }
    let ghost sofar = words.deep_view();
    let text = word(&chars, start, chars.len());
    words.push(text);
    proof {
        assert(words.deep_view() =~= sofar.push(text@));
    }
    words
}

} // verus!
