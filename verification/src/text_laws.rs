//! Laws that connect the written form of a version with its reading.

use vstd::prelude::*;
use vstd::utf8::{encode_utf8, is_ascii_chars, is_ascii_chars_encode_utf8};
use crate::grammar::{
    digit_char, digits_end, digits_value, is_digit, meta_at, number_at, pre_at,
    spec_decimal, spec_parse_specific, spec_shape, spec_specific_text, stage_at,
    stage_word, word_at,
};
use crate::ver::{MinorVersion, Shape, Specific, Stage};

verus! {

/// Whether the characters stand in `s` from position `i`, one byte each.
pub open spec fn written_at(s: Seq<u8>, i: int, chars: Seq<char>) -> bool {
    0 <= i && i + chars.len() <= s.len() && forall|k: int|
        0 <= k < chars.len() ==> s[i + k] == (#[trigger] chars[k]) as u8
}

proof fn lemma_decimal_digits(n: nat)
    ensures
        spec_decimal(n).len() >= 1,
        forall|i: int|
            0 <= i < spec_decimal(n).len() ==> is_digit((#[trigger] spec_decimal(n)[i]) as u8)
                && '\0' <= spec_decimal(n)[i] <= '\u{7f}',
    decreases n,
{
    if n >= 10 {
        lemma_decimal_digits(n / 10);
    }
}

proof fn lemma_digits_run(s: Seq<u8>, i: int, j: int)
    requires
        0 <= i <= j <= s.len(),
        forall|k: int| i <= k < j ==> is_digit(#[trigger] s[k]),
        j == s.len() || !is_digit(s[j]),
    ensures
        digits_end(s, i) == j,
    decreases j - i,
{
    if i < j {
        lemma_digits_run(s, i + 1, j);
    }
}

proof fn lemma_decimal_value(s: Seq<u8>, i: int, n: nat)
    requires
        written_at(s, i, spec_decimal(n)),
    ensures
        digits_value(s, i, i + spec_decimal(n).len()) == n,
    decreases n,
{
    let text = spec_decimal(n);
    if n < 10 {
        assert(s[i + 0] == text[0] as u8);
        assert(digits_value(s, i, i) == 0);
    } else {
        let head = spec_decimal(n / 10);
        assert forall|k: int| 0 <= k < head.len() implies s[i + k] == (#[trigger] head[k]) as u8 by {
            assert(text[k] == head[k]);
        }
        lemma_decimal_value(s, i, n / 10);
        let last = text.len() - 1;
        assert(s[i + last] == text[last] as u8);
        assert(text[last] == digit_char(n % 10));
    }
}

proof fn lemma_number_reads_back(s: Seq<u8>, i: int, n: u32)
    requires
        written_at(s, i, spec_decimal(n as nat)),
        i + spec_decimal(n as nat).len() == s.len() || !is_digit(
            s[i + spec_decimal(n as nat).len()],
        ),
    ensures
        number_at(s, i) == Some((n, i + spec_decimal(n as nat).len())),
{
    let text = spec_decimal(n as nat);
    lemma_decimal_digits(n as nat);
    assert forall|k: int| i <= k < i + text.len() implies is_digit(#[trigger] s[k]) by {
        assert(s[i + (k - i)] == text[k - i] as u8);
    }
    lemma_digits_run(s, i, i + text.len());
    lemma_decimal_value(s, i, n as nat);
}

proof fn lemma_stage_reads_back(s: Seq<u8>, i: int, stage: Stage)
    requires
        word_at(s, i, stage_word(stage)),
    ensures
        stage_at(s, i) == Some((stage, i + stage_word(stage).len())),
{
    let word = stage_word(stage);
    assert(s.subrange(i, i + word.len())[0] == s[i]);
    assert(s[i] == word[0]);
    if word_at(s, i, stage_word(Stage::Alpha)) {
        assert(s.subrange(i, i + 5)[0] == s[i]);
    }
    if word_at(s, i, stage_word(Stage::Beta)) {
        assert(s.subrange(i, i + 4)[0] == s[i]);
    }
    if word_at(s, i, stage_word(Stage::Rc)) {
        assert(s.subrange(i, i + 2)[0] == s[i]);
    }
    if word_at(s, i, stage_word(Stage::Dev)) {
        assert(s.subrange(i, i + 3)[0] == s[i]);
    }
}

proof fn lemma_release_shape(s: Seq<u8>, major: u32, minor: u32, p: int)
    requires
        p == spec_decimal(major as nat).len(),
        written_at(s, 0, spec_decimal(major as nat)),
        p < s.len(),
        s[p] == 46,
        written_at(s, p + 1, spec_decimal(minor as nat)),
        s.len() == p + 1 + spec_decimal(minor as nat).len(),
    ensures
        spec_shape(s) == Some(Shape { major, minor: Some(minor), pre: None, meta: None }),
{
    lemma_number_reads_back(s, 0, major);
    lemma_number_reads_back(s, p + 1, minor);
    assert(pre_at(s, s.len() as int) == Some((None::<(Stage, u32)>, s.len() as int)));
}

proof fn lemma_staged_shape(s: Seq<u8>, major: u32, stage: Stage, n: u32, p: int, t: int)
    requires
        p == spec_decimal(major as nat).len(),
        t == p + 3 + stage_word(stage).len(),
        written_at(s, 0, spec_decimal(major as nat)),
        t < s.len(),
        s[p] == 46,
        s[p + 1] == 48,
        s[p + 2] == 45,
        word_at(s, p + 3, stage_word(stage)),
        s[t] == 46,
        written_at(s, t + 1, spec_decimal(n as nat)),
        s.len() == t + 1 + spec_decimal(n as nat).len(),
    ensures
        spec_shape(s) == Some(
            Shape { major, minor: Some(0), pre: Some((stage, n)), meta: None },
        ),
{
    lemma_number_reads_back(s, 0, major);
    assert(spec_decimal(0).len() == 1 && spec_decimal(0)[0] == '0');
    assert(written_at(s, p + 1, spec_decimal(0)));
    lemma_number_reads_back(s, p + 1, 0);
    assert(number_at(s, p + 1) == Some((0u32, p + 2)));
    lemma_stage_reads_back(s, p + 3, stage);
    lemma_number_reads_back(s, t + 1, n);
    assert(pre_at(s, p + 2) == Some((Some((stage, n)), s.len() as int)));
    assert(meta_at(s, s.len() as int) == Some(None::<crate::ver::BuildMeta>));
}

/// The characters of a stage's name.
pub open spec fn stage_chars(stage: Stage) -> Seq<char> {
    match stage {
        Stage::Alpha => seq!['a', 'l', 'p', 'h', 'a'],
        Stage::Beta => seq!['b', 'e', 't', 'a'],
        Stage::Rc => seq!['r', 'c'],
        Stage::Dev => seq!['d', 'e', 'v'],
    }
}

/// Whether every character takes one byte when written.
pub open spec fn is_plain(chars: Seq<char>) -> bool {
    forall|i: int| 0 <= i < chars.len() ==> '\0' <= #[trigger] chars[i] <= '\u{7f}'
}

proof fn lemma_parts_written(a: Seq<char>, word: Seq<char>, b: Seq<char>)
    requires
        is_plain(a),
        is_plain(word),
        is_plain(b),
    ensures
        encode_utf8(a + (word + b)).len() == a.len() + word.len() + b.len(),
        written_at(encode_utf8(a + (word + b)), 0, a),
        written_at(encode_utf8(a + (word + b)), a.len() as int, word),
        written_at(encode_utf8(a + (word + b)), (a.len() + word.len()) as int, b),
{
    let text = a + (word + b);
    assert(is_ascii_chars(text)) by {
        assert forall|i: int| 0 <= i < text.len() implies '\0' <= #[trigger] text[i]
            <= '\u{7f}' by {
            if i < a.len() {
                assert(text[i] == a[i]);
            } else if i < a.len() + word.len() {
                assert(text[i] == word[i - a.len()]);
            } else {
                assert(text[i] == b[i - a.len() - word.len()]);
            }
        }
    }
    is_ascii_chars_encode_utf8(text);
    let s = encode_utf8(text);
    let p = a.len() as int;
    let q = p + word.len();
    assert forall|k: int| 0 <= k < a.len() implies s[0 + k] == (#[trigger] a[k]) as u8 by {
        assert(s[k] == text[k] as u8);
        assert(text[k] == a[k]);
    }
    assert forall|k: int| 0 <= k < word.len() implies s[p + k] == (#[trigger] word[k]) as u8 by {
        assert(s[p + k] == text[p + k] as u8);
        assert(text[p + k] == word[k]);
    }
    assert forall|k: int| 0 <= k < b.len() implies s[q + k] == (#[trigger] b[k]) as u8 by {
        assert(s[q + k] == text[q + k] as u8);
        assert(text[q + k] == b[k]);
    }
}

proof fn lemma_release_text(major: u32, m: u32)
    ensures
        spec_shape(
            encode_utf8(spec_decimal(major as nat) + (seq!['.'] + spec_decimal(m as nat))),
        ) == Some(Shape { major, minor: Some(m), pre: None, meta: None }),
{
    let a = spec_decimal(major as nat);
    let b = spec_decimal(m as nat);
    let word = seq!['.'];
    lemma_decimal_digits(major as nat);
    lemma_decimal_digits(m as nat);
    lemma_parts_written(a, word, b);
    let s = encode_utf8(a + (word + b));
    let p = a.len() as int;
    assert(s[p + 0] == word[0] as u8);
    lemma_release_shape(s, major, m, p);
}

proof fn lemma_staged_text(major: u32, stage: Stage, n: u32)
    ensures
        spec_shape(
            encode_utf8(
                spec_decimal(major as nat) + ((seq!['.', '0', '-'] + stage_chars(stage) + seq![
                    '.',
                ]) + spec_decimal(n as nat)),
            ),
        ) == Some(Shape { major, minor: Some(0), pre: Some((stage, n)), meta: None }),
{
    let a = spec_decimal(major as nat);
    let b = spec_decimal(n as nat);
    let name = stage_chars(stage);
    let word = seq!['.', '0', '-'] + name + seq!['.'];
    lemma_decimal_digits(major as nat);
    lemma_decimal_digits(n as nat);
    assert(is_plain(word)) by {
        assert forall|i: int| 0 <= i < word.len() implies '\0' <= #[trigger] word[i]
            <= '\u{7f}' by {
            if 3 <= i < 3 + name.len() {
                assert(word[i] == name[i - 3]);
            }
        }
    }
    lemma_parts_written(a, word, b);
    let s = encode_utf8(a + (word + b));
    let p = a.len() as int;
    let t = p + 3 + name.len();
    assert(name.len() == stage_word(stage).len());
    assert(s[p + 0] == word[0] as u8);
    assert(s[p + 1] == word[1] as u8);
    assert(s[p + 2] == word[2] as u8);
    assert(s[p + (3 + name.len())] == word[3 + name.len() as int] as u8);
    assert(s.subrange(p + 3, p + 3 + name.len()) =~= stage_word(stage)) by {
        assert forall|k: int| 0 <= k < name.len() implies s[p + 3 + k] == stage_word(stage)[k] by {
            assert(s[p + (3 + k)] == word[3 + k] as u8);
            assert(word[3 + k] == name[k]);
        }
    }
    lemma_staged_shape(s, major, stage, n, p, t);
}

/// The text of a specific version, read as a specific version, is that
/// version.
pub proof fn lemma_specific_text_reads_back(v: Specific)
    ensures
        spec_parse_specific(encode_utf8(spec_specific_text(v))) == Some(v),
{
    match v.minor {
        MinorVersion::Minor(n) => {
            reveal_strlit(".");
            assert("."@ =~= seq!['.']);
            lemma_release_text(v.major, n);
        },
        MinorVersion::Alpha(n) => {
            reveal_strlit(".0-alpha.");
            assert(".0-alpha."@ =~= seq!['.', '0', '-'] + stage_chars(Stage::Alpha) + seq!['.']);
            lemma_staged_text(v.major, Stage::Alpha, n);
        },
        MinorVersion::Beta(n) => {
            reveal_strlit(".0-beta.");
            assert(".0-beta."@ =~= seq!['.', '0', '-'] + stage_chars(Stage::Beta) + seq!['.']);
            lemma_staged_text(v.major, Stage::Beta, n);
        },
        MinorVersion::Rc(n) => {
            reveal_strlit(".0-rc.");
            assert(".0-rc."@ =~= seq!['.', '0', '-'] + stage_chars(Stage::Rc) + seq!['.']);
            lemma_staged_text(v.major, Stage::Rc, n);
        },
        MinorVersion::Dev(n) => {
            reveal_strlit(".0-dev.");
            assert(".0-dev."@ =~= seq!['.', '0', '-'] + stage_chars(Stage::Dev) + seq!['.']);
            lemma_staged_text(v.major, Stage::Dev, n);
        },
    }
}

} // verus!
