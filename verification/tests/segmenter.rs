use zakki::segmenter::weights::{BIAS, BW1, UW5};
use zakki::segmenter::Ctype::{B, H, I, O, U};
use zakki::segmenter::{ctype_, score, segment, weight, Ctype, Window, B1, B2, B3, E1, E2};

fn window(tokens: [u64; 6], classes: [Ctype; 6], marks: [Ctype; 3]) -> Window {
    Window {
        w1: tokens[0],
        w2: tokens[1],
        w3: tokens[2],
        w4: tokens[3],
        w5: tokens[4],
        w6: tokens[5],
        c1: classes[0],
        c2: classes[1],
        c3: classes[2],
        c4: classes[3],
        c5: classes[4],
        c6: classes[5],
        p1: marks[0],
        p2: marks[1],
        p3: marks[2],
    }
}

#[test]
fn segmenter_test() {
    println!("{:?}", segment("今日もいい天気"));
}

#[test]
fn segments_a_short_sentence() {
    assert_eq!(segment("今日もいい天気"), vec!["今日", "も", "いい", "天気"]);
    assert_eq!(
        segment("私の名前は中野です"),
        vec!["私", "の", "名前", "は", "中野", "です"]
    );
    assert_eq!(
        segment("東京都に住んでいます"),
        vec!["東京都", "に", "住ん", "で", "い", "ます"]
    );
}

#[test]
fn segments_a_long_sentence() {
    assert_eq!(
        segment("メロスは激怒した。必ず、かの邪智暴虐の王を除かなければならぬと決意した。"),
        vec![
            "メロス", "は", "激怒", "し", "た", "。", "必", "ず", "、", "かの", "邪智", "暴虐",
            "の", "王", "を", "除か", "なけれ", "ば", "ならぬ", "と", "決意", "し", "た", "。"
        ]
    );
}

#[test]
fn segments_latin_text_and_digits() {
    assert_eq!(
        segment("Hello world 123"),
        vec!["Hello", " ", "world", " ", "1", "2", "3"]
    );
}

#[test]
fn letters_that_spell_a_marker_are_letters() {
    assert_eq!(segment("B1あ同"), vec!["B", "1", "あ", "同"]);
    assert_eq!(segment("ｶﾞｸﾞ E2 ｶ月"), vec!["ｶﾞｸﾞ", " ", "E", "2", " ", "ｶ月"]);
}

#[test]
fn one_character_is_one_word() {
    assert_eq!(segment("a"), vec!["a"]);
}

#[test]
fn the_empty_text_has_no_words() {
    assert_eq!(segment(""), Vec::<String>::new());
}

#[test]
fn words_join_to_the_text() {
    for text in [
        "今日もいい天気",
        "Rust で書いた静的サイトジェネレーター。",
        "  leading and trailing  ",
        "改行\nを含む\n文章",
    ] {
        let words = segment(text);
        assert_eq!(words.concat(), text);
        assert!(words.iter().all(|word| !word.is_empty()));
    }
}

#[test]
fn classes_of_characters() {
    assert_eq!(ctype_('三'), Ctype::M);
    assert_eq!(ctype_('漢'), Ctype::H);
    assert_eq!(ctype_('々'), Ctype::H);
    assert_eq!(ctype_('あ'), Ctype::I);
    assert_eq!(ctype_('ア'), Ctype::K);
    assert_eq!(ctype_('ｱ'), Ctype::K);
    assert_eq!(ctype_('ー'), Ctype::K);
    assert_eq!(ctype_('a'), Ctype::A);
    assert_eq!(ctype_('Ｚ'), Ctype::A);
    assert_eq!(ctype_('7'), Ctype::N);
    assert_eq!(ctype_('７'), Ctype::N);
    assert_eq!(ctype_('。'), Ctype::O);
    assert_eq!(ctype_(' '), Ctype::O);
}

#[test]
fn weights_of_listed_and_unlisted_features() {
    assert_eq!(weight(&UW5, E2), -32768);
    assert_eq!(weight(&UW5, 'あ' as u64), 1655);
    assert_eq!(weight(&UW5, 'Q' as u64), 0);
    assert_eq!(weight(&BW1, (B1 << 21) | 'あ' as u64), 1404);
    assert_eq!(weight(&BW1, (('い' as u64) << 21) | 'う' as u64), 1743);
    assert_eq!(weight(&BW1, (('う' as u64) << 21) | 'い' as u64), 0);
    assert_eq!(weight(&[], 7), 0);
}

#[test]
fn score_of_a_window_without_features_is_the_bias() {
    let win = Window {
        w1: 'Q' as u64,
        w2: 'Q' as u64,
        w3: 'Q' as u64,
        w4: 'Q' as u64,
        w5: 'Q' as u64,
        w6: 'Q' as u64,
        c1: Ctype::U,
        c2: Ctype::U,
        c3: Ctype::U,
        c4: Ctype::U,
        c5: Ctype::U,
        c6: Ctype::U,
        p1: Ctype::M,
        p2: Ctype::M,
        p3: Ctype::M,
    };
    assert_eq!(score(&win), BIAS as i64);
}

#[test]
fn score_of_the_first_place_of_a_text() {
    // "今日": the place between the two characters, nothing decided before.
    let win = Window {
        w1: B2,
        w2: B1,
        w3: '今' as u64,
        w4: '日' as u64,
        w5: E1,
        w6: E2,
        c1: Ctype::O,
        c2: Ctype::O,
        c3: Ctype::H,
        c4: Ctype::H,
        c5: Ctype::O,
        c6: Ctype::O,
        p1: Ctype::U,
        p2: Ctype::U,
        p3: Ctype::U,
    };
    assert!(score(&win) <= 0);
    assert_eq!(segment("今日"), vec!["今日"]);
    assert!(B3 > 0x10ffff);
}

#[test]
fn scores_of_the_places_of_a_text() {
    let (kyo, u, mo, i) = ('今' as u64, '日' as u64, 'も' as u64, 'い' as u64);
    // the four places of "今日もいい", with the decisions made before each
    assert_eq!(
        score(&window([B2, B1, kyo, u, mo, i], [O, O, H, H, I, I], [U, U, U])),
        -1767
    );
    assert_eq!(
        score(&window([B1, kyo, u, mo, i, i], [O, H, H, I, I, I], [U, U, O])),
        8297
    );
    assert_eq!(
        score(&window([kyo, u, mo, i, i, E1], [H, H, I, I, I, O], [U, O, B])),
        4084
    );
    assert_eq!(
        score(&window([u, mo, i, i, E1, E2], [H, I, I, I, O, O], [O, B, B])),
        -9442
    );
    assert_eq!(segment("今日もいい"), vec!["今日", "も", "いい"]);
}
