use zakki::fxhash::{fxhash32_multi, fxhash64};

#[test]
fn hash_of_the_empty_string_is_zero() {
    assert_eq!(fxhash64(""), 0);
}

#[test]
fn hash_of_known_strings() {
    assert_eq!(fxhash64("a"), 0xe0456665d3e60275);
    assert_eq!(fxhash64("abc"), 0x62fd7437241e1adf);
    assert_eq!(fxhash64("hello"), 0x309d0692e420f1f1);
    assert_eq!(fxhash64("メロス"), 0x9b55aa5622f8f69e);
}

#[test]
fn hash_family_is_low_plus_multiples_of_high() {
    assert_eq!(
        fxhash32_multi("a", 4),
        vec![3555066485, 3022743770, 2490421055, 1958098340]
    );
    assert_eq!(
        fxhash32_multi("メロス", 4),
        vec![586741406, 3192824052, 1503939402, 4110022048]
    );
}

#[test]
fn hash_family_of_length_zero_is_empty() {
    assert_eq!(fxhash32_multi("abc", 0), Vec::<u32>::new());
}

#[test]
fn hash_family_starts_with_the_two_halves() {
    let hash = fxhash64("hello");
    let family = fxhash32_multi("hello", 2);
    assert_eq!(family[0], hash as u32);
    assert_eq!(family[1], (hash as u32).wrapping_add((hash >> 32) as u32));
}
