use practice::text::{first_word, hoge, longest, pig_latin_ascii};

#[test]
fn first_word_stops_at_space() {
    assert_eq!(first_word("hello world"), "hello");
    assert_eq!(first_word("hello"), "hello");
    assert_eq!(first_word(" lead"), "");
    assert_eq!(first_word(""), "");
    assert_eq!(first_word("ホゲ ab"), "ホゲ");
}

#[test]
fn longest_by_bytes() {
    assert_eq!(longest("good night", "good afternoon"), "good afternoon");
    assert_eq!(longest("hello world", "good morning"), "good morning");
    assert_eq!(longest("abcd", "xy"), "abcd");
    assert_eq!(longest("ab", "xy"), "xy");
    assert_eq!(longest("ホ", "abc"), "abc");
}

#[test]
fn pig_latin_of_words() {
    assert_eq!(pig_latin_ascii("penpen"), "enen-pay");
    assert_eq!(pig_latin_ascii("apple"), "apple-hay");
    assert_eq!(pig_latin_ascii("first"), "irst-fay");
    assert_eq!(pig_latin_ascii("-ab"), "ab-ay");
    assert_eq!(pig_latin_ascii("o"), "o-hay");
}

#[test]
fn hoge_is_hello() {
    assert_eq!(hoge(), "hello");
}
