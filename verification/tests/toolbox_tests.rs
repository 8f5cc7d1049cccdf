use log_setup::toolbox::{
    is_bool_false, is_bool_true, is_true_word, max_n_chars, max_n_chars_from, TruncateError,
};
use std::iter::repeat;

#[test]
fn test_bool_str() {
    for s in ["true", "1", "yes", "ok"] {
        assert!(is_bool_true(s))
    }
    for s in ["false", "0", "no", "else"] {
        assert!(!is_bool_true(s))
    }
}

#[test]
fn bool_words_in_any_case() {
    for s in ["TRUE", "True", "tRuE", "YES", "Yes", "yEs", "OK", "Ok", "oK", "1"] {
        assert!(is_bool_true(s), "{:?}", s);
        assert!(!is_bool_false(s), "{:?}", s);
    }
}

#[test]
fn bool_word_with_kelvin_sign_is_ok() {
    // U+212A KELVIN SIGN has the lowercase equivalent `k`.
    assert!(is_bool_true("o\u{212A}"));
    assert!(!is_true_word("o\u{212A}"));
}

#[test]
fn other_strings_are_false() {
    for s in ["", " true", "true ", "truee", "y", "on", "okay", "11", "0", "false", "näin"] {
        assert!(!is_bool_true(s), "{:?}", s);
        assert!(is_bool_false(s), "{:?}", s);
    }
}

#[test]
fn true_word_is_taken_as_written() {
    assert!(is_true_word("true"));
    assert!(is_true_word("1"));
    assert!(is_true_word("yes"));
    assert!(is_true_word("ok"));
    assert!(!is_true_word("TRUE"));
    assert!(!is_true_word("Ok"));
    assert!(!is_true_word(""));
}

#[test]
fn test_max_n_chars() {
    let max_n = 16;
    let ellipsis = "...";
    let might_be_n = max_n - ellipsis.chars().count();
    println!("max_n: {}, ellipsis: {}, might_be_n: {}", max_n, ellipsis, might_be_n);

    let s1 = max_n_chars(repeat("a").take(20).collect::<String>().chars(), max_n, ellipsis);
    println!("{:?}", s1);
    assert_eq!(s1, Ok(repeat("a").take(might_be_n).collect::<String>() + ellipsis));

    let s1 = max_n_chars(repeat("a").take(10).collect::<String>().chars(), max_n, ellipsis);
    println!("{:?}", s1);
    assert_eq!(s1, Ok(repeat("a").take(10).collect::<String>()));

    let s1 = max_n_chars(repeat("a").take(max_n).collect::<String>().chars(), max_n, ellipsis);
    println!("{:?}", s1);
    assert_eq!(s1, Ok(repeat("a").take(max_n).collect::<String>()));

    let max_n = 16;
    let ellipsis = " 等等";
    let might_be_n = max_n - ellipsis.chars().count();
    println!("max_n: {}, ellipsis: {}, might_be_n: {}", max_n, ellipsis, might_be_n);

    let s1 = max_n_chars(repeat("字").take(20).collect::<String>().chars(), max_n, ellipsis);
    println!("{:?}", s1);
    assert_eq!(s1, Ok(repeat("字").take(might_be_n).collect::<String>() + ellipsis));

    let s1 = max_n_chars(repeat("字").take(10).collect::<String>().chars(), max_n, ellipsis);
    println!("{:?}", s1);
    assert_eq!(s1, Ok(repeat("字").take(10).collect::<String>()));

    let s1 = max_n_chars(repeat("字").take(max_n).collect::<String>().chars(), max_n, ellipsis);
    println!("{:?}", s1);
    assert_eq!(s1, Ok(repeat("字").take(max_n).collect::<String>()));

    let max_n = 16;
    let ellipsis = "...";
    let might_be_n = max_n - ellipsis.chars().count();
    let text = "今晚九点直播‼️\n我们今晚的内容，不仅面向";
    for (i, v) in text.chars().enumerate() {
        println!("{}: {:?}, {}", i, v, v);
    }
    println!("\n");
    for (i, v) in "播‼️\n播".chars().enumerate() {
        println!("{}: {:?}, {}", i, v, v);
    }
    println!("\n");
    for (i, v) in "‼️cd".chars().enumerate() {
        println!("{}: {:?}, {}", i, v, v);
    }

    println!("max_n: {}, ellipsis: {}, might_be_n: {}", max_n, ellipsis, might_be_n);
    println!("text: {:?}, len: {}, chars count: {}", text, text.len(), text.chars().count());

    let s1 = max_n_chars(text.chars(), max_n, ellipsis);
    println!("{:?}", s1);
    assert_eq!(s1, Ok(text.chars().take(might_be_n).collect::<String>() + ellipsis));
}

#[test]
fn twenty_letters_cut_to_sixteen() {
    let r = max_n_chars("aaaaaaaaaaaaaaaaaaaa".chars(), 16, "...");
    assert_eq!(r, Ok("aaaaaaaaaaaaa...".to_string()));
    assert_eq!(r.unwrap().chars().count(), 16);
}

#[test]
fn ten_letters_stay_as_they_are() {
    assert_eq!(max_n_chars("aaaaaaaaaa".chars(), 16, "..."), Ok("aaaaaaaaaa".to_string()));
}

#[test]
fn input_of_exactly_the_length_is_unchanged() {
    assert_eq!(max_n_chars("abcdef".chars(), 6, ".."), Ok("abcdef".to_string()));
    assert_eq!(max_n_chars("abcdefg".chars(), 6, ".."), Ok("abcd..".to_string()));
}

#[test]
fn empty_input_and_empty_ellipsis() {
    assert_eq!(max_n_chars("".chars(), 0, ""), Ok(String::new()));
    assert_eq!(max_n_chars("abc".chars(), 0, ""), Ok(String::new()));
    assert_eq!(max_n_chars("abc".chars(), 2, ""), Ok("ab".to_string()));
    assert_eq!(max_n_chars("".chars(), 5, "..."), Ok(String::new()));
}

#[test]
fn ellipsis_as_long_as_the_limit_replaces_everything() {
    assert_eq!(max_n_chars("abcdef".chars(), 3, "..."), Ok("...".to_string()));
}

#[test]
fn ellipsis_longer_than_the_limit_is_refused() {
    assert_eq!(max_n_chars("abcdef".chars(), 2, "..."), Err(TruncateError::InvalidArgument));
    assert_eq!(max_n_chars("a".chars(), 2, "...."), Err(TruncateError::InvalidArgument));
    assert_eq!(max_n_chars("".chars(), 0, "."), Err(TruncateError::InvalidArgument));
}

#[test]
fn a_glyph_of_two_scalar_values_may_be_cut() {
    // "‼️" is U+203C followed by U+FE0F.
    let r = max_n_chars("ab\u{203C}\u{FE0F}cd".chars(), 4, "~").unwrap();
    assert_eq!(r, "ab\u{203C}~");
    assert_eq!(r.chars().count(), 4);
}

#[test]
fn cutting_twice_is_cutting_once() {
    for input in ["", "short", "exactly ten", "much longer than ten scalar values", "字字字字字字字字字字字字"] {
        for (n, e) in [(10usize, "..."), (10, ""), (3, "..."), (11, " 等等")] {
            let once = max_n_chars(input.chars(), n, e).unwrap();
            assert!(once.chars().count() <= n);
            let twice = max_n_chars(once.chars(), n, e).unwrap();
            assert_eq!(once, twice);
        }
    }
}

#[test]
fn cut_results_have_the_length_and_end_in_the_ellipsis() {
    let input = "0123456789abcdefghij";
    for n in 3..20usize {
        let r = max_n_chars(input.chars(), n, "...").unwrap();
        assert_eq!(r.chars().count(), n);
        assert!(r.ends_with("..."));
        assert!(input.starts_with(&r[..n - 3]));
    }
    for n in 20..25usize {
        assert_eq!(max_n_chars(input.chars(), n, "...").unwrap(), input);
    }
}

#[test]
fn the_largest_limit_is_accepted() {
    assert_eq!(max_n_chars("abc".chars(), usize::MAX, "..."), Ok("abc".to_string()));
}

#[test]
fn a_long_input_loses_one_more_than_the_limit() {
    let mut input = "abcdefghij".chars();
    assert_eq!(max_n_chars_from(&mut input, 4, ".."), Ok("ab..".to_string()));
    assert_eq!(input.as_str(), "fghij");
}

#[test]
fn a_short_input_is_used_up() {
    let mut input = "abc".chars();
    assert_eq!(max_n_chars_from(&mut input, 4, ".."), Ok("abc".to_string()));
    assert_eq!(input.as_str(), "");
    let mut input = "abcd".chars();
    assert_eq!(max_n_chars_from(&mut input, 4, ".."), Ok("abcd".to_string()));
    assert_eq!(input.as_str(), "");
    let mut input = "abcde".chars();
    assert_eq!(max_n_chars_from(&mut input, 4, ".."), Ok("ab..".to_string()));
    assert_eq!(input.as_str(), "");
}

#[test]
fn a_refused_call_takes_nothing() {
    let mut input = "abcdef".chars();
    assert_eq!(max_n_chars_from(&mut input, 1, ".."), Err(TruncateError::InvalidArgument));
    assert_eq!(input.as_str(), "abcdef");
}
