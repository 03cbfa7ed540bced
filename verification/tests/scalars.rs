use store_env::digits::digit_of;
use store_env::error::ErrorKind;
use store_env::number::{parse_bool, parse_u32, parse_u64, parse_usize};
use store_env::reading::{read_number, Reading};
use store_env::scalar::{HistorySlack, ZeroToOne};
use store_env::text::{chars_of, same_text};

fn unit(text: &str) -> Result<String, ErrorKind> {
    ZeroToOne::from_str(text).map(|ratio| ratio.as_str().to_string())
}

fn slack(text: &str) -> Result<String, ErrorKind> {
    HistorySlack::from_str(text).map(|factor| factor.as_str().to_string())
}

#[test]
fn zero_to_one_accepts_the_closed_interval() {
    for text in [
        "0", "1", "0.5", "0.05", "1.0", "1.000", "0.0", "000.250", "+0.75", ".5", "+.5", "1.",
        "0.", "-0", "-0.0", "-0e5", "0e99999999999999999999999999999999999999",
        "0.99999999999999999999999999999", "1e0", "10e-1", "0.1e1", "100E-2", "5e-1", "5E-1",
        "1e-400", "0.000000000000000000000000000001",
        "1e-99999999999999999999999999999999999999", "0.0000001e7", "1000000e-6",
    ] {
        assert_eq!(unit(text), Ok(text.to_string()), "{text}");
    }
}

#[test]
fn zero_to_one_rejects_numbers_outside_the_interval() {
    for text in [
        "-0.1", "-1", "1.1", "2", "1.0000000000000000000000000001", "1.01", "10", "1e1", "1e400",
        "0.1e2", "11e-1", "-1e-400", "-0.000000000000000000000000000001",
        "1e99999999999999999999999999999999999999", "inf", "+inf", "-inf", "infinity", "Infinity",
        "INF", "nan", "NaN", "-nan", "100.0e-1", "1.000000000000000000001e0",
    ] {
        assert_eq!(unit(text), Err(ErrorKind::OutOfRange), "{text}");
    }
}

#[test]
fn zero_to_one_rejects_what_is_no_number() {
    for text in [
        "", "abc", ".", "+", "-", "+.", "e5", "1e", "1e+", "1e-", "0x1", " 0.5", "0.5 ", "0,5",
        "1_0", "--1", "+-1", "1.2.3", "1e5.0", "1e5e5", "in", "infinit", "infinityy", "na",
        "nanx", "0.5f", "½", "٠.٥", ".e1", "+e1",
    ] {
        assert_eq!(unit(text), Err(ErrorKind::MalformedValue), "{text}");
    }
}

#[test]
fn history_slack_accepts_from_the_minimum_up() {
    for text in [
        "1.01", "1.2", "1.010", "1.0100000000000000000000000", "101e-2", "0.101e1", "0.0101E2",
        "10.1e-1",
        "1.02", "1.1", "2", "10", "1e10", "1e400", "+1.5", "inf", "+inf", "Infinity", "INFINITY",
        "1e99999999999999999999999999999999999999", "1.0100000000000000000000000001",
        "1010000000000000000000000e-24", "9.99", "10.0", "99", "100", "1000", "123456789",
    ] {
        assert_eq!(slack(text), Ok(text.to_string()), "{text}");
    }
}

#[test]
fn history_slack_rejects_numbers_below_the_minimum() {
    for text in [
        "1", "1.0", "1.00", "1.009", "1.0099999999999999999999999999", "0", "0.5", "-2", "-1.5",
        "-inf", "nan", "NAN", "1e-1", "101e-3", "10.09e-1", "100e-2", "1009999e-6", "-0",
        "1e-99999999999999999999999999999999999999", "0.00000000000000000000000000101",
    ] {
        assert_eq!(slack(text), Err(ErrorKind::OutOfRange), "{text}");
    }
}

#[test]
fn history_slack_rejects_what_is_no_number() {
    for text in ["", "abc", "1,2", "1.2x", " 1.2", "e", ".", "1e"] {
        assert_eq!(slack(text), Err(ErrorKind::MalformedValue), "{text}");
    }
}

#[test]
fn scalars_keep_their_text_when_cloned() {
    let ratio = ZeroToOne::from_str("0.25").unwrap();
    assert_eq!(ratio.clone().as_str(), "0.25");
    let factor = HistorySlack::from_str("1.5").unwrap();
    assert_eq!(factor.clone().as_str(), "1.5");
}

#[test]
fn unsigned_integers_are_read_exactly() {
    assert_eq!(parse_u64("0"), Some(0));
    assert_eq!(parse_u64("30"), Some(30));
    assert_eq!(parse_u64("+5"), Some(5));
    assert_eq!(parse_u64("007"), Some(7));
    assert_eq!(parse_u64("18446744073709551615"), Some(u64::MAX));
    assert_eq!(parse_u64("00000000000000000000000018446744073709551615"), Some(u64::MAX));
    assert_eq!(parse_u64("18446744073709551616"), None);
    assert_eq!(parse_u64("99999999999999999999999999"), None);
    assert_eq!(parse_u32("4294967295"), Some(u32::MAX));
    assert_eq!(parse_u32("4294967296"), None);
    assert_eq!(parse_usize("10000"), Some(10000));
    assert_eq!(parse_usize(&usize::MAX.to_string()), Some(usize::MAX));
    assert_eq!(parse_usize("340282366920938463463374607431768211456"), None);
}

#[test]
fn unsigned_integers_reject_anything_else() {
    for text in
        ["", "+", "-", "-5", "abc", "1 ", " 1", "1_000", "1.0", "1e3", "0x10", "++1", "１"]
    {
        assert_eq!(parse_u64(text), None, "{text}");
        assert_eq!(parse_u32(text), None, "{text}");
        assert_eq!(parse_usize(text), None, "{text}");
    }
}

#[test]
fn unsigned_integers_agree_with_the_standard_parser() {
    for text in [
        "0", "1", "+1", "-1", "", "+", "12345678901234567890", "184467440737095516150", "0009",
        "9a",
    ] {
        assert_eq!(parse_u64(text), text.parse::<u64>().ok(), "{text}");
        assert_eq!(parse_u32(text), text.parse::<u32>().ok(), "{text}");
    }
}

#[test]
fn flags_are_true_or_false() {
    assert_eq!(parse_bool("true"), Some(true));
    assert_eq!(parse_bool("false"), Some(false));
    for text in ["", "True", "FALSE", "1", "0", "yes", "true ", "truee", "fals"] {
        assert_eq!(parse_bool(text), None, "{text}");
    }
}

#[test]
fn literals_are_those_of_the_standard_float_parser() {
    for text in [
        "0", "1", "0.5", ".5", "5.", "+.5", "-.5", "1e5", "1E5", "1e+5", "1e-5", "1.e5", ".1e5",
        "inf", "-inf", "+infinity", "nan", "NaN", "-NAN", "iNf", "InFiNiTy", "", ".", "+", "-",
        "e", "e5", ".e5", "1e", "1e+", "1e-", "1e5.", "1..5", "1.5.", "0x5", "5f", " 5", "5 ",
        "1_0", "١", "infinit", "infinityy", "in", "na", "nane", "+-1", "--1", "1e--1", "1e+-1",
        "00.00", "0e0", "9999999999999999999999999999999999999999",
        "0.00000000000000000000000000000000000000001", "1e99999999999", "1e-99999999999",
    ] {
        let standard = text.parse::<f64>().is_ok();
        let ours = ZeroToOne::from_str(text).err() != Some(ErrorKind::MalformedValue);
        assert_eq!(ours, standard, "{text}");
        let ours = HistorySlack::from_str(text).err() != Some(ErrorKind::MalformedValue);
        assert_eq!(ours, standard, "{text}");
    }
}

#[test]
fn ranges_are_those_of_the_numbers_written() {
    for text in [
        "0", "1", "0.5", "0.25", "0.75", "1.5", "2", "-1", "-0.5", "1e-3", "1e3", "0.125e1",
        "12.5e-1", "1.25", "1.0625", "1.015625", "1.0078125", "101e-2", "1.01", "1.02", "3e0",
        "-0", "0.0", "1.00", "100e-2", "1000e-3", "0.001e3",
    ] {
        let x = text.parse::<f64>().unwrap();
        assert_eq!(ZeroToOne::from_str(text).is_ok(), (0.0..=1.0).contains(&x), "{text}");
        assert_eq!(HistorySlack::from_str(text).is_ok(), x >= 1.01, "{text}");
    }
}

#[test]
fn readings_count_hundredths() {
    let finite =
        |negative, hundredths, whole| Some(Reading::Finite { negative, hundredths, whole });
    assert_eq!(read_number("0"), finite(false, 0, true));
    assert_eq!(read_number("-0"), finite(true, 0, true));
    assert_eq!(read_number("0.125"), finite(false, 12, false));
    assert_eq!(read_number("0.12"), finite(false, 12, true));
    assert_eq!(read_number("0.120000"), finite(false, 12, true));
    assert_eq!(read_number("0.009"), finite(false, 0, false));
    assert_eq!(read_number("1"), finite(false, 100, true));
    assert_eq!(read_number("1.01"), finite(false, 101, true));
    assert_eq!(read_number("-1.019"), finite(true, 101, false));
    assert_eq!(read_number("9.99"), finite(false, 999, true));
    assert_eq!(read_number("9.999"), finite(false, 999, false));
    assert_eq!(read_number("10"), finite(false, 1000, true));
    assert_eq!(read_number("12345.678"), finite(false, 1000, false));
    assert_eq!(read_number("3e0"), finite(false, 300, true));
    assert_eq!(read_number("3e1"), finite(false, 1000, true));
    assert_eq!(read_number("3e-1"), finite(false, 30, true));
    assert_eq!(read_number("3e-2"), finite(false, 3, true));
    assert_eq!(read_number("3e-3"), finite(false, 0, false));
    assert_eq!(read_number("0.5e1"), finite(false, 500, true));
    assert_eq!(read_number("0.05e2"), finite(false, 500, true));
    assert_eq!(read_number("0.005e3"), finite(false, 500, true));
    assert_eq!(read_number("0.0055e3"), finite(false, 550, true));
    assert_eq!(read_number("0.00555e3"), finite(false, 555, true));
    assert_eq!(read_number("0.005555e3"), finite(false, 555, false));
    assert_eq!(read_number("0e999999999999999999999999999999999999"), finite(false, 0, true));
    assert_eq!(read_number("1e999999999999999999999999999999999999"), finite(false, 1000, true));
    assert_eq!(read_number("1e-999999999999999999999999999999999999"), finite(false, 0, false));
    assert_eq!(read_number("0e-999999999999999999999999999999999999"), finite(false, 0, true));
    assert_eq!(read_number("inf"), Some(Reading::Infinite { negative: false }));
    assert_eq!(read_number("-Infinity"), Some(Reading::Infinite { negative: true }));
    assert_eq!(read_number("+NaN"), Some(Reading::NotANumber));
    assert_eq!(read_number("1e"), None);
    assert_eq!(read_number("one"), None);
}

#[test]
fn text_is_compared_character_by_character() {
    assert!(same_text("", ""));
    assert!(same_text("GRAPH_STORE_WRITE_QUEUE", "GRAPH_STORE_WRITE_QUEUE"));
    assert!(!same_text("GRAPH_STORE_WRITE_QUEUE", "GRAPH_STORE_WRITE_QUEUe"));
    assert!(!same_text("a", "ab"));
    assert!(!same_text("ab", "a"));
    assert!(same_text("é½", "é½"));
    assert!(!same_text("é", "e"));
    assert_eq!(chars_of("a½c"), vec!['a', '½', 'c']);
    assert_eq!(chars_of(""), Vec::<char>::new());
}

#[test]
fn digits_are_the_ten_ascii_ones() {
    assert_eq!(digit_of('0'), Some(0));
    assert_eq!(digit_of('7'), Some(7));
    assert_eq!(digit_of('9'), Some(9));
    for c in ['/', ':', 'a', ' ', '٣', '７', '+', '-', '.'] {
        assert_eq!(digit_of(c), None, "{c}");
    }
}

fn all_texts(alphabet: &[char], longest: usize) -> Vec<String> {
    let mut texts = vec![String::new()];
    let mut from = 0;
    for _ in 0..longest {
        let to = texts.len();
        for i in from..to {
            for c in alphabet {
                let mut text = texts[i].clone();
                text.push(*c);
                texts.push(text);
            }
        }
        from = to;
    }
    texts
}

#[test]
fn short_texts_are_judged_as_the_numbers_they_denote() {
    let alphabet = ['0', '1', '5', '9', '.', 'e', '+', '-', 'n', 'a', 'i', 'f'];
    for text in all_texts(&alphabet, 5) {
        let unit = ZeroToOne::from_str(&text).map(|_| ());
        let slack = HistorySlack::from_str(&text).map(|_| ());
        match text.parse::<f64>() {
            Err(_) => {
                assert_eq!(unit, Err(ErrorKind::MalformedValue), "{text}");
                assert_eq!(slack, Err(ErrorKind::MalformedValue), "{text}");
            }
            Ok(x) => {
                assert_eq!(unit.is_ok(), x >= 0.0 && x <= 1.0, "{text}");
                assert_eq!(slack.is_ok(), x >= 1.01, "{text}");
                assert_ne!(unit, Err(ErrorKind::MalformedValue), "{text}");
                assert_ne!(slack, Err(ErrorKind::MalformedValue), "{text}");
            }
        }
    }
}

#[test]
fn short_texts_are_read_as_the_standard_parser_reads_integers() {
    let alphabet = ['0', '1', '9', '+', '-', ' ', 'a', '_'];
    for text in all_texts(&alphabet, 5) {
        assert_eq!(parse_u64(&text), text.parse::<u64>().ok(), "{text}");
        assert_eq!(parse_u32(&text), text.parse::<u32>().ok(), "{text}");
        assert_eq!(parse_usize(&text), text.parse::<usize>().ok(), "{text}");
        assert_eq!(parse_bool(&text), text.parse::<bool>().ok(), "{text}");
    }
    for n in [0u64, 1, 9, 10, 4294967295, 4294967296, u64::MAX - 1, u64::MAX] {
        let text = n.to_string();
        assert_eq!(parse_u64(&text), Some(n));
        assert_eq!(parse_u32(&text), text.parse::<u32>().ok());
        let above = format!("{}", n as u128 + 1);
        assert_eq!(parse_u64(&above), above.parse::<u64>().ok());
    }
}
