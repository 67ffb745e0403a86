use whoami::text::ascii_lowercase;

#[test]
fn ascii_letters_fold_to_lower_case() {
    assert_eq!(ascii_lowercase("ABCDEFGHIJKLMNOPQRSTUVWXYZ"), "abcdefghijklmnopqrstuvwxyz");
    assert_eq!(ascii_lowercase("Host-Name-01"), "host-name-01");
    assert_eq!(ascii_lowercase("already lower"), "already lower");
    assert_eq!(ascii_lowercase(""), "");
}

#[test]
fn neighbours_of_the_letters_stay() {
    assert_eq!(ascii_lowercase("@AZ[`az{"), "@az[`az{");
    assert_eq!(ascii_lowercase("0123456789-._ \t\n"), "0123456789-._ \t\n");
    assert_eq!(ascii_lowercase("\u{0}\u{7f}"), "\u{0}\u{7f}");
}

#[test]
fn characters_outside_ascii_stay() {
    assert_eq!(ascii_lowercase("\u{00c4}BC"), "\u{00c4}bc");
    assert_eq!(ascii_lowercase("\u{00c9}COLE-\u{0394}ELTA"), "\u{00c9}cole-\u{0394}elta");
    assert_eq!(ascii_lowercase("\u{4e3b}\u{673a}A"), "\u{4e3b}\u{673a}a");
    assert_eq!(ascii_lowercase("X\u{1f600}Y"), "x\u{1f600}y");
    assert_eq!(ascii_lowercase("\u{212a}"), "\u{212a}");
}

#[test]
fn folding_agrees_with_the_standard_library() {
    let samples = [
        "",
        "A",
        "MiXeD Case 123",
        "\u{00df}\u{00c5}\u{0130}I",
        "Z\u{10ffff}Z",
        "\u{d7ff}Q\u{e000}",
        "\u{7ff}A\u{800}B\u{ffff}C\u{10000}D",
    ];
    for sample in samples {
        assert_eq!(ascii_lowercase(sample), sample.to_ascii_lowercase());
    }
}

#[test]
fn folding_twice_is_folding_once() {
    let samples = ["Host", "HOST.EXAMPLE.ORG", "\u{00c4}Host", "x"];
    for sample in samples {
        let once = ascii_lowercase(sample);
        assert_eq!(ascii_lowercase(&once), once);
        assert!(!once.chars().any(|c| c.is_ascii_uppercase()));
    }
}
