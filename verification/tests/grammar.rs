use zipf_coherence::numeral::is_float;

#[test]
fn accepts_the_documented_forms() {
    let yes = [
        "1", "12", "1.5", "5.", ".5", "+3", "-3", "0", "0.0", "1e5", "1E5", "1e+5", "1e-5",
        "2.5e-3", "-2.5E+30", "5.e3", ".5e3", "1e05", "inf", "-inf", "+inf", "Inf", "infinity",
        "Infinity", "iNfInItY", "nan", "NaN", "-NAN", "+nan", "007", "123456789.000000001",
    ];
    for s in yes {
        assert!(is_float(s), "expected accept: {:?}", s);
    }
}

#[test]
fn rejects_everything_else() {
    let no = [
        "", ".", "+", "-", "e5", ".e5", "1e", "1e+", "1e-", "1.2.3", "1..2", "--1", "+-1", "1 ",
        " 1", "abc", "0x10", "1_000", "in", "infi", "infinit", "infinityy", "nana", "nan(2)",
        "1.5e5.5", "1,5", "+.e5", "1e5e5", "1.e", "++", "1+1", "e", "E", "3.14f",
    ];
    for s in no {
        assert!(!is_float(s), "expected reject: {:?}", s);
    }
}

#[test]
fn agrees_with_the_standard_parser() {
    let cases = [
        "1", "12", "1.5", "5.", ".5", "+3", "-3", "0", "0.0", "1e5", "1E5", "1e+5", "1e-5",
        "2.5e-3", "-2.5E+30", "5.e3", ".5e3", "1e05", "inf", "-inf", "+inf", "Inf", "infinity",
        "Infinity", "iNfInItY", "nan", "NaN", "-NAN", "+nan", "007", "", ".", "+", "-", "e5",
        ".e5", "1e", "1e+", "1e-", "1.2.3", "1..2", "--1", "+-1", "1 ", " 1", "abc", "0x10",
        "1_000", "in", "infi", "infinit", "infinityy", "nana", "nan(2)", "1.5e5.5", "1,5", "+.e5",
        "1e5e5", "1.e", "++", "1+1", "e", "E", "3.14f", "1e999", "-1e999", "9007199254740993",
        "0.000000000000000000000000000000000000000000001", "+.5e+07", "-0", "-.0", "-0.e0",
    ];
    for s in cases {
        assert_eq!(
            is_float(s),
            s.parse::<f64>().is_ok(),
            "disagreement with the standard parser on {:?}",
            s
        );
    }
}
