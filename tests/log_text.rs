use battlefield::LogLine;

#[test]
fn counter_lines_render_decimal() {
    assert_eq!(LogLine::Increased(5).text(), "Increased number to 5");
    assert_eq!(LogLine::Increased(0).text(), "Increased number to 0");
    assert_eq!(LogLine::Increased(-128).text(), "Increased number to -128");
    assert_eq!(LogLine::Decreased(127).text(), "Decreased number to 127");
    assert_eq!(LogLine::Decreased(-100).text(), "Decreased number to -100");
    assert_eq!(LogLine::Decreased(-7).text(), "Decreased number to -7");
    assert_eq!(LogLine::Increased(42).text(), "Increased number to 42");
}

#[test]
fn fixed_lines() {
    assert_eq!(LogLine::ResetToZero.text(), "Reset counter to zero");
    assert_eq!(
        LogLine::OverflowAdvice.text(),
        "Make sure you don't overflow, my friend."
    );
    assert_eq!(LogLine::FeesBurned.text(), "Burning fees received!.");
    assert_eq!(
        LogLine::NotPayable.text(),
        "This will actually panic when deposit is part of the transaction, because we are not flagged as payable."
    );
}

#[test]
fn decimal_matches_std_formatting() {
    for v in i8::MIN..=i8::MAX {
        assert_eq!(LogLine::Increased(v).text(), format!("Increased number to {}", v));
    }
}
