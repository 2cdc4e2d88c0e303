use filesort::textfmt::file_name_for;
use filesort::textfmt::format_log_line;
use filesort::textfmt::u32_to_decimal;

#[test]
fn decimal_of_small_numbers() {
    assert_eq!(u32_to_decimal(0), "0");
    assert_eq!(u32_to_decimal(7), "7");
    assert_eq!(u32_to_decimal(10), "10");
}

#[test]
fn decimal_of_larger_numbers() {
    assert_eq!(u32_to_decimal(123), "123");
    assert_eq!(u32_to_decimal(1000), "1000");
    assert_eq!(u32_to_decimal(4294967295), "4294967295");
}

#[test]
fn generated_file_names() {
    assert_eq!(file_name_for(1, "png"), "1.png");
    assert_eq!(file_name_for(42, "tar"), "42.tar");
    assert_eq!(file_name_for(10000, "gif"), "10000.gif");
}

#[test]
fn log_line_format() {
    assert_eq!(
        format_log_line("a.txt", "out/document/txt"),
        "a.txt Moved to out/document/txt\n"
    );
    assert_eq!(format_log_line("", ""), " Moved to \n");
}
