use phrack_read::text::{chars_of, decimal, lines_of, push_chars, push_decimal, push_repeated};

fn std_lines(text: &str) -> Vec<String> {
    text.lines().map(String::from).collect()
}

#[test]
fn chars_of_keeps_order() {
    assert_eq!(chars_of("a日b"), vec!['a', '日', 'b']);
    assert_eq!(chars_of(""), Vec::<char>::new());
}

#[test]
fn push_chars_appends_range() {
    let chars = vec!['a', 'b', 'c', 'd'];
    let mut out = String::from("x");
    push_chars(&mut out, &chars, 1, 3);
    assert_eq!(out, "xbc");
    push_chars(&mut out, &chars, 2, 2);
    assert_eq!(out, "xbc");
    push_chars(&mut out, &chars, 0, 4);
    assert_eq!(out, "xbcabcd");
}

#[test]
fn push_repeated_appends_run() {
    let mut out = String::from("[");
    push_repeated(&mut out, '═', 3);
    push_repeated(&mut out, ' ', 0);
    out.push(']');
    assert_eq!(out, "[═══]");
}

#[test]
fn decimal_of_small_numbers() {
    assert_eq!(decimal(0), "0");
    assert_eq!(decimal(7), "7");
    assert_eq!(decimal(9), "9");
    assert_eq!(decimal(10), "10");
    assert_eq!(decimal(100), "100");
    assert_eq!(decimal(1234567890), "1234567890");
}

#[test]
fn decimal_of_largest_number() {
    assert_eq!(decimal(u128::MAX), "340282366920938463463374607431768211455");
    assert_eq!(decimal(u64::MAX as u128), u64::MAX.to_string());
}

#[test]
fn push_decimal_appends() {
    let mut out = String::from("SECTION ");
    push_decimal(&mut out, 12);
    assert_eq!(out, "SECTION 12");
}

#[test]
fn lines_of_plain_cases() {
    assert_eq!(lines_of("hello\nworld"), vec!["hello", "world"]);
    assert_eq!(lines_of("hello\nworld\n"), vec!["hello", "world"]);
    assert_eq!(lines_of("one"), vec!["one"]);
    assert_eq!(lines_of(""), Vec::<String>::new());
    assert_eq!(lines_of("\n"), vec![""]);
    assert_eq!(lines_of("\n\n"), vec!["", ""]);
    assert_eq!(lines_of("a\n\nb"), vec!["a", "", "b"]);
    assert_eq!(lines_of("\nb"), vec!["", "b"]);
}

#[test]
fn lines_of_carriage_returns() {
    assert_eq!(lines_of("a\r\nb"), vec!["a", "b"]);
    assert_eq!(lines_of("a\r\nb\r\n"), vec!["a", "b"]);
    assert_eq!(lines_of("a\rb\nc"), vec!["a\rb", "c"]);
    assert_eq!(lines_of("a\r\r\nb"), vec!["a\r", "b"]);
    assert_eq!(lines_of("\r\n"), vec![""]);
    assert_eq!(lines_of("a\r"), vec!["a\r"]);
    assert_eq!(lines_of("\r"), vec!["\r"]);
}

#[test]
fn lines_of_agrees_with_std() {
    let samples = [
        "",
        "\n",
        "\r",
        "\r\n",
        "a",
        "a\n",
        "a\r",
        "a\r\n",
        "a\n\r",
        "a\nb",
        "a\r\nb\r\n\r\n",
        "\n\n\n",
        "\r\r\n\r",
        "|=heading=|\n--[ topic\nplain\n",
        "日本語\r\nテキスト",
        "x\n\ny\n\n",
    ];
    for sample in samples {
        assert_eq!(lines_of(sample), std_lines(sample), "sample {:?}", sample);
    }
}
