use crawler::seeds::parse_seeds;
use crawler::seeds::trim_line;

#[test]
fn seeds_are_read_line_by_line() {
    assert_eq!(
        parse_seeds("http://a.test/\nhttp://b.test/\n"),
        vec!["http://a.test/".to_string(), "http://b.test/".to_string()]
    );
}

#[test]
fn seeds_ignore_blank_lines_and_white_space() {
    assert_eq!(
        parse_seeds("\n  http://a.test/  \n\n\t\n\thttp://b.test/x y\r\nhttp://c.test/"),
        vec![
            "http://a.test/".to_string(),
            "http://b.test/x y".to_string(),
            "http://c.test/".to_string()
        ]
    );
}

#[test]
fn seeds_of_an_empty_text_are_none() {
    assert_eq!(parse_seeds(""), Vec::<String>::new());
    assert_eq!(parse_seeds(" \n\t\n\u{a0}\u{3000}\n"), Vec::<String>::new());
}

#[test]
fn trim_line_takes_the_white_space_off() {
    let line: Vec<char> = " \t a b \u{2003}\r".chars().collect();
    assert_eq!(trim_line(&line), "a b");
    assert_eq!(trim_line(&Vec::new()), "");
    let blank: Vec<char> = "   ".chars().collect();
    assert_eq!(trim_line(&blank), "");
    let full: Vec<char> = "x".chars().collect();
    assert_eq!(trim_line(&full), "x");
}
