use humility::text::characters;
use humility::text::clear_range;
use humility::text::concatenate;
use humility::text::split;
use humility::text::split_lines;
use humility::text::trim;

#[test]
fn split_lines_keeps_every_piece() {
    assert_eq!(split_lines(""), vec![""]);
    assert_eq!(split_lines("a"), vec!["a"]);
    assert_eq!(split_lines("a\nb"), vec!["a", "b"]);
    assert_eq!(split_lines("a\nb\n"), vec!["a", "b", ""]);
    assert_eq!(split_lines("\n\nx"), vec!["", "", "x"]);
    assert_eq!(split_lines("ab\r\ncd"), vec!["ab\r", "cd"]);
}

#[test]
fn split_agrees_with_the_standard_library() {
    let texts = ["", " ", "flash -F", "a  b ", " rot-sprocket --get-endorsements -T 10", "é ü\u{a0}x"];
    for text in texts {
        let expected: Vec<&str> = text.split(' ').collect();
        assert_eq!(split(text, ' '), expected);
        let joined = split(text, ' ').join(" ");
        assert_eq!(joined, text);
    }
}

#[test]
fn split_counts_characters_not_bytes() {
    assert_eq!(split("äö|ü|", '|'), vec!["äö", "ü", ""]);
}

#[test]
fn trim_drops_white_space_at_both_ends() {
    assert_eq!(trim("  quit \n"), "quit");
    assert_eq!(trim("quit"), "quit");
    assert_eq!(trim("\t a b \r\n"), "a b");
    assert_eq!(trim(""), "");
    assert_eq!(trim(" \n\t"), "");
    assert_eq!(trim("\u{2003}x\u{a0}"), "x");
}

#[test]
fn trim_agrees_with_the_standard_library() {
    let texts = ["", "a", " a", "a ", " a b ", "\n", "\u{3000}é \u{85}", "x\u{200b}"];
    for text in texts {
        assert_eq!(trim(text), text.trim());
    }
}

#[test]
fn clear_range_bounds_what_is_not_blank() {
    assert_eq!(clear_range(&vec![]), (0, 0));
    assert_eq!(clear_range(&vec![true, true]), (2, 0));
    assert_eq!(clear_range(&vec![false]), (0, 1));
    assert_eq!(clear_range(&vec![true, false, true, false, true, true]), (1, 4));
    assert_eq!(clear_range(&vec![false, true, false]), (0, 3));
}

#[test]
fn concatenate_puts_texts_end_to_end() {
    assert_eq!(concatenate(&vec![]), "");
    assert_eq!(concatenate(&vec!["flash\n".to_string(), "repl\n".to_string()]), "flash\nrepl\n");
    assert_eq!(concatenate(&vec!["a".to_string(), "".to_string(), "b".to_string()]), "ab");
}

#[test]
fn characters_are_not_bytes() {
    assert_eq!(characters(""), Vec::<char>::new());
    assert_eq!(characters("aé\n"), vec!['a', 'é', '\n']);
}
