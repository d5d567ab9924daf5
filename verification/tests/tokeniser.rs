use linevm::tokeniser::parse_character;
use linevm::tokeniser::parse_integer;
use linevm::tokeniser::parse_string;
use linevm::tokeniser::tokenise;
use linevm::tokeniser::tokenise_line;
use linevm::tokeniser::valid_identifier;
use linevm::tokeniser::Token;

#[test]
fn identifiers_begin_with_letter_or_underscore() {
    assert!(valid_identifier("x"));
    assert!(valid_identifier("_tmp1"));
    assert!(valid_identifier("GO_BACK_IF"));
    assert!(!valid_identifier(""));
    assert!(!valid_identifier("1x"));
    assert!(!valid_identifier("a-b"));
    assert!(!valid_identifier("caf\u{e9}"));
}

#[test]
fn character_literals() {
    assert_eq!(parse_character("'a'".to_string()), Ok('a'));
    assert_eq!(parse_character("'\\n'".to_string()), Ok('\n'));
    assert_eq!(parse_character("'\\t'".to_string()), Ok('\t'));
    assert_eq!(parse_character("'\\r'".to_string()), Ok('\r'));
    assert_eq!(parse_character("'\\\\'".to_string()), Ok('\\'));
    assert_eq!(parse_character("'\\''".to_string()), Ok('\''));
    assert_eq!(parse_character("'\\\"'".to_string()), Ok('"'));
    assert_eq!(parse_character("'\\0'".to_string()), Ok('\0'));
    assert_eq!(parse_character("'\\q'".to_string()), Err(()));
    assert_eq!(parse_character("'ab'".to_string()), Err(()));
    assert_eq!(parse_character("'".to_string()), Err(()));
    assert_eq!(parse_character("'abc'".to_string()), Ok('a'));
}

#[test]
fn string_literals() {
    assert_eq!(parse_string("\"\"".to_string()), Ok(String::new()));
    assert_eq!(parse_string("\"hello world\"".to_string()), Ok("hello world".to_string()));
    assert_eq!(parse_string("\"a\\nb\"".to_string()), Ok("a\nb".to_string()));
    assert_eq!(parse_string("\"say \\\"hi\\\"\"".to_string()), Ok("say \"hi\"".to_string()));
    assert_eq!(parse_string("\"bad \\q\"".to_string()), Err(()));
    assert_eq!(parse_string("\"".to_string()), Err(()));
}

#[test]
fn integers() {
    assert_eq!(parse_integer("0"), Some(0));
    assert_eq!(parse_integer("42"), Some(42));
    assert_eq!(parse_integer("-42"), Some(-42));
    assert_eq!(parse_integer("+7"), Some(7));
    assert_eq!(parse_integer("007"), Some(7));
    assert_eq!(parse_integer("9223372036854775807"), Some(i64::MAX));
    assert_eq!(parse_integer("-9223372036854775808"), Some(i64::MIN));
    assert_eq!(parse_integer("9223372036854775808"), None);
    assert_eq!(parse_integer("-9223372036854775809"), None);
    assert_eq!(parse_integer("99999999999999999999999999999999999999999999"), None);
    assert_eq!(parse_integer(""), None);
    assert_eq!(parse_integer("-"), None);
    assert_eq!(parse_integer("+"), None);
    assert_eq!(parse_integer("1.5"), None);
    assert_eq!(parse_integer("12a"), None);
    assert_eq!(parse_integer("--1"), None);
}

#[test]
fn integers_as_the_standard_library_reads_them() {
    for text in ["0", "-0", "+0", "17", "-17", "+", "-", "", "1_000", " 1", "1 ", "0x10", "٣"] {
        assert_eq!(parse_integer(text), text.parse::<i64>().ok(), "{:?}", text);
    }
}

fn classify(text: &str) -> Result<Token, ()> {
    Token::classify(text.to_string(), text.parse::<f64>().ok().map(f64::to_bits))
}

#[test]
fn lexemes_become_tokens() {
    assert!(matches!(classify("12"), Ok(Token::Integer(12))));
    assert!(matches!(classify("1.5"), Ok(Token::Float(bits)) if f64::from_bits(bits) == 1.5));
    assert!(matches!(classify("true"), Ok(Token::Boolean(true))));
    assert!(matches!(classify("false"), Ok(Token::Boolean(false))));
    assert!(matches!(classify("'x'"), Ok(Token::Character('x'))));
    assert!(matches!(classify("\"a b\""), Ok(Token::String(text)) if text == "a b"));
    assert!(matches!(classify("total"), Ok(Token::Identifier(name)) if name == "total"));
    assert!(matches!(classify("a-b"), Err(())));
    assert!(matches!(classify("'\\q'"), Err(())));
    assert!(matches!(classify("\"\\q\""), Err(())));
}

#[test]
fn integer_comes_before_float() {
    let token = Token::classify("12".to_string(), Some(12.0f64.to_bits()));
    assert!(matches!(token, Ok(Token::Integer(12))));
}

#[test]
fn float_comes_before_identifier() {
    assert!(matches!(classify("inf"), Ok(Token::Float(bits)) if f64::from_bits(bits).is_infinite()));
    assert!(matches!(Token::classify("inf".to_string(), None), Ok(Token::Identifier(_))));
}

#[test]
fn line_is_cut_into_lexemes() {
    assert_eq!(tokenise_line("ADD x 3 x"), vec!["ADD", "x", "3", "x"]);
    assert_eq!(tokenise_line("  SET_VAR   x   5  "), vec!["SET_VAR", "x", "5"]);
    assert_eq!(tokenise_line("SET_VAR s \"a b  c\""), vec!["SET_VAR", "s", "\"a b  c\""]);
    assert_eq!(tokenise_line("SET_VAR c 'x'"), vec!["SET_VAR", "c", "'x'"]);
    assert_eq!(tokenise_line("SET_VAR c '\"' z"), vec!["SET_VAR", "c", "'\"'", "z"]);
    assert_eq!(tokenise_line("SET_VAR s \"it's\" z"), vec!["SET_VAR", "s", "\"it's\"", "z"]);
    assert_eq!(tokenise_line("a\"b\"c"), vec!["a\"b\"", "c"]);
    assert_eq!(tokenise_line(""), Vec::<String>::new());
    assert_eq!(tokenise_line("   "), Vec::<String>::new());
    assert_eq!(tokenise_line("x\t"), vec!["x\t"]);
    assert_eq!(tokenise_line("x \t"), vec!["x"]);
}

#[test]
fn semicolon_begins_comment() {
    assert_eq!(tokenise_line("END ; done"), vec!["END"]);
    assert_eq!(tokenise_line("END; done"), vec!["END"]);
    assert_eq!(tokenise_line("; all comment"), Vec::<String>::new());
    assert_eq!(tokenise_line("SET_VAR s \"a;b\""), vec!["SET_VAR", "s", "\"a"]);
}

#[test]
fn space_ends_lexeme_inside_character_literal() {
    assert_eq!(tokenise_line("SET_VAR c ' '"), vec!["SET_VAR", "c", "'", "'"]);
}

#[test]
fn program_is_cut_into_lines() {
    let program = "FUNC main\n  CREATE_VAR int x ; a variable\n\n; comment\n   \n  SET_VAR x 5\nEND";
    assert_eq!(
        tokenise(program),
        vec![
            vec!["FUNC", "main"],
            vec!["CREATE_VAR", "int", "x"],
            vec!["SET_VAR", "x", "5"],
            vec!["END"],
        ]
    );
    assert_eq!(tokenise(""), Vec::<Vec<String>>::new());
    assert_eq!(tokenise("\n\n"), Vec::<Vec<String>>::new());
    assert_eq!(tokenise("END\n"), vec![vec!["END"]]);
    assert_eq!(tokenise("\u{a0}END\u{2003}\r\nEND"), vec![vec!["END"], vec!["END"]]);
}
