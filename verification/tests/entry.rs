use rhachis::entry::struct_name;
use rhachis::entry::Token;

fn word(text: &str) -> Token {
    Token::Ident(text.to_string())
}

#[test]
fn finds_the_name_behind_struct() {
    let tokens = [word("struct"), word("Window"), Token::Other];
    assert_eq!(struct_name(&tokens), Some(1));
}

#[test]
fn skips_attributes_and_visibility() {
    let tokens = [Token::Other, Token::Other, word("pub"), word("struct"), word("Game"), Token::Other];
    assert_eq!(struct_name(&tokens), Some(4));
}

#[test]
fn takes_the_first_of_two_structs() {
    let tokens = [
        word("struct"), word("First"), Token::Other,
        word("struct"), word("Second"), Token::Other,
    ];
    assert_eq!(struct_name(&tokens), Some(1));
}

#[test]
fn struct_without_a_name_behind_it_does_not_count() {
    let tokens = [word("struct"), Token::Other, word("struct"), word("Named")];
    assert_eq!(struct_name(&tokens), Some(3));
    let tokens = [word("struct"), Token::Other, word("Named")];
    assert_eq!(struct_name(&tokens), None);
}

#[test]
fn struct_as_the_last_token_does_not_count() {
    assert_eq!(struct_name(&[word("pub"), word("struct")]), None);
    assert_eq!(struct_name(&[word("struct")]), None);
}

#[test]
fn other_keywords_do_not_count() {
    let tokens = [word("enum"), word("Game"), Token::Other, word("fn"), word("main")];
    assert_eq!(struct_name(&tokens), None);
    let tokens = [word("structs"), word("Game"), word("Struct"), word("Game"), word("struc"), word("t")];
    assert_eq!(struct_name(&tokens), None);
}

#[test]
fn struct_struct_names_the_second_word() {
    let tokens = [word("struct"), word("struct"), word("Game")];
    assert_eq!(struct_name(&tokens), Some(1));
}

#[test]
fn no_tokens_no_struct() {
    assert_eq!(struct_name(&[]), None);
    assert_eq!(struct_name(&[Token::Other]), None);
}
