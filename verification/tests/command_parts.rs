use bet::{BeTree, Token};
use broot::command::parts::CommandParts;
use broot::command::pattern_parts::{PatternOperator, PatternParts};
use broot::command::verb_invocation::VerbInvocation;

fn pp(a: &[&str]) -> PatternParts {
    PatternParts::from_strs(a).unwrap()
}

/// Check that the input is parsed as expected:
/// - a raw pattern
/// - the token (operators and pattern_parts) of the pattern
/// - the verb invocation
fn check(
    input: &str,
    raw_pattern: &str,
    mut pattern_tokens: Vec<Token<PatternOperator, PatternParts>>,
    verb_invocation: Option<&str>,
) {
    let mut pattern = BeTree::new();
    for token in pattern_tokens.drain(..) {
        pattern.push(token);
    }
    let left = CommandParts {
        raw_pattern: raw_pattern.to_string(),
        pattern,
        verb_invocation: verb_invocation.map(VerbInvocation::from),
    };
    let right = CommandParts::from(input);
    assert_eq!(left, right);
}

#[test]
fn parse_empty() {
    check("", "", vec![], None);
}

#[test]
fn parse_just_semicolon() {
    check(":", "", vec![], Some(""));
}

#[test]
fn parse_no_pattern() {
    check(" cd /", "", vec![], Some("cd /"));
}

#[test]
fn parse_pattern_and_invocation() {
    check("/r cd /", "/r", vec![Token::Atom(pp(&["", "r"]))], Some("cd /"));
}

#[test]
fn allow_extra_spaces_before_invocation() {
    check("  cd /", "", vec![], Some("cd /"));
    check("/r  cd /", "/r", vec![Token::Atom(pp(&["", "r"]))], Some("cd /"));
    check(r#"a\ b   e"#, r#"a\ b"#, vec![Token::Atom(pp(&["a b"]))], Some("e"));
    check("/a:   b", "/a", vec![Token::Atom(pp(&["", "a"]))], Some("b"));
}

#[test]
fn parse_pattern_between_slashes() {
    check(r#"/&"#, r#"/&"#, vec![Token::Atom(pp(&["", "&"]))], None);
    check(
        r#"/&/&r/a(\w-)+/ rm"#,
        r#"/&/&r/a(\w-)+/"#,
        vec![
            Token::Atom(pp(&["", "&", ""])),
            Token::Operator(PatternOperator::And),
            Token::Atom(pp(&["r", r#"a(\w-)+"#, ""])),
        ],
        Some("rm"),
    );
}

#[test]
fn parse_pattern_with_space() {
    check(r#"a\ b"#, r#"a\ b"#, vec![Token::Atom(pp(&["a b"]))], None);
}

#[test]
fn parse_pattern_with_slash() {
    check(
        r#"r/a\ b\//i cd /"#,
        r#"r/a\ b\//i"#,
        vec![Token::Atom(pp(&["r", "a b/", "i"]))],
        Some("cd /"),
    );
}

#[test]
fn parse_fuzzy_pattern_searching_parenthesis() {
    check(r#"\("#, r#"\("#, vec![Token::Atom(pp(&["("]))], None);
}

#[test]
fn parse_regex_pattern_searching_parenthesis() {
    check(r#"/\("#, r#"/\("#, vec![Token::Atom(pp(&["", r#"\("#]))], None);
}

#[test]
fn parse_composite_pattern() {
    check(
        "(/txt$/&!truc)&c/rex",
        "(/txt$/&!truc)&c/rex",
        vec![
            Token::OpeningParenthesis,
            Token::Atom(pp(&["", "txt$", ""])),
            Token::Operator(PatternOperator::And),
            Token::Operator(PatternOperator::Not),
            Token::Atom(pp(&["truc"])),
            Token::ClosingParenthesis,
            Token::Operator(PatternOperator::And),
            Token::Atom(pp(&["c", "rex"])),
        ],
        None,
    );
}

#[test]
fn parse_unclosed_composite_pattern() {
    check(
        r#"!/\.json$/&(c/isize/|c/i32:rm"#,
        r#"!/\.json$/&(c/isize/|c/i32"#,
        vec![
            Token::Operator(PatternOperator::Not),
            Token::Atom(pp(&["", r#"\.json$"#, ""])),
            Token::Operator(PatternOperator::And),
            Token::OpeningParenthesis,
            Token::Atom(pp(&["c", "isize", ""])),
            Token::Operator(PatternOperator::Or),
            Token::Atom(pp(&["c", "i32"])),
        ],
        Some("rm"),
    );
}

#[test]
fn issue_592() {
    check(r#"\t"#, r#"\t"#, vec![Token::Atom(pp(&[r#"\t"#]))], None);
    check(
        r#"r/@(\.[^.]+)+/ cp .."#,
        r#"r/@(\.[^.]+)+/"#,
        vec![Token::Atom(pp(&["r", r#"@(\.[^.]+)+"#, ""]))],
        Some("cp .."),
    );
}

// two colons in pattern positions are something the user searches
#[test]
fn allow_non_escaped_double_colon() {
    check(r#"::"#, r#"::"#, vec![Token::Atom(pp(&[r#"::"#]))], None);
    check(r#":::"#, r#"::"#, vec![Token::Atom(pp(&[r#"::"#]))], Some(""));
    check(r#":::cd c:\"#, r#"::"#, vec![Token::Atom(pp(&[r#"::"#]))], Some(r#"cd c:\"#));
    check(
        r#"and::Sc:cd c:\"#,
        r#"and::Sc"#,
        vec![Token::Atom(pp(&[r#"and::Sc"#]))],
        Some(r#"cd c:\"#),
    );
    check(
        r#"!:: "#,
        r#"!::"#,
        vec![Token::Operator(PatternOperator::Not), Token::Atom(pp(&[r#"::"#]))],
        Some(""),
    );
    check(r#"::a:rm"#, r#"::a"#, vec![Token::Atom(pp(&[r#"::a"#]))], Some("rm"));
}
