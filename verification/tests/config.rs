use soupbin_feed::config::Env;
use soupbin_feed::properties::{InvalidLine, PropertiesFile};

fn pairs(list: &[(&str, &str)]) -> Vec<(String, String)> {
    list.iter().map(|(k, v)| (k.to_string(), v.to_string())).collect()
}

#[test]
fn environments_are_known_by_several_names() {
    for name in ["development", "dev", "sit", "DEV", "Development", "SiT"] {
        assert_eq!(Env::from(name.to_string()), Env::Development);
    }
    for name in ["staging", "stg", "STG", "Staging"] {
        assert_eq!(Env::from(name.to_string()), Env::Staging);
    }
    for name in ["production", "prod", "PROD", "Production"] {
        assert_eq!(Env::from(name.to_string()), Env::Production);
    }
    assert_eq!(Env::from("QA".to_string()), Env::Unknown("qa".to_string()));
    assert_eq!(Env::from("".to_string()), Env::Unknown("".to_string()));
    assert_eq!(Env::from(" dev".to_string()), Env::Unknown(" dev".to_string()));
}

#[test]
fn properties_are_read_line_by_line() {
    let text = "# a comment\n\nname = feed\n! another\nport=9000\n  spaced key  =  spaced value  \n";
    assert_eq!(
        PropertiesFile.parse(text),
        Ok(pairs(&[("name", "feed"), ("port", "9000"), ("spaced key", "spaced value")]))
    );
}

#[test]
fn properties_split_at_the_first_equals_sign() {
    assert_eq!(
        PropertiesFile.parse("url=http://host/?a=b&c=d"),
        Ok(pairs(&[("url", "http://host/?a=b&c=d")]))
    );
    assert_eq!(PropertiesFile.parse("empty="), Ok(pairs(&[("empty", "")])));
    assert_eq!(PropertiesFile.parse("=value"), Ok(pairs(&[("", "value")])));
    assert_eq!(PropertiesFile.parse("="), Ok(pairs(&[("", "")])));
    assert_eq!(
        PropertiesFile.parse("a=1\na=2"),
        Ok(pairs(&[("a", "1"), ("a", "2")]))
    );
}

#[test]
fn properties_take_any_line_ending_and_no_text_at_all() {
    assert_eq!(PropertiesFile.parse(""), Ok(pairs(&[])));
    assert_eq!(PropertiesFile.parse("\n\n\n"), Ok(pairs(&[])));
    assert_eq!(PropertiesFile.parse("   \n\t\n"), Ok(pairs(&[])));
    assert_eq!(
        PropertiesFile.parse("a=1\r\nb=2\r\n"),
        Ok(pairs(&[("a", "1"), ("b", "2")]))
    );
    assert_eq!(PropertiesFile.parse("a=1"), Ok(pairs(&[("a", "1")])));
    assert_eq!(
        PropertiesFile.parse("k\u{e9}y = v\u{e4}lue\u{a0}\n"),
        Ok(pairs(&[("k\u{e9}y", "v\u{e4}lue")]))
    );
    assert_eq!(PropertiesFile.parse("  # indented comment"), Ok(pairs(&[])));
}

#[test]
fn a_line_without_equals_sign_is_invalid() {
    let result = PropertiesFile.parse("a=1\n\n  no pair here  \nb=2");
    assert_eq!(
        result,
        Err(InvalidLine { line_number: 3, line: "no pair here".to_string() })
    );
    assert_eq!(
        result.unwrap_err().to_string(),
        "Invalid line 3: 'no pair here'"
    );
    assert_eq!(
        PropertiesFile.parse("x"),
        Err(InvalidLine { line_number: 1, line: "x".to_string() })
    );
    assert_eq!(
        PropertiesFile.parse("a=1\nb\nc"),
        Err(InvalidLine { line_number: 2, line: "b".to_string() })
    );
}

#[test]
fn properties_files_have_one_extension() {
    assert_eq!(PropertiesFile.file_extensions(), vec!["properties"]);
}
