use mcvcli::text::{characters, contains, ends_with, shorten, starts_with};

#[test]
fn characters_are_those_of_the_text() {
    assert_eq!(characters(""), Vec::<char>::new());
    assert_eq!(characters("a-b"), vec!['a', '-', 'b']);
    assert_eq!(characters("né"), vec!['n', 'é']);
}

#[test]
fn a_suffix_ends_the_text() {
    assert!(ends_with("forge-1.20.1-server.jar", "-server.jar"));
    assert!(ends_with("forge-universal.jar", "-universal.jar"));
    assert!(!ends_with("forge-server.jar.bak", "-server.jar"));
    assert!(!ends_with("r.jar", "-server.jar"));
    assert!(ends_with("anything", ""));
    assert!(ends_with("", ""));
    assert!(!ends_with("", "x"));
    assert!(ends_with("-server.jar", "-server.jar"));
}

#[test]
fn a_prefix_begins_the_text() {
    assert!(starts_with(".mcvcli.json", ".mcvcli"));
    assert!(starts_with(".mcvcli", ".mcvcli"));
    assert!(!starts_with("mcvcli.json", ".mcvcli"));
    assert!(!starts_with(".mcv", ".mcvcli"));
    assert!(starts_with("x", ""));
}

#[test]
fn a_substring_stands_anywhere() {
    assert!(contains("JAVA_HOME=/usr/lib/jvm/java-21", "java"));
    assert!(contains("java", "java"));
    assert!(contains("xjava", "java"));
    assert!(contains("javax", "java"));
    assert!(!contains("JAVA_HOME=/opt", "java"));
    assert!(!contains("jav", "java"));
    assert!(!contains("ja va", "java"));
    assert!(contains("", ""));
    assert!(contains("é-java-é", "java"));
    assert!(!contains("", "java"));
}

#[test]
fn a_long_text_is_cut_and_marked() {
    assert_eq!(shorten("mods/sodium.jar", 4), "mods...");
    assert_eq!(shorten("mods", 4), "mods");
    assert_eq!(shorten("mods", 9), "mods");
    assert_eq!(shorten("möds/é.jar", 2), "mö...");
    assert_eq!(shorten("mods", 0), "...");
    assert_eq!(shorten("", 0), "");
}
