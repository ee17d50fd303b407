use rust_languagetool::java::{parse_java_major, probe_java_version, JavaOutput};

#[test]
fn parse_java_major_modern() {
    let out = r#"openjdk version "17.0.13" 2024-10-15\nOpenJDK Runtime Environment"#;
    assert_eq!(parse_java_major(out), Some(17));
}

#[test]
fn parse_java_major_old_style() {
    let out = r#"java version "1.8.0_362""#;
    assert_eq!(parse_java_major(out), Some(8));
}

#[test]
fn parse_java_major_21() {
    let out = r#"openjdk version "21.0.1" 2023-10-17"#;
    assert_eq!(parse_java_major(out), Some(21));
}

#[test]
fn version_on_a_later_line() {
    assert_eq!(parse_java_major("Picked up JAVA_OPTS\r\nopenjdk version \"11.0.2\"\r\n"), Some(11));
    assert_eq!(parse_java_major("one \" quote\nopenjdk version \"17\"\n"), Some(17));
    assert_eq!(parse_java_major("a\n\"\n\nopenjdk version \"17\"\n"), Some(17));
    assert_eq!(parse_java_major("first \"9\"\nsecond \"17\""), Some(9));
}

#[test]
fn no_version() {
    assert_eq!(parse_java_major(""), None);
    assert_eq!(parse_java_major("command not found"), None);
    assert_eq!(parse_java_major("java version \"17"), None);
    assert_eq!(parse_java_major("java version \"\""), None);
    assert_eq!(parse_java_major("java version \"17-ea\""), None);
    assert_eq!(parse_java_major("java version \"1\""), None);
    assert_eq!(parse_java_major("java version \"1.x\""), None);
    assert_eq!(parse_java_major("java version \"-17\""), None);
    assert_eq!(parse_java_major("java version \"x\"\njava version \"17\""), None);
}

#[test]
fn numbers_are_read_as_integers_are() {
    assert_eq!(parse_java_major("\"+17.1\""), Some(17));
    assert_eq!(parse_java_major("\"+\""), None);
    assert_eq!(parse_java_major("\"017\""), Some(17));
    assert_eq!(parse_java_major("\"4294967295\""), Some(4294967295));
    assert_eq!(parse_java_major("\"4294967296\""), None);
    assert_eq!(parse_java_major("\"99999999999999999999\""), None);
    assert_eq!(parse_java_major("\"1.17.3\""), Some(17));
}

#[test]
fn probe_reads_both_streams() {
    let on_stderr = JavaOutput { stderr: b"openjdk version \"17.0.1\"\n".to_vec(), stdout: Vec::new() };
    assert_eq!(probe_java_version(&Some(on_stderr)), 17);
    let on_stdout = JavaOutput { stderr: b"warning\n".to_vec(), stdout: b"java \"21\"".to_vec() };
    assert_eq!(probe_java_version(&Some(on_stdout)), 21);
    let split = JavaOutput { stderr: b"java \"1".to_vec(), stdout: b"9.0\"".to_vec() };
    assert_eq!(probe_java_version(&Some(split)), 19);
}

#[test]
fn probe_survives_bytes_that_are_no_text() {
    let odd = JavaOutput { stderr: vec![0xff, 0xfe, b'"', b'1', b'7', b'"'], stdout: Vec::new() };
    assert_eq!(probe_java_version(&Some(odd)), 17);
    let inside = JavaOutput { stderr: vec![b'"', b'1', 0xff, b'7', b'"'], stdout: Vec::new() };
    assert_eq!(probe_java_version(&Some(inside)), 0);
}

#[test]
fn probe_that_fails_counts_as_version_zero() {
    assert_eq!(probe_java_version(&None), 0);
    let nothing = JavaOutput { stderr: Vec::new(), stdout: b"no version".to_vec() };
    assert_eq!(probe_java_version(&Some(nothing)), 0);
}
