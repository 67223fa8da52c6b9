use albino::util::{detect_target, Target};

fn s(x: &str) -> String {
    x.to_string()
}

#[test]
fn no_extension_defaults_to_whitespace() {
    assert_eq!(detect_target(None, &s("README")), Some(Target::Whitespace));
    assert_eq!(detect_target(None, &s("")), Some(Target::Whitespace));
    assert_eq!(detect_target(None, &s("program")), Some(Target::Whitespace));
}

#[test]
fn known_extensions_resolve() {
    assert_eq!(detect_target(None, &s("x.asm")), Some(Target::Assembly));
    assert_eq!(detect_target(None, &s("x.bf")), Some(Target::Brainfuck));
    assert_eq!(detect_target(None, &s("x.dt")), Some(Target::DT));
    assert_eq!(detect_target(None, &s("x.ook")), Some(Target::Ook));
    assert_eq!(detect_target(None, &s("x.ws")), Some(Target::Whitespace));
}

#[test]
fn extension_after_last_dot_decides() {
    assert_eq!(detect_target(None, &s("a.b.ook")), Some(Target::Ook));
    assert_eq!(detect_target(None, &s("archive.bf.dt")), Some(Target::DT));
    assert_eq!(detect_target(None, &s("dir.name.asm")), Some(Target::Assembly));
}

#[test]
fn unknown_extension_defaults_to_whitespace() {
    assert_eq!(detect_target(None, &s("prog.txt")), Some(Target::Whitespace));
    assert_eq!(detect_target(None, &s("prog.")), Some(Target::Whitespace));
    assert_eq!(detect_target(None, &s("prog.BF")), Some(Target::Whitespace));
    assert_eq!(detect_target(None, &s("prog.brainfuck")), Some(Target::Whitespace));
}

#[test]
fn explicit_token_overrides_filename() {
    assert_eq!(detect_target(Some(s("bf")), &s("prog.ws")), Some(Target::Brainfuck));
    assert_eq!(detect_target(Some(s("asm")), &s("prog.ook")), Some(Target::Assembly));
    assert_eq!(detect_target(Some(s("dt")), &s("README")), Some(Target::DT));
    assert_eq!(detect_target(Some(s("ook")), &s("x.bf")), Some(Target::Ook));
    assert_eq!(detect_target(Some(s("ws")), &s("x.bf")), Some(Target::Whitespace));
}

#[test]
fn invalid_token_is_unresolved() {
    assert_eq!(detect_target(Some(s("xyz")), &s("prog.bf")), None);
    assert_eq!(detect_target(Some(s("")), &s("prog.bf")), None);
    assert_eq!(detect_target(Some(s("BF")), &s("prog.bf")), None);
    assert_eq!(detect_target(Some(s("whitespace")), &s("README")), None);
}
