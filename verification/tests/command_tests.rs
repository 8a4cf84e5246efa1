use stress_harness::command::build_command;
use stress_harness::command::copy_bytes;
use stress_harness::command::placeholder_bytes;
use stress_harness::command::substitute;
use stress_harness::command::tokenize;
use stress_harness::command::with_lazy_suffix;

fn toks(items: &[&[u8]]) -> Vec<Vec<u8>> {
    items.iter().map(|t| t.to_vec()).collect()
}

#[test]
fn placeholder_is_argv0_token() {
    assert_eq!(placeholder_bytes(), b"{argv0}".to_vec());
}

#[test]
fn substitute_replaces_single_occurrence() {
    let r = substitute(
        &b"cargo run --release --bin {argv0}".to_vec(),
        &placeholder_bytes(),
        &b"sol".to_vec(),
    );
    assert_eq!(r, b"cargo run --release --bin sol".to_vec());
}

#[test]
fn substitute_replaces_every_occurrence() {
    let r = substitute(&b"{argv0}/{argv0}".to_vec(), &placeholder_bytes(), &b"x".to_vec());
    assert_eq!(r, b"x/x".to_vec());
}

#[test]
fn substitute_without_occurrence_copies() {
    let r = substitute(&b"gen.py".to_vec(), &placeholder_bytes(), &b"sol".to_vec());
    assert_eq!(r, b"gen.py".to_vec());
}

#[test]
fn substitute_does_not_rescan_replaced_text() {
    let r = substitute(&b"aa a".to_vec(), &b"a a".to_vec(), &b"a".to_vec());
    assert_eq!(r, b"aa".to_vec());
}

#[test]
fn tokenize_splits_on_whitespace_runs() {
    let r = tokenize(&b"  a  bb\tc \n".to_vec());
    assert_eq!(r, toks(&[b"a", b"bb", b"c"]));
}

#[test]
fn tokenize_of_empty_is_empty() {
    assert_eq!(tokenize(&b"".to_vec()), toks(&[]));
    assert_eq!(tokenize(&b" \t\n".to_vec()), toks(&[]));
}

#[test]
fn tokenize_single_token() {
    assert_eq!(tokenize(&b"gen.py".to_vec()), toks(&[b"gen.py"]));
}

#[test]
fn build_command_substitutes_then_tokenizes() {
    let r = build_command(&b"cargo run --release --bin {argv0}".to_vec(), &b"sol".to_vec());
    assert_eq!(r, toks(&[b"cargo", b"run", b"--release", b"--bin", b"sol"]));
}

#[test]
fn build_command_name_may_add_tokens() {
    let r = build_command(&b"run {argv0}".to_vec(), &b"a b".to_vec());
    assert_eq!(r, toks(&[b"run", b"a", b"b"]));
}

#[test]
fn lazy_suffix_is_appended() {
    assert_eq!(with_lazy_suffix(&b"sol".to_vec()), b"sol_lazy".to_vec());
}

#[test]
fn copy_bytes_copies() {
    assert_eq!(copy_bytes(&b"abc".to_vec()), b"abc".to_vec());
}
