use cleanup::credentials::{
    deletion_argument, describe_failed_deletion, failure_detail, is_affirmative, is_confirmed,
    is_target_header, parse_cmdkey_output, parse_cmdkey_targets, CredentialTally,
};

#[test]
fn parses_portuguese_listing() {
    let output = "\r\nDestino atual:\r\n\r\n    Credencial do Windows: Domain:target=MEUSERVIDOR\r\n    Tipo: Domínio\r\n    Usuário: usuario\r\n";
    assert_eq!(parse_cmdkey_targets(output), vec!["Domain:target=MEUSERVIDOR".to_string()]);
}

#[test]
fn parses_english_listing() {
    let output = "Currently stored credentials:\n\n    Target: LegacyGeneric:target=meu_app\n    Type: Generic\n    User: user@email.com\n";
    assert_eq!(parse_cmdkey_targets(output), vec!["LegacyGeneric:target=meu_app".to_string()]);
}

#[test]
fn parses_several_credentials_in_order() {
    let output = "Target: a\nType: Generic\nTarget: b\nGeneric Credential: c\nWindows Credential: d\nCertificate Credential: e\nCredencial de certificado: f\nDestino: g";
    assert_eq!(
        parse_cmdkey_targets(output),
        vec!["a", "b", "c", "d", "e", "f", "g"].into_iter().map(String::from).collect::<Vec<_>>()
    );
}

#[test]
fn header_is_matched_ignoring_case_and_accents_in_upper_case() {
    let output = "   CREDENCIAL GENÉRICA: minha:chave   \n  TARGET:   spaced  ";
    assert_eq!(
        parse_cmdkey_targets(output),
        vec!["minha:chave".to_string(), "spaced".to_string()]
    );
}

#[test]
fn name_follows_the_first_colon_space() {
    assert_eq!(
        parse_cmdkey_targets("Target: Domain: inner: x"),
        vec!["Domain: inner: x".to_string()]
    );
}

#[test]
fn lines_without_a_name_are_ignored() {
    assert!(parse_cmdkey_targets("").is_empty());
    assert!(parse_cmdkey_targets("Target:").is_empty());
    assert!(parse_cmdkey_targets("Target:    ").is_empty());
    assert!(parse_cmdkey_targets("Target:x").is_empty());
    assert!(parse_cmdkey_targets("Destino atual: nada").is_empty());
    assert!(parse_cmdkey_targets("Type: Generic\nUser: someone").is_empty());
}

#[test]
fn joined_listings_give_joined_credentials() {
    let a = "Target: one\nType: Generic";
    let b = "Credencial do Windows: two";
    let joined = format!("{}\n{}", a, b);
    let mut expected = parse_cmdkey_targets(a);
    expected.extend(parse_cmdkey_targets(b));
    assert_eq!(parse_cmdkey_targets(&joined), expected);
}

#[test]
fn parsed_credentials_all_yield_a_deletion() {
    let targets = parse_cmdkey_targets("Target:  x \nTarget: y\n");
    for t in &targets {
        assert_eq!(deletion_argument(t), Some(format!("/delete:{}", t)));
    }
    assert_eq!(targets.len(), 2);
}

#[test]
fn parses_raw_output_bytes() {
    let bytes = "Destino:  Domínio:alvo\n".as_bytes();
    assert_eq!(parse_cmdkey_output(bytes), vec!["Domínio:alvo".to_string()]);
}

#[test]
fn invalid_utf8_is_replaced() {
    let bytes = b"Target: a\xffb\n";
    assert_eq!(parse_cmdkey_output(bytes), vec!["a\u{FFFD}b".to_string()]);
}

#[test]
fn headers_are_recognized() {
    assert!(is_target_header("target: x"));
    assert!(is_target_header("credencial genérica: x"));
    assert!(!is_target_header("Target: x"));
    assert!(!is_target_header("destino atual:"));
    assert!(!is_target_header(""));
}

#[test]
fn confirmation_answers() {
    assert!(is_confirmed("s\n"));
    assert!(is_confirmed("  SIM \r\n"));
    assert!(is_confirmed("Y"));
    assert!(is_confirmed("yes"));
    assert!(!is_confirmed("n"));
    assert!(!is_confirmed(""));
    assert!(!is_confirmed("\n"));
    assert!(!is_confirmed("sim!"));
    assert!(!is_confirmed("no"));
}

#[test]
fn affirmative_words() {
    assert!(is_affirmative("s"));
    assert!(is_affirmative("sim"));
    assert!(is_affirmative("y"));
    assert!(is_affirmative("yes"));
    assert!(!is_affirmative("YES"));
    assert!(!is_affirmative(""));
}

#[test]
fn deletion_arguments() {
    assert_eq!(deletion_argument("  LegacyGeneric:target=x \t"), Some("/delete:LegacyGeneric:target=x".to_string()));
    assert_eq!(deletion_argument("   "), None);
    assert_eq!(deletion_argument(""), None);
}

#[test]
fn failure_details() {
    assert_eq!(failure_detail(""), "falha desconhecida");
    assert_eq!(failure_detail(" \r\n"), "falha desconhecida");
    assert_eq!(failure_detail("  Elemento não encontrado. \r\n"), "Elemento não encontrado.");
    assert_eq!(describe_failed_deletion(b"  boom \n"), "boom");
    assert_eq!(describe_failed_deletion(b""), "falha desconhecida");
}

#[test]
fn tally_counts() {
    let mut t = CredentialTally::new();
    assert_eq!((t.deleted, t.errors), (0, 0));
    t.record_deleted();
    t.record_deleted();
    t.record_error();
    assert_eq!((t.deleted, t.errors), (2, 1));
}
