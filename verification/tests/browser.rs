use dualstream::browser::{browser_arguments, candidate, first_found, CANDIDATES};

#[test]
fn candidates_in_order() {
    assert_eq!(CANDIDATES, 3);
    assert_eq!(candidate(0), Some("google-chrome"));
    assert_eq!(candidate(1), Some("google-chrome-stable"));
    assert_eq!(candidate(2), Some("chrome"));
    assert_eq!(candidate(3), None);
    assert_eq!(candidate(usize::MAX), None);
}

#[test]
fn first_found_takes_the_earliest() {
    assert_eq!(first_found(&vec![None, Some("b"), Some("c")]), Some(1));
    assert_eq!(first_found(&vec![Some("a"), None, Some("c")]), Some(0));
    assert_eq!(first_found(&vec![None, None, Some("c")]), Some(2));
}

#[test]
fn first_found_of_nothing() {
    assert_eq!(first_found::<String>(&vec![None, None, None]), None);
    assert_eq!(first_found::<String>(&Vec::new()), None);
}

#[test]
fn arguments_for_the_default_origin() {
    let arguments =
        browser_arguments("localhost:4433", "47DEQpj8HBSa+/TImW+5JCeuQeRkm5NMpJWZG3hSuFU=");
    assert_eq!(
        arguments,
        vec![
            "--origin-to-force-quic-on=localhost:4433".to_string(),
            "--ignore-certificate-errors-spki-list=47DEQpj8HBSa+/TImW+5JCeuQeRkm5NMpJWZG3hSuFU="
                .to_string(),
            "http://localhost:8080".to_string(),
        ]
    );
}

#[test]
fn arguments_with_empty_parts() {
    assert_eq!(
        browser_arguments("", ""),
        vec![
            "--origin-to-force-quic-on=".to_string(),
            "--ignore-certificate-errors-spki-list=".to_string(),
            "http://localhost:8080".to_string(),
        ]
    );
}
