use cozy::error::ResolveError;
use cozy::manifest::{
    descriptor_from_manifest, extract_descriptor, parse_manifest, ArtifactDescriptor,
    ManifestNode, ManifestValue,
};

fn digest_hex() -> String {
    "ab".repeat(64)
}

fn text_var(name: &str, value: &str) -> ManifestNode {
    ManifestNode::Variable(name.to_string(), ManifestValue::Text(value.to_string()))
}

#[test]
fn url_section_gives_descriptor() {
    let text = format!(
        "url {{ checksum: \"sha512={}\" src: \"https://example.org/pkg-1.0.0.tar.gz\" }}",
        digest_hex()
    );
    assert_eq!(
        descriptor_from_manifest(&text),
        Ok(ArtifactDescriptor {
            checksum: format!("sha512={}", digest_hex()),
            url: "https://example.org/pkg-1.0.0.tar.gz".to_string(),
        })
    );
}

#[test]
fn fields_found_by_name_in_any_order() {
    let text = "opam-version: \"2.0\"\nname: \"pkg\"\n# a comment\nurl {\n  src: \"https://h/a.tbz\"\n  checksum: \"sha512=00\"\n}\n";
    assert_eq!(
        descriptor_from_manifest(text),
        Ok(ArtifactDescriptor { checksum: "sha512=00".to_string(), url: "https://h/a.tbz".to_string() })
    );
}

#[test]
fn first_qualifying_section_wins() {
    let text = "url { checksum: \"sha512=01\" src: \"https://one/a.tgz\" }\nextra-source \"b\" { checksum: \"sha512=02\" src: \"https://two/b.tgz\" }\n";
    assert_eq!(
        descriptor_from_manifest(text),
        Ok(ArtifactDescriptor { checksum: "sha512=01".to_string(), url: "https://one/a.tgz".to_string() })
    );
}

#[test]
fn no_qualifying_section_is_not_found() {
    assert_eq!(
        descriptor_from_manifest("name: \"pkg\"\nversion: \"1.0\"\n"),
        Err(ResolveError::DescriptorNotFound)
    );
    assert_eq!(
        descriptor_from_manifest("url { src: \"https://h/a.tgz\" }"),
        Err(ResolveError::DescriptorNotFound)
    );
    assert_eq!(descriptor_from_manifest(""), Err(ResolveError::DescriptorNotFound));
}

#[test]
fn non_string_checksum_is_not_found() {
    let text = "url { src: \"https://h/a.tgz\" checksum: [\"md5=00\" \"sha512=00\"] }";
    assert_eq!(descriptor_from_manifest(text), Err(ResolveError::DescriptorNotFound));
}

#[test]
fn syntax_error_is_malformed() {
    assert_eq!(descriptor_from_manifest("url {"), Err(ResolveError::MalformedManifest));
    assert_eq!(descriptor_from_manifest("url { src: }"), Err(ResolveError::MalformedManifest));
}

#[test]
fn parse_keeps_document_order() {
    let nodes = parse_manifest("a: \"1\"\nsec { x: \"2\" y: true z: \"3\" }\n").unwrap();
    assert_eq!(nodes.len(), 2);
    match &nodes[0] {
        ManifestNode::Variable(n, v) => {
            assert_eq!(n, "a");
            assert_eq!(v, &ManifestValue::Text("1".to_string()));
        }
        _ => panic!("expected a variable"),
    }
    match &nodes[1] {
        ManifestNode::Section(n, kids) => {
            assert_eq!(n, "sec");
            let names: Vec<&str> = kids
                .iter()
                .map(|k| match k {
                    ManifestNode::Variable(n, _) => n.as_str(),
                    ManifestNode::Section(n, _) => n.as_str(),
                })
                .collect();
            assert_eq!(names, vec!["x", "y", "z"]);
            match &kids[1] {
                ManifestNode::Variable(_, v) => assert_eq!(v, &ManifestValue::Other),
                _ => panic!("expected a variable"),
            }
        }
        _ => panic!("expected a section"),
    }
}

#[test]
fn section_starting_with_subsection_does_not_qualify() {
    let nodes = vec![
        ManifestNode::Section(
            "deps".to_string(),
            vec![ManifestNode::Section("inner".to_string(), vec![]), text_var("checksum", "sha512=00"), text_var("src", "https://a/x")],
        ),
        ManifestNode::Section("url".to_string(), vec![text_var("checksum", "sha512=11"), text_var("src", "https://b/y")]),
    ];
    assert_eq!(
        extract_descriptor(&nodes),
        Ok(ArtifactDescriptor { checksum: "sha512=11".to_string(), url: "https://b/y".to_string() })
    );
}

#[test]
fn later_section_with_pair_is_used() {
    let nodes = vec![
        ManifestNode::Section("x".to_string(), vec![text_var("a", "1"), text_var("b", "2")]),
        ManifestNode::Section("url".to_string(), vec![text_var("checksum", "sha512=11"), text_var("src", "https://b/y")]),
    ];
    assert_eq!(
        extract_descriptor(&nodes),
        Ok(ArtifactDescriptor { checksum: "sha512=11".to_string(), url: "https://b/y".to_string() })
    );
}

#[test]
fn list_checksum_section_is_skipped() {
    let text = "url { src: \"https://h/a.tgz\" checksum: [\"md5=00\" \"sha512=00\"] }\nextra-source \"b\" { checksum: \"sha512=02\" src: \"https://two/b.tgz\" }\n";
    assert_eq!(
        descriptor_from_manifest(text),
        Ok(ArtifactDescriptor { checksum: "sha512=02".to_string(), url: "https://two/b.tgz".to_string() })
    );
}

#[test]
fn ill_formed_pair_is_not_found() {
    assert_eq!(descriptor_from_manifest("url { checksum: \"\" src: \"\" }"), Err(ResolveError::DescriptorNotFound));
    assert_eq!(
        descriptor_from_manifest("url { checksum: \"sha512\" src: \"https://h/a.tgz\" }"),
        Err(ResolveError::DescriptorNotFound)
    );
    assert_eq!(
        descriptor_from_manifest("url { checksum: \"=00\" src: \"https://h/a.tgz\" }"),
        Err(ResolveError::DescriptorNotFound)
    );
    assert_eq!(
        descriptor_from_manifest("url { checksum: \"sha512=\" src: \"https://h/a.tgz\" }"),
        Err(ResolveError::DescriptorNotFound)
    );
    assert_eq!(
        descriptor_from_manifest("url { checksum: \"sha512=00\" src: \"a.tgz\" }"),
        Err(ResolveError::DescriptorNotFound)
    );
    assert_eq!(
        descriptor_from_manifest("url { checksum: \"sha512=00\" src: \"https://\" }"),
        Err(ResolveError::DescriptorNotFound)
    );
}

#[test]
fn text_the_parser_cannot_take_is_malformed() {
    assert_eq!(descriptor_from_manifest("x: -1"), Err(ResolveError::MalformedManifest));
    assert_eq!(descriptor_from_manifest("x: 99999999999999999999"), Err(ResolveError::MalformedManifest));
    assert_eq!(descriptor_from_manifest("x: \"200\\n\""), Err(ResolveError::MalformedManifest));
    assert_eq!(descriptor_from_manifest("x: \"\\a\\b\""), Err(ResolveError::MalformedManifest));
    assert_eq!(descriptor_from_manifest("x: 1-2"), Err(ResolveError::MalformedManifest));
    assert_eq!(descriptor_from_manifest("x: 1234567890"), Err(ResolveError::MalformedManifest));
    assert_eq!(descriptor_from_manifest("x: \"\"\"a\\b\"\"\""), Err(ResolveError::MalformedManifest));
    assert_eq!(descriptor_from_manifest("(* c *) x: 1"), Err(ResolveError::MalformedManifest));
    let deep = format!("x: {}1{}", "[".repeat(5000), "]".repeat(5000));
    assert_eq!(descriptor_from_manifest(&deep), Err(ResolveError::MalformedManifest));
}

#[test]
fn triple_quoted_strings_are_read() {
    let text = "description: \"\"\"\nA \"quoted\" word, \"\" and -1 (* here *)\n\"\"\"\nx: \"\"\nurl { checksum: \"sha512=00\" src: \"https://h/a.tgz\" }";
    assert_eq!(
        descriptor_from_manifest(text),
        Ok(ArtifactDescriptor { checksum: "sha512=00".to_string(), url: "https://h/a.tgz".to_string() })
    );
}

#[test]
fn identifiers_with_dashes_and_digits_are_read() {
    let text = "x-1: \"a\"\nbuild-2-test1234567890: 12\nurl { checksum: \"sha512=00\" src: \"https://h/a.tgz\" }";
    assert_eq!(
        descriptor_from_manifest(text),
        Ok(ArtifactDescriptor { checksum: "sha512=00".to_string(), url: "https://h/a.tgz".to_string() })
    );
}

#[test]
fn dashes_and_digits_inside_strings_and_comments_are_fine() {
    let text = "# pkg-1 build-2\nversion: \"1.0-2\"\nurl { src: \"https://h/pkg-1.0.0.tar.gz\" checksum: \"sha512=99999999999999999999\" }";
    assert_eq!(
        descriptor_from_manifest(text),
        Ok(ArtifactDescriptor {
            checksum: "sha512=99999999999999999999".to_string(),
            url: "https://h/pkg-1.0.0.tar.gz".to_string(),
        })
    );
}

#[test]
fn extra_variables_before_keys_are_skipped() {
    let nodes = vec![ManifestNode::Section(
        "url".to_string(),
        vec![text_var("mirrors", "m"), text_var("note", "n"), text_var("src", "https://c/z.tgz"), text_var("checksum", "sha512=22")],
    )];
    assert_eq!(
        extract_descriptor(&nodes),
        Ok(ArtifactDescriptor { checksum: "sha512=22".to_string(), url: "https://c/z.tgz".to_string() })
    );
}
