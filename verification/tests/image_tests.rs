use container_orchestrator::errors::LifecycleError;
use container_orchestrator::image::parse_image_reference;

#[test]
fn parses_registry_repository_and_tag() {
    let r = parse_image_reference("docker.io/library/alpine:latest").unwrap();
    assert_eq!(r.reference, "docker.io/library/alpine:latest");
    assert_eq!(r.registry, b"docker.io".to_vec());
    assert_eq!(r.repository, b"library/alpine".to_vec());
    assert_eq!(r.tag, Some(b"latest".to_vec()));
    assert_eq!(r.digest, None);
}

#[test]
fn parses_reference_without_tag() {
    let r = parse_image_reference("docker.io/library/alpine").unwrap();
    assert_eq!(r.registry, b"docker.io".to_vec());
    assert_eq!(r.repository, b"library/alpine".to_vec());
    assert_eq!(r.tag, None);
    assert_eq!(r.digest, None);
}

#[test]
fn parses_registry_with_port() {
    let r = parse_image_reference("localhost:5000/myimage:dev").unwrap();
    assert_eq!(r.registry, b"localhost:5000".to_vec());
    assert_eq!(r.repository, b"myimage".to_vec());
    assert_eq!(r.tag, Some(b"dev".to_vec()));
}

#[test]
fn parses_digest_reference() {
    let r = parse_image_reference("docker.io/library/alpine@sha256:abc123").unwrap();
    assert_eq!(r.registry, b"docker.io".to_vec());
    assert_eq!(r.repository, b"library/alpine".to_vec());
    assert_eq!(r.tag, None);
    assert_eq!(r.digest, Some(b"sha256:abc123".to_vec()));
}

#[test]
fn parses_tag_and_digest_together() {
    let r = parse_image_reference("docker.io/library/alpine:3.19@sha256:abc").unwrap();
    assert_eq!(r.tag, Some(b"3.19".to_vec()));
    assert_eq!(r.digest, Some(b"sha256:abc".to_vec()));
}

#[test]
fn rejects_invalid_references() {
    let bad = [
        "",
        "alpine",
        "alpine:latest",
        "/library/alpine:latest",
        "docker.io/",
        "docker.io/library/alpine:",
        "docker.io/library/alpine@",
        "docker.io/a:b/c",
    ];
    for text in bad {
        assert!(
            matches!(parse_image_reference(text), Err(LifecycleError::InvalidSpecError)),
            "expected {:?} to be rejected",
            text,
        );
    }
}
