use rclone_batch::job::{extract_path_field, ResolveStep};
use rclone_batch::node::Node;
use rclone_batch::types::{PathType, Platform, ResolveError};

fn text(x: &str) -> Node {
    Node::Str(x.to_string())
}

fn mapping(pairs: Vec<(&str, Node)>) -> Node {
    Node::Mapping(
        pairs
            .into_iter()
            .map(|(k, v)| (Node::Str(k.to_string()), v))
            .collect(),
    )
}

fn no_facts() -> Vec<(String, bool)> {
    Vec::new()
}

#[test]
fn bare_string_resolves_local() {
    let node = text("/data/in");
    let r = extract_path_field(&node, Platform::Linux, false, &no_facts());
    assert_eq!(
        r,
        Ok(ResolveStep::Resolved(
            PathType::Local("/data/in".to_string()),
            false
        ))
    );
}

#[test]
fn bare_string_ignores_filesystem_facts() {
    // Even when the facts say the path does not exist, a bare string is
    // taken as is: no existence check, no probe, no creation.
    let node = text("/nowhere");
    let facts = vec![("/nowhere".to_string(), false)];
    let r = extract_path_field(&node, Platform::Windows, false, &facts);
    assert_eq!(
        r,
        Ok(ResolveStep::Resolved(
            PathType::Local("/nowhere".to_string()),
            false
        ))
    );
}

#[test]
fn remote_alone_resolves_remote() {
    let node = mapping(vec![("remote", text("gdrive:backup"))]);
    let r = extract_path_field(&node, Platform::Linux, false, &no_facts());
    assert_eq!(
        r,
        Ok(ResolveStep::Resolved(
            PathType::Remote("gdrive:backup".to_string()),
            false
        ))
    );
}

#[test]
fn remote_with_linux_conflicts() {
    let node = mapping(vec![("remote", text("gd:x")), ("linux", text("/x"))]);
    let r = extract_path_field(&node, Platform::Linux, false, &no_facts());
    assert_eq!(r, Err(ResolveError::ConflictingPathVariant));
}

#[test]
fn linux_with_remote_conflicts_in_reverse_order() {
    let node = mapping(vec![("linux", text("/x")), ("remote", text("gd:x"))]);
    let r = extract_path_field(&node, Platform::Linux, true, &no_facts());
    assert_eq!(r, Err(ResolveError::ConflictingPathVariant));
}

#[test]
fn remote_with_windows_conflicts() {
    let node = mapping(vec![("windows", text("C:\\x")), ("remote", text("gd:x"))]);
    let r = extract_path_field(&node, Platform::Windows, false, &no_facts());
    assert_eq!(r, Err(ResolveError::ConflictingPathVariant));
}

#[test]
fn missing_os_variant_fails() {
    let node = mapping(vec![("windows", text("C:\\data"))]);
    let r = extract_path_field(&node, Platform::Linux, false, &no_facts());
    assert_eq!(r, Err(ResolveError::MissingOsVariant));
}

#[test]
fn os_variant_picks_platform_key() {
    let node = mapping(vec![("linux", text("/l")), ("windows", text("C:\\w"))]);
    let facts = vec![("/l".to_string(), true), ("C:\\w".to_string(), true)];
    let on_linux = extract_path_field(&node, Platform::Linux, false, &facts);
    let on_windows = extract_path_field(&node, Platform::Windows, false, &facts);
    assert_eq!(
        on_linux,
        Ok(ResolveStep::Resolved(PathType::Local("/l".to_string()), false))
    );
    assert_eq!(
        on_windows,
        Ok(ResolveStep::Resolved(
            PathType::Local("C:\\w".to_string()),
            false
        ))
    );
}

#[test]
fn unknown_path_asks_for_probe() {
    let node = mapping(vec![("linux", text("/maybe"))]);
    let r = extract_path_field(&node, Platform::Linux, false, &no_facts());
    assert_eq!(r, Ok(ResolveStep::NeedProbe("/maybe".to_string())));
}

#[test]
fn missing_path_without_creation_fails() {
    let node = mapping(vec![("linux", text("/gone"))]);
    let facts = vec![("/gone".to_string(), false)];
    let r = extract_path_field(&node, Platform::Linux, false, &facts);
    assert_eq!(r, Err(ResolveError::PathNotFound("/gone".to_string())));
}

#[test]
fn missing_path_with_creation_succeeds_and_asks_creation() {
    let node = mapping(vec![("linux", text("/fresh"))]);
    let facts = vec![("/fresh".to_string(), false)];
    let r = extract_path_field(&node, Platform::Linux, true, &facts);
    assert_eq!(
        r,
        Ok(ResolveStep::Resolved(
            PathType::Local("/fresh".to_string()),
            true
        ))
    );
}

#[test]
fn re_resolving_after_creation_is_idempotent() {
    // Once the file exists, resolving the same node again succeeds and
    // asks for no further creation, with or without the permission.
    let node = mapping(vec![("linux", text("/fresh"))]);
    let facts = vec![("/fresh".to_string(), true)];
    for create_file in [false, true] {
        let r = extract_path_field(&node, Platform::Linux, create_file, &facts);
        assert_eq!(
            r,
            Ok(ResolveStep::Resolved(
                PathType::Local("/fresh".to_string()),
                false
            ))
        );
    }
}

#[test]
fn remote_value_must_be_string() {
    let node = mapping(vec![("remote", Node::List(vec![text("gd:x")]))]);
    let r = extract_path_field(&node, Platform::Linux, false, &no_facts());
    assert_eq!(r, Err(ResolveError::MalformedValue));
}

#[test]
fn os_variant_value_must_be_string() {
    let node = mapping(vec![("linux", Node::Other)]);
    let r = extract_path_field(&node, Platform::Linux, false, &no_facts());
    assert_eq!(r, Err(ResolveError::MalformedValue));
}

#[test]
fn scalar_without_string_form_is_malformed() {
    let r = extract_path_field(&Node::Other, Platform::Linux, false, &no_facts());
    assert_eq!(r, Err(ResolveError::MalformedValue));
}

#[test]
fn sequence_node_is_malformed() {
    let node = Node::List(vec![text("/a")]);
    let r = extract_path_field(&node, Platform::Linux, false, &no_facts());
    assert_eq!(r, Err(ResolveError::MalformedValue));
}

#[test]
fn duplicate_keys_first_wins() {
    let node = Node::Mapping(vec![
        (Node::Str("remote".to_string()), text("first:one")),
        (Node::Str("remote".to_string()), text("second:two")),
    ]);
    let r = extract_path_field(&node, Platform::Linux, false, &no_facts());
    assert_eq!(
        r,
        Ok(ResolveStep::Resolved(
            PathType::Remote("first:one".to_string()),
            false
        ))
    );
}
