use tonic_prometheus_layer::identity::{service_method_separator, CallIdentity};

fn identity(service: &str, method: &str) -> CallIdentity {
    CallIdentity { service: service.to_owned(), method: method.to_owned() }
}

#[test]
fn path_with_service_and_method_is_split() {
    assert_eq!(service_method_separator("/pkg.Service/Method"), Some(12));
    assert_eq!(CallIdentity::from_path("/pkg.Service/Method"), identity("pkg.Service", "Method"));
}

#[test]
fn path_without_leading_slash_is_the_method() {
    assert_eq!(service_method_separator("noslash"), None);
    assert_eq!(CallIdentity::from_path("noslash"), identity("", "noslash"));
}

#[test]
fn path_without_second_slash_is_the_method() {
    assert_eq!(service_method_separator("/onlyservice"), None);
    assert_eq!(CallIdentity::from_path("/onlyservice"), identity("", "/onlyservice"));
}

#[test]
fn slash_inside_a_path_without_leading_slash_does_not_count() {
    assert_eq!(service_method_separator("pkg.Service/Method"), None);
    assert_eq!(CallIdentity::from_path("pkg.Service/Method"), identity("", "pkg.Service/Method"));
}

#[test]
fn only_the_first_separator_counts() {
    assert_eq!(service_method_separator("/a/b/c"), Some(2));
    assert_eq!(CallIdentity::from_path("/a/b/c"), identity("a", "b/c"));
}

#[test]
fn empty_and_short_paths() {
    assert_eq!(service_method_separator(""), None);
    assert_eq!(CallIdentity::from_path(""), identity("", ""));
    assert_eq!(service_method_separator("/"), None);
    assert_eq!(CallIdentity::from_path("/"), identity("", "/"));
    assert_eq!(service_method_separator("//"), Some(1));
    assert_eq!(CallIdentity::from_path("//"), identity("", ""));
    assert_eq!(service_method_separator("/a/"), Some(2));
    assert_eq!(CallIdentity::from_path("/a/"), identity("a", ""));
    assert_eq!(service_method_separator("//m"), Some(1));
    assert_eq!(CallIdentity::from_path("//m"), identity("", "m"));
}

#[test]
fn positions_are_counted_in_characters() {
    let path = "/gr\u{fc}\u{df}e.Dienst/Gr\u{fc}\u{df}en";
    assert_eq!(service_method_separator(path), Some(13));
    assert_eq!(CallIdentity::from_path(path), identity("gr\u{fc}\u{df}e.Dienst", "Gr\u{fc}\u{df}en"));
}

#[test]
fn split_cuts_at_the_given_position() {
    assert_eq!(CallIdentity::split("/pkg.Service/Method", Some(12)), identity("pkg.Service", "Method"));
    assert_eq!(CallIdentity::split("/pkg.Service/Method", Some(4)), identity("pkg", "Service/Method"));
    assert_eq!(CallIdentity::split("/pkg.Service/Method", Some(1)), identity("", "kg.Service/Method"));
    assert_eq!(CallIdentity::split("/pkg.Service/Method", Some(18)), identity("pkg.Service/Metho", ""));
}

#[test]
fn split_without_a_position_inside_the_path_keeps_the_path() {
    let whole = identity("", "/pkg.Service/Method");
    assert_eq!(CallIdentity::split("/pkg.Service/Method", None), whole);
    assert_eq!(CallIdentity::split("/pkg.Service/Method", Some(0)), whole);
    assert_eq!(CallIdentity::split("/pkg.Service/Method", Some(19)), whole);
    assert_eq!(CallIdentity::split("/pkg.Service/Method", Some(usize::MAX)), whole);
    assert_eq!(CallIdentity::split("", Some(1)), identity("", ""));
}

#[test]
fn metadata_names_service_and_method() {
    let named = Some(("grpc.health.v1.Health".to_owned(), "Check".to_owned()));
    assert_eq!(CallIdentity::from_metadata(named), identity("grpc.health.v1.Health", "Check"));
    assert_eq!(CallIdentity::from_metadata(None), identity("", ""));
}

#[test]
fn new_keeps_service_and_method() {
    assert_eq!(CallIdentity::new("s".to_owned(), "m".to_owned()), identity("s", "m"));
}
