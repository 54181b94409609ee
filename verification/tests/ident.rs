use service_updater::ident::{opt_ident_eq, str_lex_lt, PackageIdent};

fn fq(version: &str, release: &str) -> PackageIdent {
    PackageIdent::new(
        "core".to_string(),
        "testing".to_string(),
        Some(version.to_string()),
        Some(release.to_string()),
    )
}

#[test]
fn lexicographic_order_on_strings() {
    assert!(str_lex_lt("1.0.0", "1.0.1"));
    assert!(!str_lex_lt("1.0.1", "1.0.0"));
    assert!(!str_lex_lt("1.0.0", "1.0.0"));
    // A proper prefix comes first.
    assert!(str_lex_lt("1.0", "1.0.0"));
    assert!(!str_lex_lt("1.0.0", "1.0"));
    assert!(str_lex_lt("", "a"));
    assert!(!str_lex_lt("", ""));
}

#[test]
fn identity_order_is_version_then_release() {
    let older = fq("1.0.0", "20240101120000");
    let newer_version = fq("1.0.1", "20230101120000");
    let newer_release = fq("1.0.0", "20240601120000");

    assert!(older.before(&newer_version));
    assert!(!newer_version.before(&older));
    // The release breaks ties within one version.
    assert!(older.before(&newer_release));
    assert!(!newer_release.before(&older));
    // A newer version outranks a newer release.
    assert!(newer_release.before(&newer_version));
    // Nothing is before itself.
    assert!(!older.before(&older));
}

#[test]
fn identity_equality_is_by_parts() {
    let a = fq("1.0.0", "20240101120000");
    let b = fq("1.0.0", "20240101120000");
    let c = fq("1.0.0", "20240601120000");
    let partial = PackageIdent::new("core".to_string(), "testing".to_string(), None, None);

    assert!(a.same_ident(&b));
    assert!(!a.same_ident(&c));
    assert!(!a.same_ident(&partial));
    assert!(partial.same_ident(&partial));

    assert!(a.fully_qualified());
    assert!(!partial.fully_qualified());

    assert!(opt_ident_eq(&Some(a.duplicate()), &Some(b)));
    assert!(!opt_ident_eq(&Some(a.duplicate()), &Some(c)));
    assert!(!opt_ident_eq(&Some(a), &None));
    assert!(opt_ident_eq(&None, &None));
}
