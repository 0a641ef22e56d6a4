use valdraegorn::errors::DomainError;
use valdraegorn::value_objects::{Email, TenantSlug};

#[test]
fn email_is_trimmed_and_lowercased() {
    let e = Email::new("  Ana.Perez@Example.COM \n").unwrap();
    assert_eq!(e.value(), "ana.perez@example.com");
    assert_eq!(e.to_string(), "ana.perez@example.com");
}

#[test]
fn email_without_at_is_rejected() {
    let err = Email::new("Ana.Example.com").unwrap_err();
    assert_eq!(err, DomainError::Validation("Invalid email: ana.example.com".to_string()));
}

#[test]
fn email_without_dot_is_rejected() {
    let err = Email::new("ana@localhost").unwrap_err();
    assert_eq!(err, DomainError::Validation("Invalid email: ana@localhost".to_string()));
}

#[test]
fn empty_email_is_rejected() {
    let err = Email::new("   ").unwrap_err();
    assert_eq!(err, DomainError::Validation("Invalid email: ".to_string()));
}

#[test]
fn email_clone_keeps_value() {
    let e = Email::new("x@y.z").unwrap();
    assert_eq!(e.clone(), e);
}

#[test]
fn slug_examples_are_accepted() {
    assert_eq!(TenantSlug::new("empresa-peru-sac").unwrap().value(), "empresa-peru-sac");
    assert_eq!(TenantSlug::new("clinica-los-andes").unwrap().value(), "clinica-los-andes");
}

#[test]
fn slug_is_trimmed_and_lowercased() {
    let s = TenantSlug::new("  Empresa-PERU-Sac  ").unwrap();
    assert_eq!(s.value(), "empresa-peru-sac");
    assert_eq!(s.to_string(), "empresa-peru-sac");
}

#[test]
fn empty_slug_is_rejected() {
    let err = TenantSlug::new(" \t ").unwrap_err();
    assert_eq!(err, DomainError::Validation("Slug must be 1-63 characters".to_string()));
}

#[test]
fn slug_of_63_bytes_is_accepted_and_64_rejected() {
    let ok = "a".repeat(63);
    assert!(TenantSlug::new(&ok).is_ok());
    let long = "a".repeat(64);
    assert_eq!(
        TenantSlug::new(&long).unwrap_err(),
        DomainError::Validation("Slug must be 1-63 characters".to_string())
    );
}

#[test]
fn slug_length_counts_bytes_not_characters() {
    // 32 two-byte characters: 32 characters, 64 bytes.
    let s = "é".repeat(32);
    assert_eq!(
        TenantSlug::new(&s).unwrap_err(),
        DomainError::Validation("Slug must be 1-63 characters".to_string())
    );
    let t = "é".repeat(31);
    assert!(TenantSlug::new(&t).is_ok());
}

#[test]
fn slug_with_other_characters_is_rejected() {
    for bad in ["empresa_peru", "empresa peru", "empresa.peru", "a/b"] {
        assert_eq!(
            TenantSlug::new(bad).unwrap_err(),
            DomainError::Validation(
                "Slug must contain only lowercase letters, numbers, and hyphens".to_string()
            )
        );
    }
}

#[test]
fn slug_with_edge_hyphen_is_rejected() {
    for bad in ["-empresa", "empresa-", "-"] {
        assert_eq!(
            TenantSlug::new(bad).unwrap_err(),
            DomainError::Validation("Slug cannot start or end with a hyphen".to_string())
        );
    }
}

#[test]
fn slug_digits_are_accepted() {
    assert_eq!(TenantSlug::new("acme-2024").unwrap().value(), "acme-2024");
}

#[test]
fn slug_holds_only_lowercase_letters_digits_and_hyphens() {
    for bad in ["公司", "acme²", "acme-٣"] {
        assert_eq!(
            TenantSlug::new(bad).unwrap_err(),
            DomainError::Validation(
                "Slug must contain only lowercase letters, numbers, and hyphens".to_string()
            ),
            "{}",
            bad
        );
    }
    assert_eq!(TenantSlug::new("Café-Perú").unwrap().value(), "café-perú");
}

#[test]
fn surrounding_white_space_does_not_change_the_value() {
    let plain = Email::new("Ana@Acme.pe").unwrap();
    let padded = Email::new("\t \u{3000}Ana@Acme.pe\n ").unwrap();
    assert_eq!(plain.value(), padded.value());
    let plain = TenantSlug::new("Acme-Sa").unwrap();
    let padded = TenantSlug::new(" \u{a0}Acme-Sa\r\n").unwrap();
    assert_eq!(plain.value(), padded.value());
}

#[test]
fn normalising_again_or_lowercasing_first_gives_the_same_value() {
    for raw in ["  Empresa-Peru-SAC ", "acme-2024", "ACME"] {
        let s = TenantSlug::new(raw).unwrap();
        assert_eq!(TenantSlug::new(s.value()).unwrap().value(), s.value());
        assert_eq!(TenantSlug::new(&raw.to_lowercase()).unwrap().value(), s.value());
        assert_eq!(s.value(), s.value().trim().to_lowercase());
    }
    for raw in [" Ana.Perez@Acme.PE", "x@y.z"] {
        let e = Email::new(raw).unwrap();
        assert_eq!(Email::new(e.value()).unwrap().value(), e.value());
        assert_eq!(Email::new(&raw.to_lowercase()).unwrap().value(), e.value());
        assert_eq!(e.value(), e.value().trim().to_lowercase());
    }
}
