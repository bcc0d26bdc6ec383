use license_gen::license::{BsdAmmendment, Licenses, ParseError, VersionAmmendment};

const IDENTIFIERS: [&str; 20] = [
    "MIT",
    "AGPL-3.0",
    "AGPL-3.0-only",
    "AGPL-3.0-or-later",
    "GPL-3.0",
    "GPL-3.0-only",
    "GPL-3.0-or-later",
    "LGPL-3.0",
    "LGPL-3.0-only",
    "LGPL-3.0-or-later",
    "Apache-2.0",
    "BSL-1.0",
    "Unlicense",
    "CDDL-1.0",
    "EPL-2.0",
    "MPL-2.0",
    "BSD-3-Clause",
    "BSD-3-Clause-Attribution",
    "BSD-3-Clause-Modification",
    "BSD-3-Clause-No-Military-License",
];

#[test]
fn the_catalogue_lists_twenty_licenses_in_order() {
    let all = Licenses::value_variants();
    let names: Vec<String> = all.iter().map(|license| license.to_string()).collect();
    assert_eq!(names, IDENTIFIERS);
    assert_eq!(all[0], Licenses::Mit);
    assert_eq!(all[3], Licenses::Agpl3(VersionAmmendment::OrLater));
    assert_eq!(all[8], Licenses::Lgpl3(VersionAmmendment::Only));
    assert_eq!(all[19], Licenses::Bsd3Clause(BsdAmmendment::NoMilitary));
}

#[test]
fn resolving_an_identifier_gives_its_license_back() {
    for license in Licenses::value_variants() {
        assert_eq!(Licenses::resolve(&license.to_string()), Ok(license));
    }
}

#[test]
fn identifiers_are_unique() {
    let mut names: Vec<String> =
        Licenses::value_variants().iter().map(|license| license.to_string()).collect();
    names.sort();
    names.dedup();
    assert_eq!(names.len(), 20);
}

#[test]
fn each_identifier_resolves_to_the_license_at_its_place() {
    let all = Licenses::value_variants();
    for (i, identifier) in IDENTIFIERS.iter().enumerate() {
        assert_eq!(Licenses::resolve(identifier), Ok(all[i]));
    }
}

#[test]
fn an_unknown_identifier_is_handed_back() {
    let error = Licenses::resolve("GPL-2.0").unwrap_err();
    assert_eq!(error, ParseError { token: "GPL-2.0".to_string() });
    assert_eq!(error.message(), "invalid variant: GPL-2.0");
}

#[test]
fn identifiers_are_matched_to_the_letter() {
    assert!(Licenses::resolve("mit").is_err());
    assert!(Licenses::resolve("MIT ").is_err());
    assert!(Licenses::resolve("").is_err());
    assert!(Licenses::resolve("GPL-3.0-").is_err());
    assert!(Licenses::resolve("MIT-only").is_err());
    assert!(Licenses::resolve("BSD-3-Clause-No-Military").is_err());
}

#[test]
fn amendments_add_their_suffix() {
    assert_eq!(VersionAmmendment::Plain.to_string(), "");
    assert_eq!(VersionAmmendment::Only.to_string(), "-only");
    assert_eq!(VersionAmmendment::OrLater.to_string(), "-or-later");
    assert_eq!(BsdAmmendment::Plain.to_string(), "");
    assert_eq!(BsdAmmendment::Attribution.to_string(), "-Attribution");
    assert_eq!(BsdAmmendment::Modification.to_string(), "-Modification");
    assert_eq!(BsdAmmendment::NoMilitary.to_string(), "-No-Military-License");
    assert_eq!(Licenses::Gpl3(VersionAmmendment::Only).family_str(), "GPL-3.0");
}

#[test]
fn only_the_three_gnu_families_are_gnu() {
    let gnu: Vec<String> = Licenses::value_variants()
        .iter()
        .filter(|license| license.is_gnu_license())
        .map(|license| license.to_string())
        .collect();
    assert_eq!(gnu, &IDENTIFIERS[1..10]);
}
