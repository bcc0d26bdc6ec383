use license_gen::interview::PromptAnswer;
use license_gen::license::{
    generate_license_text, BsdAmmendment, GenerateError, Licenses, VersionAmmendment,
};
use license_gen::template::{
    is_built_in, names_are_distinct, render_template, try_render_template, Partial,
};
use license_gen::texts::apache::{generate_apache_license, APACHE2};
use license_gen::texts::bsd::{
    bsd_license, fragment_for, generate_attribution_license, generate_base_license,
    generate_bsd_license, generate_modification_license, generate_no_military_license,
    BsdLicenseTemplate, ATTRIBUTION_FOURTH, BSD_NAME, EMPTY, FOURTH_NAME, MODIFICATION_FOURTH,
    NO_MILITARY_POSTAMBLE, TEXT,
};
use license_gen::texts::bsl::{generate_bsl_license, BSL1};
use license_gen::texts::cddl::{generate_cddl_license, CDDL1};
use license_gen::texts::epl::{generate_epl_license, secondary_licenses_notice, EPL2};
use license_gen::texts::gnu::{
    generate_agpl_license, generate_gpl_license, generate_lgpl_license, gnu_license,
    render_disclaimer, render_notice, GnuFamily, GnuLicenseTemplate, SignedRelease,
    DISCLAIMER as DISCLAIMER_TEMPLATE, DISCLAIMER_NAME, NOTICE as NOTICE_TEMPLATE, NOTICE_NAME,
};
use license_gen::texts::mit::{
    generate_mit_license, mit_license, MitLicenseTemplate, MIT, MIT_NAME,
};
use license_gen::texts::mpl::{generate_mpl_license, MPL2};
use license_gen::texts::unlicense::{generate_unlicense_license, UNLICENSE};
use license_gen::texts::{
    copyright_line, excerpt, gnu_copyright_line, header, plain_license, spdx_line, LicenseTexts,
};

fn text(s: &str) -> PromptAnswer {
    PromptAnswer::Text(s.to_string())
}

fn basic_answers() -> Vec<PromptAnswer> {
    vec![PromptAnswer::Integer(2025), text("Your Name")]
}

fn pair(name: &str, value: &str) -> (String, String) {
    (name.to_string(), value.to_string())
}

fn program() -> GnuLicenseTemplate {
    GnuLicenseTemplate {
        year: 2025,
        fullname: "Your Name".to_string(),
        program: "license".to_string(),
        version: Some("1.0.0".to_string()),
        description: Some("A tool for managing licenses".to_string()),
        interactive: true,
        release: Some(SignedRelease {
            organization: "ACME, Inc.".to_string(),
            signer: "Road Runner".to_string(),
            title: "The Boss".to_string(),
            day: "7".to_string(),
            month: "April".to_string(),
            year: 2024,
        }),
    }
}

const DISCLAIMER: &str = "ACME, Inc., hereby disclaims all copyright interest in the program\n\
\"license\" (A tool for managing licenses) written by Your Name.\n\
\n\
<signature of Road Runner>, 7 April 2024\n\
Road Runner, The Boss\n";

const NOTICE: &str = "license version 1.0.0, Copyright (C) 2025 Your Name\n\
license comes with ABSOLUTELY NO WARRANTY. For details type `show w'.\n\
This is free software, and you are welcome to redistribute it\n\
under certain conditions. Type `show c' for details.\n";

#[test]
fn mit_names_year_and_holder_and_nothing_else() {
    let texts = generate_license_text(&Licenses::Mit, &basic_answers()).unwrap();
    assert!(texts.text.contains("\nCopyright (c) 2025 Your Name\n"));
    assert_eq!(texts.text.matches("Copyright (c)").count(), 1);
    assert_eq!(texts.comment, "SPDX-License-Identifier: MIT");
    assert_eq!(texts.alt, None);
    assert_eq!(texts.interactive, None);
}

#[test]
fn the_mit_text_is_its_template_with_the_two_values_in_place() {
    let texts = generate_mit_license(2025, "Your Name".to_string()).unwrap();
    let expected = MIT.replace("{{year}}", "2025").replace("{{{fullname}}}", "Your Name");
    assert_eq!(texts.text, expected);
    assert!(texts.text.starts_with("MIT License\n\nCopyright (c) 2025 Your Name\n\nPermission"));
    assert!(texts.text.ends_with("DEALINGS IN THE\nSOFTWARE.\n"));
}

#[test]
fn bsd_attribution_names_organization_and_website() {
    let license = Licenses::Bsd3Clause(BsdAmmendment::Attribution);
    let answers = vec![
        PromptAnswer::Integer(2025),
        text("Your Name"),
        PromptAnswer::OptionalText(Some("ACME, Inc.".to_string())),
        PromptAnswer::OptionalText(Some("https://acme.example.com".to_string())),
    ];
    let texts = generate_license_text(&license, &answers).unwrap();
    assert!(texts.text.contains(
        "4. Redistributions of any form whatsoever must retain the following \n\
acknowledgment: 'This product includes software developed by the \n\
\"ACME, Inc.\" (https://acme.example.com).'"
    ));
    assert!(texts.text.starts_with("Copyright (c) 2025 Your Name.\n"));
    assert_eq!(texts.comment, "SPDX-License-Identifier: BSD-3-Clause-Attribution");
    assert_eq!(texts.alt, None);
    assert_eq!(texts.interactive, None);
}

#[test]
fn the_attribution_clause_names_the_holder_where_no_organization_is_given() {
    let texts = generate_attribution_license(2025, "Your Name".to_string(), None, None).unwrap();
    assert!(texts.text.contains("developed by the \n\"Your Name\".'"));
    let texts = generate_attribution_license(
        2025,
        "Your Name".to_string(),
        None,
        Some("https://acme.example.com".to_string()),
    )
    .unwrap();
    assert!(texts.text.contains("developed by the \n\"Your Name\" (https://acme.example.com).'"));
}

#[test]
fn each_bsd_amendment_selects_its_fragments() {
    let base = generate_base_license(2025, "Your Name".to_string()).unwrap();
    assert!(!base.text.contains("4. "));
    assert!(!base.text.contains("MILITARY"));
    assert_eq!(base.comment, "SPDX-License-Identifier: BSD-3-Clause");

    let modification = generate_modification_license(2025, "Your Name".to_string()).unwrap();
    assert!(modification.text.contains(MODIFICATION_FOURTH));
    assert!(!modification.text.contains("MILITARY"));
    assert_eq!(modification.comment, "SPDX-License-Identifier: BSD-3-Clause-Modification");

    let military = generate_no_military_license(2025, "Your Name".to_string()).unwrap();
    assert!(!military.text.contains("4. "));
    assert!(military.text.contains(NO_MILITARY_POSTAMBLE));
    assert_eq!(military.comment, "SPDX-License-Identifier: BSD-3-Clause-No-Military-License");

    assert_eq!(fragment_for(BsdAmmendment::Plain).fourth, "");
    assert_eq!(fragment_for(BsdAmmendment::Plain).postamble, "");
    assert_eq!(fragment_for(BsdAmmendment::Attribution).fourth, ATTRIBUTION_FOURTH);
    assert_eq!(fragment_for(BsdAmmendment::Attribution).postamble, "");
    assert_eq!(fragment_for(BsdAmmendment::Modification).fourth, MODIFICATION_FOURTH);
    assert_eq!(fragment_for(BsdAmmendment::NoMilitary).fourth, "");
    assert_eq!(fragment_for(BsdAmmendment::NoMilitary).postamble, NO_MILITARY_POSTAMBLE);
}

#[test]
fn only_the_attribution_clause_uses_organization_and_website() {
    for amendment in [BsdAmmendment::Plain, BsdAmmendment::Modification, BsdAmmendment::NoMilitary]
    {
        let with = generate_bsd_license(
            amendment,
            2025,
            "Your Name".to_string(),
            Some("ACME, Inc.".to_string()),
            Some("https://acme.example.com".to_string()),
        )
        .unwrap();
        let without =
            generate_bsd_license(amendment, 2025, "Your Name".to_string(), None, None).unwrap();
        assert_eq!(with, without);
        assert!(!with.text.contains("ACME"));
    }
}

#[test]
fn free_text_is_inserted_as_it_was_typed() {
    let name = "Tom & Jerry's <b>\"Café\"</b> {{year}} `x`=y";
    let mit = generate_mit_license(1999, name.to_string()).unwrap();
    assert!(mit.text.contains(&format!("Copyright (c) 1999 {name}\n")));
    let bsd = generate_attribution_license(
        1999,
        name.to_string(),
        Some("R&D <lab>".to_string()),
        Some("https://x.example/?a=b&c='d'".to_string()),
    )
    .unwrap();
    assert!(bsd.text.starts_with(&format!("Copyright (c) 1999 {name}.\n")));
    assert!(bsd.text.contains("\"R&D <lab>\" (https://x.example/?a=b&c='d').'"));
}

#[test]
fn the_fields_of_the_templates_are_named_and_ordered() {
    let mit = MitLicenseTemplate { year: 7, fullname: "N".to_string() };
    assert_eq!(mit.fields(), [pair("year", "7"), pair("fullname", "N")]);
    let bsd = BsdLicenseTemplate {
        year: 2025,
        fullname: "N".to_string(),
        organization: Some("O".to_string()),
        website: None,
        license: fragment_for(BsdAmmendment::NoMilitary),
    };
    assert_eq!(
        bsd.fields(),
        [
            pair("year", "2025"),
            pair("fullname", "N"),
            pair("organization", "O"),
            pair("postamble", NO_MILITARY_POSTAMBLE),
        ]
    );
    let gnu = program();
    assert_eq!(
        gnu.notice_fields(),
        [
            pair("program", "license"),
            pair("version", "1.0.0"),
            pair("year", "2025"),
            pair("fullname", "Your Name"),
        ]
    );
    assert_eq!(
        gnu.disclaimer_fields(gnu.release.as_ref().unwrap()),
        [
            pair("organization", "ACME, Inc."),
            pair("program", "license"),
            pair("description", "A tool for managing licenses"),
            pair("fullname", "Your Name"),
            pair("signer", "Road Runner"),
            pair("title", "The Boss"),
            pair("day", "7"),
            pair("month", "April"),
            pair("year", "2024"),
        ]
    );
}

#[test]
fn a_template_of_the_crate_is_rendered_with_its_fields() {
    let fields = vec![pair("year", "2025"), pair("fullname", "Your Name")];
    let rendered = try_render_template(MIT_NAME, MIT, None, &fields).unwrap().unwrap();
    assert_eq!(rendered, MIT.replace("{{year}}", "2025").replace("{{{fullname}}}", "Your Name"));
    assert_ne!(rendered, MIT);

    let swapped = vec![pair("fullname", "Your Name"), pair("year", "2025")];
    assert_eq!(try_render_template(MIT_NAME, MIT, None, &swapped).unwrap().unwrap(), rendered);

    let nothing: Vec<(String, String)> = vec![];
    let bare = try_render_template(MIT_NAME, MIT, None, &nothing).unwrap().unwrap();
    assert_eq!(bare, MIT.replace("{{year}}", "").replace("{{{fullname}}}", ""));

    let clause = Partial { name: FOURTH_NAME, text: MODIFICATION_FOURTH };
    let bsd = try_render_template(BSD_NAME, TEXT, Some(clause), &fields).unwrap().unwrap();
    assert!(bsd.starts_with("Copyright (c) 2025 Your Name.\n"));
    assert!(bsd.contains(MODIFICATION_FOURTH));
    assert!(!bsd.contains("fourth_partial"));
}

#[test]
fn a_template_from_elsewhere_is_not_rendered() {
    let fields = vec![pair("who", "world")];
    assert!(try_render_template("t", "Hello {{{who}}}!", None, &fields).is_none());
    assert!(try_render_template("t", "plain", None, &fields).is_none());
    assert!(try_render_template("mit", MIT, None, &fields).is_none());
    assert!(try_render_template(MIT_NAME, TEXT, None, &fields).is_none());
    assert!(try_render_template(BSD_NAME, TEXT, None, &fields).is_none());
    let stray = Partial { name: FOURTH_NAME, text: "{{{who}}}" };
    assert!(try_render_template(BSD_NAME, TEXT, Some(stray), &fields).is_none());
    let misnamed = Partial { name: "fourth", text: MODIFICATION_FOURTH };
    assert!(try_render_template(BSD_NAME, TEXT, Some(misnamed), &fields).is_none());
    let unasked = Partial { name: FOURTH_NAME, text: EMPTY };
    assert!(try_render_template(MIT_NAME, MIT, Some(unasked), &fields).is_none());
}

#[test]
fn templates_that_include_each_other_are_not_rendered() {
    let fields = vec![pair("who", "world")];
    let back = Partial { name: "b", text: "{{> a}}" };
    assert!(try_render_template("a", "{{> b}}", Some(back), &fields).is_none());
    let twisted = Partial { name: FOURTH_NAME, text: "{{> bsd_license}}" };
    assert!(try_render_template(BSD_NAME, TEXT, Some(twisted), &fields).is_none());
}

#[test]
fn fields_that_share_a_name_are_not_rendered() {
    let twice = vec![pair("year", "2025"), pair("fullname", "A"), pair("year", "2026")];
    assert!(try_render_template(MIT_NAME, MIT, None, &twice).is_none());
    assert!(!names_are_distinct(&twice));
    assert!(!names_are_distinct(&vec![pair("a", "1"), pair("a", "1")]));
    assert!(names_are_distinct(&vec![pair("a", "1"), pair("b", "1"), pair("A", "1")]));
    assert!(names_are_distinct(&vec![pair("a", "1")]));
    assert!(names_are_distinct(&vec![]));
}

#[test]
fn the_templates_of_the_crate_are_told_from_others() {
    let clause = |text| Some(Partial { name: FOURTH_NAME, text });
    assert!(is_built_in(MIT_NAME, MIT, None));
    assert!(is_built_in(DISCLAIMER_NAME, DISCLAIMER_TEMPLATE, None));
    assert!(is_built_in(NOTICE_NAME, NOTICE_TEMPLATE, None));
    assert!(is_built_in(BSD_NAME, TEXT, clause(EMPTY)));
    assert!(is_built_in(BSD_NAME, TEXT, clause(ATTRIBUTION_FOURTH)));
    assert!(is_built_in(BSD_NAME, TEXT, clause(MODIFICATION_FOURTH)));
    assert!(!is_built_in(BSD_NAME, TEXT, clause(NO_MILITARY_POSTAMBLE)));
    assert!(!is_built_in(BSD_NAME, TEXT, None));
    assert!(!is_built_in(MIT_NAME, DISCLAIMER_TEMPLATE, None));
    assert!(!is_built_in(NOTICE_NAME, MIT, None));
    assert!(!is_built_in(MIT_NAME, MIT, clause(EMPTY)));
    assert!(!is_built_in("", "", None));
}

#[test]
fn the_checked_rendering_agrees_with_the_generators() {
    let mit = MitLicenseTemplate { year: 2025, fullname: "Your Name".to_string() };
    let text = render_template(MIT_NAME, MIT, None, &mit.fields()).unwrap();
    assert_eq!(text, generate_mit_license(2025, "Your Name".to_string()).unwrap().text);
    assert_eq!(text, try_render_template(MIT_NAME, MIT, None, &mit.fields()).unwrap().unwrap());
    let gnu = program();
    let notice = try_render_template(NOTICE_NAME, NOTICE_TEMPLATE, None, &gnu.notice_fields());
    assert_eq!(notice.unwrap().unwrap(), NOTICE);
}

#[test]
fn the_plain_licenses_keep_their_text_and_get_a_copyright_line() {
    let expected = "Copyright (c) 2025 Your Name.";
    let cases: [(Licenses, &str, &str); 5] = [
        (Licenses::Apache2, APACHE2, "Apache-2.0"),
        (Licenses::Bsl1, BSL1, "BSL-1.0"),
        (Licenses::Unlicense, UNLICENSE, "Unlicense"),
        (Licenses::Cddl1, CDDL1, "CDDL-1.0"),
        (Licenses::Mpl2, MPL2, "MPL-2.0"),
    ];
    for (license, body, identifier) in cases {
        let texts = generate_license_text(&license, &basic_answers()).unwrap();
        assert_eq!(texts.text, body);
        assert_eq!(texts.comment, format!("SPDX-License-Identifier: {identifier}\n{expected}"));
        assert_eq!(texts.alt, None);
        assert_eq!(texts.interactive, None);
        assert_eq!(texts, plain_license(&license, body, 2025, "Your Name"));
    }
    let name = "Your Name".to_string();
    assert_eq!(generate_apache_license(2025, name.clone()).text, APACHE2);
    assert_eq!(generate_bsl_license(2025, name.clone()).text, BSL1);
    assert_eq!(generate_unlicense_license(2025, name.clone()).text, UNLICENSE);
    assert_eq!(generate_cddl_license(2025, name.clone()).text, CDDL1);
    assert_eq!(generate_mpl_license(2025, name).text, MPL2);
}

#[test]
fn the_license_bodies_start_with_their_titles() {
    assert!(APACHE2.contains("Apache License\n                           Version 2.0, January 2004"));
    assert!(BSL1.starts_with("Boost Software License - Version 1.0"));
    assert!(UNLICENSE.starts_with("This is free and unencumbered software"));
    assert!(CDDL1.starts_with("COMMON DEVELOPMENT AND DISTRIBUTION LICENSE (CDDL) Version 1.0"));
    assert!(MPL2.starts_with("Mozilla Public License Version 2.0"));
    assert!(EPL2.starts_with("Eclipse Public License - v 2.0"));
}

#[test]
fn gpl_with_a_signed_release_carries_the_disclaimer() {
    let license = Licenses::Gpl3(VersionAmmendment::OrLater);
    let answers = vec![
        PromptAnswer::Integer(2025),
        text("Your Name"),
        text("license"),
        PromptAnswer::OptionalText(Some("1.0.0".to_string())),
        text("A tool for managing licenses"),
        PromptAnswer::Flag(true),
        PromptAnswer::Flag(true),
        text("ACME, Inc."),
        text("Road Runner"),
        text("The Boss"),
        text("7"),
        text("April"),
        PromptAnswer::Integer(2024),
    ];
    let texts = generate_license_text(&license, &answers).unwrap();
    let alt = texts.alt.clone().unwrap();
    assert!(alt.contains("hereby disclaims all copyright interest"));
    assert!(alt.contains("Road Runner"));
    assert!(alt.contains("The Boss"));
    assert_eq!(alt, DISCLAIMER);
    assert_eq!(texts.interactive.as_deref(), Some(NOTICE));
    assert_eq!(texts.comment, "SPDX-License-Identifier: GPL-3.0-or-later\nCopyright (C) 2025 Your Name");
    assert!(texts.text.starts_with("                    GNU GENERAL PUBLIC LICENSE\n"));
    assert_eq!(texts, generate_gpl_license(VersionAmmendment::OrLater, program()).unwrap());
}

#[test]
fn the_disclaimer_does_not_vary_by_family() {
    let gpl = generate_gpl_license(VersionAmmendment::Plain, program()).unwrap();
    let agpl = generate_agpl_license(VersionAmmendment::Only, program()).unwrap();
    let lgpl = generate_lgpl_license(VersionAmmendment::OrLater, program()).unwrap();
    assert_eq!(gpl.alt.as_deref(), Some(DISCLAIMER));
    assert_eq!(agpl.alt, gpl.alt);
    assert_eq!(lgpl.alt, gpl.alt);
    assert_eq!(agpl.interactive, gpl.interactive);
    assert_eq!(agpl.comment, "SPDX-License-Identifier: AGPL-3.0-only\nCopyright (C) 2025 Your Name");
    assert_eq!(lgpl.comment, "SPDX-License-Identifier: LGPL-3.0-or-later\nCopyright (C) 2025 Your Name");
    assert!(agpl.text.starts_with("                    GNU AFFERO GENERAL PUBLIC LICENSE\n"));
    assert!(lgpl.text.starts_with("                   GNU LESSER GENERAL PUBLIC LICENSE\n"));
    assert!(gpl.text.contains("  13. Use with the GNU Affero General Public License.\n"));
    assert!(agpl.text.contains("  13. Remote Network Interaction; Use with the GNU General Public License.\n"));
    assert!(gpl.text.contains("  12. No Surrender of Others' Freedom.\n"));
    assert!(agpl.text.contains("  12. No Surrender of Others' Freedom.\n"));
    assert_eq!(gpl.text.lines().count(), 674);
    assert_eq!(agpl.text.lines().count(), 661);
    assert_eq!(lgpl.text.lines().count(), 165);
}

#[test]
fn the_notices_of_a_gnu_license_come_only_when_asked_for() {
    let mut quiet = program();
    quiet.interactive = false;
    quiet.release = None;
    let texts = generate_gpl_license(VersionAmmendment::Plain, quiet.clone()).unwrap();
    assert_eq!(texts.alt, None);
    assert_eq!(texts.interactive, None);
    assert_eq!(render_disclaimer(&quiet).unwrap(), None);
    assert_eq!(render_notice(&quiet).unwrap(), None);

    let mut bare = program();
    bare.version = None;
    bare.description = None;
    assert_eq!(
        render_notice(&bare).unwrap().unwrap(),
        NOTICE.replace("license version 1.0.0,", "license,")
    );
    assert_eq!(
        render_disclaimer(&bare).unwrap().unwrap(),
        DISCLAIMER.replace(" (A tool for managing licenses)", "")
    );
    assert_eq!(render_disclaimer(&program()).unwrap().as_deref(), Some(DISCLAIMER));
    assert_eq!(render_notice(&program()).unwrap().as_deref(), Some(NOTICE));
}

#[test]
fn the_lesser_license_has_no_notice_and_no_description() {
    let license = Licenses::Lgpl3(VersionAmmendment::Plain);
    let answers = vec![
        PromptAnswer::Integer(2025),
        text("Your Name"),
        text("license"),
        PromptAnswer::Flag(true),
        text("ACME, Inc."),
        text("Road Runner"),
        text("The Boss"),
        text("7"),
        text("April"),
        PromptAnswer::Integer(2024),
    ];
    let texts = generate_license_text(&license, &answers).unwrap();
    assert_eq!(texts.interactive, None);
    assert_eq!(
        texts.alt.as_deref(),
        Some(DISCLAIMER.replace(" (A tool for managing licenses)", "").as_str())
    );
    assert_eq!(texts.comment, "SPDX-License-Identifier: LGPL-3.0\nCopyright (C) 2025 Your Name");

    let unsigned = vec![
        PromptAnswer::Integer(2025),
        text("Your Name"),
        text("license"),
        PromptAnswer::Flag(false),
    ];
    let texts = generate_license_text(&license, &unsigned).unwrap();
    assert_eq!(texts.alt, None);
    assert_eq!(texts.interactive, None);
}

#[test]
fn a_gnu_license_is_put_together_from_its_parts() {
    let texts =
        gnu_license(GnuFamily::Affero, VersionAmmendment::Plain, 1, "N", Some("alt".to_string()), None);
    assert_eq!(texts.comment, "SPDX-License-Identifier: AGPL-3.0\nCopyright (C) 1 N");
    assert_eq!(texts.alt.as_deref(), Some("alt"));
    assert_eq!(texts.interactive, None);
    assert!(texts.text.ends_with("<https://www.gnu.org/licenses/>.\n"));
    assert_eq!(
        GnuFamily::Lesser.license(VersionAmmendment::Only),
        Licenses::Lgpl3(VersionAmmendment::Only)
    );
    assert!(GnuFamily::General.text().starts_with("                    GNU GENERAL PUBLIC LICENSE"));
    let lesser = gnu_license(GnuFamily::Lesser, VersionAmmendment::OrLater, 2, "M", None, None);
    assert_eq!(lesser.comment, "SPDX-License-Identifier: LGPL-3.0-or-later\nCopyright (C) 2 M");
    assert!(lesser.text.starts_with("                   GNU LESSER GENERAL PUBLIC LICENSE"));
}

#[test]
fn epl_lists_the_secondary_licenses_in_order() {
    let answers =
        vec![PromptAnswer::List(vec!["MIT".to_string(), "Apache-2.0".to_string()])];
    let texts = generate_license_text(&Licenses::Epl2, &answers).unwrap();
    let alt = texts.alt.clone().unwrap();
    let mit = alt.find("\n- MIT\n").unwrap();
    let apache = alt.find("\n- Apache-2.0\n").unwrap();
    assert!(mit < apache);
    assert_eq!(
        alt,
        "This Source Code may also be made available under the following\n\
Secondary Licenses when the conditions for such availability set forth\n\
in the Eclipse Public License, v. 2.0 are satisfied:\n\
- MIT\n\
- Apache-2.0\n"
    );
    assert_eq!(texts.text, EPL2);
    assert_eq!(texts.comment, "SPDX-License-Identifier: EPL-2.0");
    assert_eq!(texts.interactive, None);
}

#[test]
fn the_secondary_licenses_keep_their_order_and_their_duplicates() {
    let names = vec!["b".to_string(), "a".to_string(), "b".to_string(), String::new()];
    assert!(secondary_licenses_notice(&names).ends_with("are satisfied:\n- b\n- a\n- b\n- \n"));
    assert_eq!(generate_epl_license(names.clone()).alt, Some(secondary_licenses_notice(&names)));
    assert_eq!(generate_epl_license(vec![]).alt, None);
    let none = generate_license_text(&Licenses::Epl2, &vec![PromptAnswer::List(vec![])]).unwrap();
    assert_eq!(none.alt, None);
}

#[test]
fn the_same_license_and_answers_give_the_same_texts() {
    for license in Licenses::value_variants() {
        let answers = match license {
            Licenses::Epl2 => vec![PromptAnswer::List(vec!["MIT".to_string()])],
            Licenses::Agpl3(_) | Licenses::Gpl3(_) => vec![
                PromptAnswer::Integer(2025),
                text("Your Name"),
                text("license"),
                PromptAnswer::OptionalText(None),
                text(""),
                PromptAnswer::Flag(true),
                PromptAnswer::Flag(false),
            ],
            Licenses::Lgpl3(_) => vec![
                PromptAnswer::Integer(2025),
                text("Your Name"),
                text("license"),
                PromptAnswer::Flag(false),
            ],
            Licenses::Bsd3Clause(BsdAmmendment::Attribution) => vec![
                PromptAnswer::Integer(2025),
                text("Your Name"),
                PromptAnswer::OptionalText(None),
                PromptAnswer::OptionalText(None),
            ],
            _ => basic_answers(),
        };
        let first = generate_license_text(&license, &answers).unwrap();
        let second = generate_license_text(&license, &answers).unwrap();
        assert_eq!(first.text, second.text);
        assert_eq!(first, second);
        assert!(first.comment.starts_with(&format!("SPDX-License-Identifier: {}", license.to_string())));
    }
}

#[test]
fn answers_that_do_not_fit_the_questions_are_refused() {
    let refused = |license: Licenses, answers: Vec<PromptAnswer>| {
        matches!(generate_license_text(&license, &answers), Err(GenerateError::Answers))
    };
    assert!(refused(Licenses::Mit, vec![]));
    assert!(refused(Licenses::Mit, vec![PromptAnswer::Integer(2025)]));
    assert!(refused(Licenses::Mit, vec![text("Your Name"), PromptAnswer::Integer(2025)]));
    assert!(refused(Licenses::Epl2, basic_answers()));
    assert!(refused(Licenses::Gpl3(VersionAmmendment::Plain), basic_answers()));
    assert!(refused(Licenses::Bsd3Clause(BsdAmmendment::Attribution), basic_answers()));
    let mut extra = basic_answers();
    extra.push(text("more"));
    assert!(refused(Licenses::Apache2, extra));
}

#[test]
fn the_header_lines_have_their_fixed_forms() {
    assert_eq!(spdx_line(&Licenses::Mit), "SPDX-License-Identifier: MIT");
    assert_eq!(
        spdx_line(&Licenses::Bsd3Clause(BsdAmmendment::NoMilitary)),
        "SPDX-License-Identifier: BSD-3-Clause-No-Military-License"
    );
    assert_eq!(copyright_line(2025, "Your Name"), "Copyright (c) 2025 Your Name.");
    assert_eq!(gnu_copyright_line(2025, "Your Name"), "Copyright (C) 2025 Your Name");
    assert_eq!(copyright_line(0, ""), "Copyright (c) 0 .");
    assert_eq!(
        header(&Licenses::Mpl2, "Copyright (c) 1 X."),
        "SPDX-License-Identifier: MPL-2.0\nCopyright (c) 1 X."
    );
    assert_eq!(mit_license("body".to_string()).comment, "SPDX-License-Identifier: MIT");
    assert_eq!(mit_license("body".to_string()).text, "body");
    let bsd = bsd_license(BsdAmmendment::Modification, "body".to_string());
    assert_eq!(bsd.comment, "SPDX-License-Identifier: BSD-3-Clause-Modification");
    assert_eq!(bsd.text, "body");
}

#[test]
fn the_summary_shows_the_start_of_each_text() {
    let texts = LicenseTexts {
        text: "MIT License\n\nCopyright".to_string(),
        comment: "SPDX".to_string(),
        alt: None,
        interactive: Some("0123456789".to_string()),
    };
    assert_eq!(
        texts.to_string(),
        "Text: 'MIT Licens', Comment: 'SPDX', Alternative Text: 'N/A', Interactive Text: '0123456789'"
    );
    let texts = LicenseTexts {
        text: String::new(),
        comment: "SPDX-License-Identifier: MIT".to_string(),
        alt: Some("01234567890".to_string()),
        interactive: None,
    };
    assert_eq!(
        texts.to_string(),
        "Text: '', Comment: 'SPDX-Licen', Alternative Text: '0123456789', Interactive Text: 'N/A'"
    );
    assert_eq!(excerpt("ééééééééééé"), "éééééééééé");
    assert_eq!(excerpt("short"), "short");
}
