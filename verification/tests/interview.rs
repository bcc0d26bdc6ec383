use license_gen::interview::{
    is_complete, next_question, opening_questions, prompt_line, read_answer, signing_questions,
    signing_wanted, AnswerKind, PromptAnswer, Question,
};
use license_gen::io::Reply;
use license_gen::license::{BsdAmmendment, Licenses, VersionAmmendment};

use Question::{
    Description, FullName, Interactive, Organization, ProgramName, ProgramVersion,
    SecondaryLicenses, SignedRelease, SignerName, SignerTitle, SigningDay, SigningMonth,
    SigningOrganization, SigningYear, Website, Year,
};

/// Answers every question of `license` with `reply(question)` and returns
/// the questions in the order in which they were put.
fn questions_put(license: &Licenses, reply: fn(Question) -> &'static str) -> Vec<Question> {
    let mut answers = Vec::new();
    let mut put = Vec::new();
    while let Some(question) = next_question(license, &answers) {
        put.push(question);
        match read_answer(question, reply(question)) {
            Reply::Accepted(answer) => answers.push(answer),
            Reply::Rejected(message) => panic!("{message}"),
        }
        assert!(put.len() <= 13);
    }
    assert!(is_complete(license, &answers));
    put
}

fn with_signing(question: Question) -> &'static str {
    match question.kind() {
        AnswerKind::Integer => "2025",
        AnswerKind::Flag => "yes",
        _ => "text",
    }
}

fn without_signing(question: Question) -> &'static str {
    match question.kind() {
        AnswerKind::Integer => "2025",
        AnswerKind::Flag => "no",
        _ => "",
    }
}

const SIGNING: [Question; 6] =
    [SigningOrganization, SignerName, SignerTitle, SigningDay, SigningMonth, SigningYear];

#[test]
fn the_simple_licenses_ask_for_year_and_name() {
    for license in [
        Licenses::Mit,
        Licenses::Apache2,
        Licenses::Bsl1,
        Licenses::Unlicense,
        Licenses::Cddl1,
        Licenses::Mpl2,
        Licenses::Bsd3Clause(BsdAmmendment::Plain),
        Licenses::Bsd3Clause(BsdAmmendment::Modification),
        Licenses::Bsd3Clause(BsdAmmendment::NoMilitary),
    ] {
        assert_eq!(questions_put(&license, with_signing), [Year, FullName]);
        assert_eq!(questions_put(&license, without_signing), [Year, FullName]);
    }
}

#[test]
fn the_attribution_clause_asks_for_organization_and_website() {
    let license = Licenses::Bsd3Clause(BsdAmmendment::Attribution);
    assert_eq!(questions_put(&license, with_signing), [Year, FullName, Organization, Website]);
    assert_eq!(questions_put(&license, without_signing), [Year, FullName, Organization, Website]);
}

#[test]
fn the_eclipse_license_asks_one_question() {
    assert_eq!(questions_put(&Licenses::Epl2, with_signing), [SecondaryLicenses]);
    assert_eq!(questions_put(&Licenses::Epl2, without_signing), [SecondaryLicenses]);
}

#[test]
fn the_general_licenses_ask_for_version_and_interaction_before_the_release() {
    for amendment in [VersionAmmendment::Plain, VersionAmmendment::Only, VersionAmmendment::OrLater]
    {
        for license in [Licenses::Agpl3(amendment), Licenses::Gpl3(amendment)] {
            let opening =
                [Year, FullName, ProgramName, ProgramVersion, Description, Interactive, SignedRelease];
            assert_eq!(questions_put(&license, without_signing), opening);
            let put = questions_put(&license, with_signing);
            assert_eq!(put[..7], opening);
            assert_eq!(put[7..], SIGNING);
            let release = put.iter().position(|q| *q == SignedRelease).unwrap();
            assert!(put.iter().position(|q| *q == ProgramVersion).unwrap() < release);
            assert!(put.iter().position(|q| *q == Interactive).unwrap() < release);
        }
    }
}

#[test]
fn the_lesser_license_never_asks_for_version_or_interaction() {
    for amendment in [VersionAmmendment::Plain, VersionAmmendment::Only, VersionAmmendment::OrLater]
    {
        let license = Licenses::Lgpl3(amendment);
        let opening = [Year, FullName, ProgramName, SignedRelease];
        assert_eq!(questions_put(&license, without_signing), opening);
        let put = questions_put(&license, with_signing);
        assert_eq!(put[..4], opening);
        assert_eq!(put[4..], SIGNING);
        assert!(!put.contains(&ProgramVersion));
        assert!(!put.contains(&Interactive));
    }
}

#[test]
fn the_questions_on_signing_follow_a_yes_only() {
    let license = Licenses::Lgpl3(VersionAmmendment::Plain);
    let mut answers = vec![
        PromptAnswer::Integer(2025),
        PromptAnswer::Text("Your Name".to_string()),
        PromptAnswer::Text("license".to_string()),
    ];
    assert_eq!(next_question(&license, &answers), Some(SignedRelease));
    assert!(!signing_wanted(&license, &answers));
    answers.push(PromptAnswer::Flag(false));
    assert!(!signing_wanted(&license, &answers));
    assert_eq!(next_question(&license, &answers), None);
    assert!(is_complete(&license, &answers));
    answers[3] = PromptAnswer::Flag(true);
    assert!(signing_wanted(&license, &answers));
    assert_eq!(next_question(&license, &answers), Some(SigningOrganization));
    assert!(!is_complete(&license, &answers));
    assert!(!signing_wanted(&Licenses::Mit, &answers));
}

#[test]
fn answers_are_complete_when_each_question_has_one_of_its_kind() {
    let year = PromptAnswer::Integer(2025);
    let name = PromptAnswer::Text("Your Name".to_string());
    assert!(!is_complete(&Licenses::Mit, &vec![]));
    assert!(!is_complete(&Licenses::Mit, &vec![year.clone()]));
    assert!(is_complete(&Licenses::Mit, &vec![year.clone(), name.clone()]));
    assert!(!is_complete(&Licenses::Mit, &vec![name.clone(), year.clone()]));
    assert!(!is_complete(&Licenses::Mit, &vec![year.clone(), name.clone(), name.clone()]));
    assert!(!is_complete(&Licenses::Mit, &vec![year.clone(), PromptAnswer::OptionalText(None)]));
    assert!(!is_complete(&Licenses::Epl2, &vec![year.clone(), name.clone()]));
    assert!(is_complete(&Licenses::Epl2, &vec![PromptAnswer::List(vec![])]));
    assert!(!is_complete(&Licenses::Epl2, &vec![PromptAnswer::OptionalFlag(None)]));
}

#[test]
fn each_question_is_put_with_its_words_and_the_ending_of_its_kind() {
    assert_eq!(prompt_line(Year), "Enter the copyright year: ");
    assert_eq!(prompt_line(FullName), "Enter the full name of the copyright holder: ");
    assert_eq!(prompt_line(Organization), "Enter the name of the organization (optional): ");
    assert_eq!(prompt_line(Website), "Enter the website of the organization (optional): ");
    assert_eq!(prompt_line(ProgramName), "Enter the name of the program: ");
    assert_eq!(prompt_line(ProgramVersion), "Enter the version of the program (optional): ");
    assert_eq!(
        prompt_line(Description),
        "Enter a short description of the program (5-10 words): "
    );
    assert_eq!(
        prompt_line(Interactive),
        "Is this program interactive? (e.g., a website, CLI tool, etc.) ([y]es/[n]o): "
    );
    assert_eq!(
        prompt_line(SignedRelease),
        "Do you need a signed release for this software? (e.g., for an organization) ([y]es/[n]o): "
    );
    assert_eq!(prompt_line(SigningOrganization), "Enter the name of the organization: ");
    assert_eq!(prompt_line(SignerName), "Enter the name of the signer from the organization: ");
    assert_eq!(
        prompt_line(SignerTitle),
        "Enter the position within the organization of the signer: "
    );
    assert_eq!(prompt_line(SigningDay), "Enter the day of the signing: ");
    assert_eq!(prompt_line(SigningMonth), "Enter the month of the signing: ");
    assert_eq!(prompt_line(SigningYear), "Enter the year of the signing: ");
    assert_eq!(
        prompt_line(SecondaryLicenses),
        "Enter the secondary licenses that are permitted (comma separated) (optional): "
    );
    assert_eq!(AnswerKind::OptionalFlag.hint(), " ([y]es/[n]o) (optional): ");
}

#[test]
fn an_answer_is_read_as_the_kind_of_its_question_says() {
    assert_eq!(read_answer(Year, " 2025\n"), Reply::Accepted(PromptAnswer::Integer(2025)));
    assert_eq!(
        read_answer(Year, "soon\n"),
        Reply::Rejected("Invalid input: soon.\nPlease try again.".to_string())
    );
    assert_eq!(
        read_answer(FullName, "Your Name\n"),
        Reply::Accepted(PromptAnswer::Text("Your Name".to_string()))
    );
    assert_eq!(read_answer(FullName, "\n"), Reply::Accepted(PromptAnswer::Text(String::new())));
    assert_eq!(read_answer(Website, "\n"), Reply::Accepted(PromptAnswer::OptionalText(None)));
    assert_eq!(
        read_answer(Website, "https://acme.example.com\n"),
        Reply::Accepted(PromptAnswer::OptionalText(Some("https://acme.example.com".to_string())))
    );
    assert_eq!(read_answer(Interactive, "Y\n"), Reply::Accepted(PromptAnswer::Flag(true)));
    assert_eq!(
        read_answer(SignedRelease, "\n"),
        Reply::Rejected("Please answer 'yes' or 'no'.".to_string())
    );
    assert_eq!(
        read_answer(SigningDay, "7\n"),
        Reply::Accepted(PromptAnswer::Text("7".to_string()))
    );
    assert_eq!(read_answer(SigningYear, "2025\n"), Reply::Accepted(PromptAnswer::Integer(2025)));
    assert_eq!(read_answer(SecondaryLicenses, "\n"), Reply::Accepted(PromptAnswer::List(vec![])));
    assert_eq!(
        read_answer(SecondaryLicenses, "MIT, Apache-2.0\n"),
        Reply::Accepted(PromptAnswer::List(vec!["MIT".to_string(), "Apache-2.0".to_string()]))
    );
}

#[test]
fn the_lists_of_questions_are_fixed() {
    assert_eq!(signing_questions(), SIGNING);
    assert_eq!(opening_questions(&Licenses::Epl2), [SecondaryLicenses]);
    assert_eq!(
        opening_questions(&Licenses::Lgpl3(VersionAmmendment::OrLater)),
        [Year, FullName, ProgramName, SignedRelease]
    );
    assert_eq!(PromptAnswer::OptionalFlag(Some(true)).kind(), AnswerKind::OptionalFlag);
    assert_eq!(PromptAnswer::List(vec![]).kind(), AnswerKind::List);
}
