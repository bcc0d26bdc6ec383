//! The catalogue of supported licenses with their identifiers, and the
//! generation of the texts of a license from the answers to its questions.

use vstd::prelude::*;
use crate::interview::{
    answer_views, complete, flag_at, integer_at, is_complete, list_at, optional_text_at,
    question_at, signing_wanted, text_at, wants_signing, AnswerView, PromptAnswer,
};
use crate::template::TemplateFault;
use crate::texts::apache::{generate_apache_license, APACHE2};
use crate::texts::bsd::{bsd_outcome, generate_bsd_license};
use crate::texts::bsl::{generate_bsl_license, BSL1};
use crate::texts::cddl::{generate_cddl_license, CDDL1};
use crate::texts::epl::{epl_texts, generate_epl_license};
use crate::texts::gnu::{
    generate_agpl_license, generate_gpl_license, generate_lgpl_license, gnu_outcome,
    GnuLicenseTemplate, GnuLicenseTemplateView, SignedRelease, SignedReleaseView,
};
use crate::texts::mit::{generate_mit_license, mit_outcome};
use crate::texts::mpl::{generate_mpl_license, MPL2};
use crate::texts::unlicense::{generate_unlicense_license, UNLICENSE};
use crate::texts::{plain_texts, LicenseTexts};

verus! {

/// Which versions of a GNU license the licensee may choose.
#[derive(Debug, Clone, Copy, PartialEq, Eq, Hash, Structural)]
pub enum VersionAmmendment {
    /// No suffix: the identifier of the family alone.
    Plain,
    /// -only
    Only,
    /// -or-later
    OrLater,
}

impl VersionAmmendment {
    /// What the amendment adds to the identifier of its family.
    pub open spec fn suffix(self) -> Seq<char> {
        match self {
            VersionAmmendment::Plain => ""@,
            VersionAmmendment::Only => "-only"@,
            VersionAmmendment::OrLater => "-or-later"@,
        }
    }

    /// The suffix of the amendment as text.
    pub fn as_str(&self) -> (s: &'static str)
        ensures
            s@ == self.suffix(),
    {
        match self {
            VersionAmmendment::Plain => "",
            VersionAmmendment::Only => "-only",
            VersionAmmendment::OrLater => "-or-later",
        }
    }

    /// The suffix of the amendment as an owned string.
    pub fn to_string(&self) -> (s: String)
        ensures
            s@ == self.suffix(),
    {
        String::from_str(self.as_str())
    }
}

/// The clause that a BSD license carries beside its three.
#[derive(Debug, Clone, Copy, PartialEq, Eq, Hash, Structural)]
pub enum BsdAmmendment {
    /// No suffix: the three clauses alone.
    Plain,
    /// -Attribution
    Attribution,
    /// -Modification
    Modification,
    /// -No-Military-License
    NoMilitary,
}

impl BsdAmmendment {
    /// What the amendment adds to the identifier of its family.
    pub open spec fn suffix(self) -> Seq<char> {
        match self {
            BsdAmmendment::Plain => ""@,
            BsdAmmendment::Attribution => "-Attribution"@,
            BsdAmmendment::Modification => "-Modification"@,
            BsdAmmendment::NoMilitary => "-No-Military-License"@,
        }
    }

    /// The suffix of the amendment as text.
    pub fn as_str(&self) -> (s: &'static str)
        ensures
            s@ == self.suffix(),
    {
        match self {
            BsdAmmendment::Plain => "",
            BsdAmmendment::Attribution => "-Attribution",
            BsdAmmendment::Modification => "-Modification",
            BsdAmmendment::NoMilitary => "-No-Military-License",
        }
    }

    /// The suffix of the amendment as an owned string.
    pub fn to_string(&self) -> (s: String)
        ensures
            s@ == self.suffix(),
    {
        String::from_str(self.as_str())
    }
}

/// A license that can be generated: a family and, where the family has
/// them, one amendment.
#[derive(Debug, Clone, Copy, PartialEq, Eq, Hash, Structural)]
pub enum Licenses {
    Mit,
    Agpl3(VersionAmmendment),
    Gpl3(VersionAmmendment),
    Lgpl3(VersionAmmendment),
    Apache2,
    Bsl1,
    Unlicense,
    Cddl1,
    Epl2,
    Mpl2,
    Bsd3Clause(BsdAmmendment),
}

/// An identifier that names no license of the catalogue.
#[derive(Debug, Clone, PartialEq, Eq)]
pub struct ParseError {
    /// The identifier that was not recognised.
    pub token: String,
}

impl Licenses {
    /// The identifier of the family, without amendment.
    pub open spec fn family(self) -> Seq<char> {
        match self {
            Licenses::Mit => "MIT"@,
            Licenses::Agpl3(_) => "AGPL-3.0"@,
            Licenses::Gpl3(_) => "GPL-3.0"@,
            Licenses::Lgpl3(_) => "LGPL-3.0"@,
            Licenses::Apache2 => "Apache-2.0"@,
            Licenses::Bsl1 => "BSL-1.0"@,
            Licenses::Unlicense => "Unlicense"@,
            Licenses::Cddl1 => "CDDL-1.0"@,
            Licenses::Epl2 => "EPL-2.0"@,
            Licenses::Mpl2 => "MPL-2.0"@,
            Licenses::Bsd3Clause(_) => "BSD-3-Clause"@,
        }
    }

    /// What the amendment of the license adds to the family's identifier.
    pub open spec fn suffix(self) -> Seq<char> {
        match self {
            Licenses::Agpl3(a) => a.suffix(),
            Licenses::Gpl3(a) => a.suffix(),
            Licenses::Lgpl3(a) => a.suffix(),
            Licenses::Bsd3Clause(a) => a.suffix(),
            _ => ""@,
        }
    }

    /// The identifier of the license: the family's, then the amendment's suffix.
    pub open spec fn identifier(self) -> Seq<char> {
        self.family() + self.suffix()
    }

    /// Every license, in the order in which the catalogue lists them.
    pub open spec fn catalog() -> Seq<Licenses> {
        seq![
            Licenses::Mit,
            Licenses::Agpl3(VersionAmmendment::Plain),
            Licenses::Agpl3(VersionAmmendment::Only),
            Licenses::Agpl3(VersionAmmendment::OrLater),
            Licenses::Gpl3(VersionAmmendment::Plain),
            Licenses::Gpl3(VersionAmmendment::Only),
            Licenses::Gpl3(VersionAmmendment::OrLater),
            Licenses::Lgpl3(VersionAmmendment::Plain),
            Licenses::Lgpl3(VersionAmmendment::Only),
            Licenses::Lgpl3(VersionAmmendment::OrLater),
            Licenses::Apache2,
            Licenses::Bsl1,
            Licenses::Unlicense,
            Licenses::Cddl1,
            Licenses::Epl2,
            Licenses::Mpl2,
            Licenses::Bsd3Clause(BsdAmmendment::Plain),
            Licenses::Bsd3Clause(BsdAmmendment::Attribution),
            Licenses::Bsd3Clause(BsdAmmendment::Modification),
            Licenses::Bsd3Clause(BsdAmmendment::NoMilitary),
        ]
    }

    /// The license that `identifier` names, if it names one.
    pub open spec fn resolved(identifier: Seq<char>) -> Option<Licenses> {
        if exists|license: Licenses| license.identifier() == identifier {
            Some(choose|license: Licenses| license.identifier() == identifier)
        } else {
            None
        }
    }

    /// Whether the license is of the GNU family.
    pub open spec fn is_gnu(self) -> bool {
        self is Agpl3 || self is Gpl3 || self is Lgpl3
    }

    /// Whether the license is of the GNU family.
    pub fn is_gnu_license(&self) -> (gnu: bool)
        ensures
            gnu == self.is_gnu(),
    {
        match self {
            Licenses::Agpl3(_) | Licenses::Gpl3(_) | Licenses::Lgpl3(_) => true,
            _ => false,
        }
    }

    /// The family's identifier as text.
    pub fn family_str(&self) -> (s: &'static str)
        ensures
            s@ == self.family(),
    {
        match self {
            Licenses::Mit => "MIT",
            Licenses::Agpl3(_) => "AGPL-3.0",
            Licenses::Gpl3(_) => "GPL-3.0",
            Licenses::Lgpl3(_) => "LGPL-3.0",
            Licenses::Apache2 => "Apache-2.0",
            Licenses::Bsl1 => "BSL-1.0",
            Licenses::Unlicense => "Unlicense",
            Licenses::Cddl1 => "CDDL-1.0",
            Licenses::Epl2 => "EPL-2.0",
            Licenses::Mpl2 => "MPL-2.0",
            Licenses::Bsd3Clause(_) => "BSD-3-Clause",
        }
    }

    /// The identifier of the license as a string.
    pub fn to_string(&self) -> (s: String)
        ensures
            s@ == self.identifier(),
    {
        let mut s = String::from_str(self.family_str());
        match self {
            Licenses::Agpl3(a) => s.append(a.as_str()),
            Licenses::Gpl3(a) => s.append(a.as_str()),
            Licenses::Lgpl3(a) => s.append(a.as_str()),
            Licenses::Bsd3Clause(a) => s.append(a.as_str()),
            _ => s.append(""),
        }
        s
    }

    /// Every license of the catalogue.
    pub fn value_variants() -> (all: Vec<Licenses>)
        ensures
            all@ == Licenses::catalog(),
    {
        let mut all: Vec<Licenses> = Vec::new();
        all.push(Licenses::Mit);
        all.push(Licenses::Agpl3(VersionAmmendment::Plain));
        all.push(Licenses::Agpl3(VersionAmmendment::Only));
        all.push(Licenses::Agpl3(VersionAmmendment::OrLater));
        all.push(Licenses::Gpl3(VersionAmmendment::Plain));
        all.push(Licenses::Gpl3(VersionAmmendment::Only));
        all.push(Licenses::Gpl3(VersionAmmendment::OrLater));
        all.push(Licenses::Lgpl3(VersionAmmendment::Plain));
        all.push(Licenses::Lgpl3(VersionAmmendment::Only));
        all.push(Licenses::Lgpl3(VersionAmmendment::OrLater));
        all.push(Licenses::Apache2);
        all.push(Licenses::Bsl1);
        all.push(Licenses::Unlicense);
        all.push(Licenses::Cddl1);
        all.push(Licenses::Epl2);
        all.push(Licenses::Mpl2);
        all.push(Licenses::Bsd3Clause(BsdAmmendment::Plain));
        all.push(Licenses::Bsd3Clause(BsdAmmendment::Attribution));
        all.push(Licenses::Bsd3Clause(BsdAmmendment::Modification));
        all.push(Licenses::Bsd3Clause(BsdAmmendment::NoMilitary));
        assert(all@ =~= Licenses::catalog());
        all
    }

    /// Finds the license that `identifier` names. An identifier that names
    /// none is handed back in the error.
    pub fn resolve(identifier: &str) -> (r: Result<Licenses, ParseError>)
        ensures
            match r {
                Ok(license) => Licenses::resolved(identifier@) == Some(license),
                Err(e) => Licenses::resolved(identifier@) is None && e.token@ == identifier@,
            },
    {
        let all = Licenses::value_variants();
        let wanted = String::from_str(identifier);
        let mut i: usize = 0;
        while i < all.len()
            invariant
                i <= all.len(),
                all@ == Licenses::catalog(),
                wanted@ == identifier@,
                forall|j: int| 0 <= j < i ==> (#[trigger] all@[j]).identifier() != identifier@,
            decreases all.len() - i,
        {
            let name = all[i].to_string();
            if name == wanted {
                proof {
                    let found = all@[i as int];
                    let chosen = choose|license: Licenses| license.identifier() == identifier@;
                    lemma_identifier_injective(found, chosen);
                }
                return Ok(all[i]);
            }
            i = i + 1;
        }
        proof {
            assert forall|license: Licenses| license.identifier() != identifier@ by {
                lemma_catalog_complete(license);
            }
        }
        Err(ParseError { token: wanted })
    }
}

impl ParseError {
    /// The words that report the error.
    pub open spec fn message_text(self) -> Seq<char> {
        "invalid variant: "@ + self.token@
    }

    /// A line that names the identifier that was not recognised.
    pub fn message(&self) -> (s: String)
        ensures
            s@ == self.message_text(),
    {
        let mut s = String::from_str("invalid variant: ");
        s.append(self.token.as_str());
        s
    }
}

/// Every license stands in the catalogue.
pub proof fn lemma_catalog_complete(license: Licenses)
    ensures
        exists|i: int| 0 <= i < Licenses::catalog().len() && Licenses::catalog()[i] == license,
{
    let c = Licenses::catalog();
    match license {
        Licenses::Mit => assert(c[0] == license),
        Licenses::Agpl3(VersionAmmendment::Plain) => assert(c[1] == license),
        Licenses::Agpl3(VersionAmmendment::Only) => assert(c[2] == license),
        Licenses::Agpl3(VersionAmmendment::OrLater) => assert(c[3] == license),
        Licenses::Gpl3(VersionAmmendment::Plain) => assert(c[4] == license),
        Licenses::Gpl3(VersionAmmendment::Only) => assert(c[5] == license),
        Licenses::Gpl3(VersionAmmendment::OrLater) => assert(c[6] == license),
        Licenses::Lgpl3(VersionAmmendment::Plain) => assert(c[7] == license),
        Licenses::Lgpl3(VersionAmmendment::Only) => assert(c[8] == license),
        Licenses::Lgpl3(VersionAmmendment::OrLater) => assert(c[9] == license),
        Licenses::Apache2 => assert(c[10] == license),
        Licenses::Bsl1 => assert(c[11] == license),
        Licenses::Unlicense => assert(c[12] == license),
        Licenses::Cddl1 => assert(c[13] == license),
        Licenses::Epl2 => assert(c[14] == license),
        Licenses::Mpl2 => assert(c[15] == license),
        Licenses::Bsd3Clause(BsdAmmendment::Plain) => assert(c[16] == license),
        Licenses::Bsd3Clause(BsdAmmendment::Attribution) => assert(c[17] == license),
        Licenses::Bsd3Clause(BsdAmmendment::Modification) => assert(c[18] == license),
        Licenses::Bsd3Clause(BsdAmmendment::NoMilitary) => assert(c[19] == license),
    }
}

/// The length of an identifier and its first three characters.
spec fn shape(identifier: Seq<char>) -> (nat, char, char, char)
    recommends
        identifier.len() >= 3,
{
    (identifier.len(), identifier[0], identifier[1], identifier[2])
}

/// The shape that the identifier of `license` has.
spec fn shape_of(license: Licenses) -> (nat, char, char, char) {
    match license {
        Licenses::Mit => (3, 'M', 'I', 'T'),
        Licenses::Agpl3(VersionAmmendment::Plain) => (8, 'A', 'G', 'P'),
        Licenses::Agpl3(VersionAmmendment::Only) => (13, 'A', 'G', 'P'),
        Licenses::Agpl3(VersionAmmendment::OrLater) => (17, 'A', 'G', 'P'),
        Licenses::Gpl3(VersionAmmendment::Plain) => (7, 'G', 'P', 'L'),
        Licenses::Gpl3(VersionAmmendment::Only) => (12, 'G', 'P', 'L'),
        Licenses::Gpl3(VersionAmmendment::OrLater) => (16, 'G', 'P', 'L'),
        Licenses::Lgpl3(VersionAmmendment::Plain) => (8, 'L', 'G', 'P'),
        Licenses::Lgpl3(VersionAmmendment::Only) => (13, 'L', 'G', 'P'),
        Licenses::Lgpl3(VersionAmmendment::OrLater) => (17, 'L', 'G', 'P'),
        Licenses::Apache2 => (10, 'A', 'p', 'a'),
        Licenses::Bsl1 => (7, 'B', 'S', 'L'),
        Licenses::Unlicense => (9, 'U', 'n', 'l'),
        Licenses::Cddl1 => (8, 'C', 'D', 'D'),
        Licenses::Epl2 => (7, 'E', 'P', 'L'),
        Licenses::Mpl2 => (7, 'M', 'P', 'L'),
        Licenses::Bsd3Clause(BsdAmmendment::Plain) => (12, 'B', 'S', 'D'),
        Licenses::Bsd3Clause(BsdAmmendment::Attribution) => (24, 'B', 'S', 'D'),
        Licenses::Bsd3Clause(BsdAmmendment::Modification) => (25, 'B', 'S', 'D'),
        Licenses::Bsd3Clause(BsdAmmendment::NoMilitary) => (32, 'B', 'S', 'D'),
    }
}

/// The identifier of a license has the shape that `shape_of` lists.
proof fn lemma_identifier_shape(license: Licenses)
    ensures
        shape(license.identifier()) == shape_of(license),
{
    reveal_strlit("");
    reveal_strlit("-only");
    reveal_strlit("-or-later");
    reveal_strlit("-Attribution");
    reveal_strlit("-Modification");
    reveal_strlit("-No-Military-License");
    reveal_strlit("MIT");
    reveal_strlit("AGPL-3.0");
    reveal_strlit("GPL-3.0");
    reveal_strlit("LGPL-3.0");
    reveal_strlit("Apache-2.0");
    reveal_strlit("BSL-1.0");
    reveal_strlit("Unlicense");
    reveal_strlit("CDDL-1.0");
    reveal_strlit("EPL-2.0");
    reveal_strlit("MPL-2.0");
    reveal_strlit("BSD-3-Clause");
}

/// No two licenses share an identifier.
pub proof fn lemma_identifier_injective(a: Licenses, b: Licenses)
    requires
        a.identifier() == b.identifier(),
    ensures
        a == b,
{
    lemma_identifier_shape(a);
    lemma_identifier_shape(b);
}

/// Resolving the identifier of a license gives that license back.
pub proof fn lemma_resolve_round_trip(license: Licenses)
    ensures
        Licenses::resolved(license.identifier()) == Some(license),
{
    let chosen = choose|other: Licenses| other.identifier() == license.identifier();
    lemma_identifier_injective(license, chosen);
}

/// Why no texts were generated.
#[derive(Debug)]
pub enum GenerateError {
    /// The answers are not those to the questions of the license.
    Answers,
    /// A template gave no text.
    Template(TemplateFault),
}

/// The signing that the answers from place `first` on describe.
pub open spec fn signing_of(answers: Seq<AnswerView>, first: int) -> SignedReleaseView {
    SignedReleaseView {
        organization: answers[first]->Text_0,
        signer: answers[first + 1]->Text_0,
        title: answers[first + 2]->Text_0,
        day: answers[first + 3]->Text_0,
        month: answers[first + 4]->Text_0,
        year: answers[first + 5]->Integer_0,
    }
}

/// What the answers to the questions of a GNU license say of the program.
/// A license of the LGPL family has no version, no description and no notice.
pub open spec fn gnu_answers(license: Licenses, answers: Seq<AnswerView>) -> GnuLicenseTemplateView {
    if license is Lgpl3 {
        GnuLicenseTemplateView {
            year: answers[0]->Integer_0,
            fullname: answers[1]->Text_0,
            program: answers[2]->Text_0,
            version: None,
            description: None,
            interactive: false,
            release: if wants_signing(license, answers) {
                Some(signing_of(answers, 4))
            } else {
                None
            },
        }
    } else {
        GnuLicenseTemplateView {
            year: answers[0]->Integer_0,
            fullname: answers[1]->Text_0,
            program: answers[2]->Text_0,
            version: answers[3]->OptionalText_0,
            description: Some(answers[4]->Text_0),
            interactive: answers[5]->Flag_0,
            release: if wants_signing(license, answers) {
                Some(signing_of(answers, 7))
            } else {
                None
            },
        }
    }
}

/// What is generated for `license` from a complete list of `answers`: the
/// texts of its family for what the answers say, or the fault of the
/// template that gave no text.
pub open spec fn generation(
    license: Licenses,
    answers: Seq<AnswerView>,
    r: Result<LicenseTexts, TemplateFault>,
) -> bool
    recommends
        complete(license, answers),
{
    match license {
        Licenses::Mit => mit_outcome(r, answers[0]->Integer_0, answers[1]->Text_0),
        Licenses::Bsd3Clause(BsdAmmendment::Attribution) => bsd_outcome(
            r,
            BsdAmmendment::Attribution,
            answers[0]->Integer_0,
            answers[1]->Text_0,
            answers[2]->OptionalText_0,
            answers[3]->OptionalText_0,
        ),
        Licenses::Bsd3Clause(amendment) => bsd_outcome(
            r,
            amendment,
            answers[0]->Integer_0,
            answers[1]->Text_0,
            None,
            None,
        ),
        Licenses::Agpl3(_) | Licenses::Gpl3(_) | Licenses::Lgpl3(_) => gnu_outcome(
            r,
            license,
            gnu_answers(license, answers),
        ),
        Licenses::Epl2 => r matches Ok(texts) && texts@ == epl_texts(answers[0]->List_0),
        Licenses::Apache2 => r matches Ok(texts) && texts@ == plain_texts(
            license,
            APACHE2@,
            answers[0]->Integer_0,
            answers[1]->Text_0,
        ),
        Licenses::Bsl1 => r matches Ok(texts) && texts@ == plain_texts(
            license,
            BSL1@,
            answers[0]->Integer_0,
            answers[1]->Text_0,
        ),
        Licenses::Unlicense => r matches Ok(texts) && texts@ == plain_texts(
            license,
            UNLICENSE@,
            answers[0]->Integer_0,
            answers[1]->Text_0,
        ),
        Licenses::Cddl1 => r matches Ok(texts) && texts@ == plain_texts(
            license,
            CDDL1@,
            answers[0]->Integer_0,
            answers[1]->Text_0,
        ),
        Licenses::Mpl2 => r matches Ok(texts) && texts@ == plain_texts(
            license,
            MPL2@,
            answers[0]->Integer_0,
            answers[1]->Text_0,
        ),
    }
}

/// What generating from `answers` returns: for a list of answers that is
/// not complete the error that says so, for a complete one what
/// `generation` describes.
pub open spec fn generated(
    license: Licenses,
    answers: Seq<AnswerView>,
    r: Result<LicenseTexts, GenerateError>,
) -> bool {
    match r {
        Ok(texts) => complete(license, answers) && generation(license, answers, Ok(texts)),
        Err(GenerateError::Template(fault)) => complete(license, answers) && generation(
            license,
            answers,
            Err(fault),
        ),
        Err(GenerateError::Answers) => !complete(license, answers),
    }
}

/// Hands a family's result on, with the fault of a template as the error.
fn finish(r: Result<LicenseTexts, TemplateFault>) -> (out: Result<LicenseTexts, GenerateError>)
    ensures
        match out {
            Ok(texts) => r == Ok::<LicenseTexts, TemplateFault>(texts),
            Err(GenerateError::Template(fault)) => r == Err::<LicenseTexts, TemplateFault>(fault),
            Err(GenerateError::Answers) => false,
        },
{
    match r {
        Ok(texts) => Ok(texts),
        Err(fault) => Err(GenerateError::Template(fault)),
    }
}

/// Reads the signing of a release from the six answers that start at `first`.
fn signed_release(answers: &Vec<PromptAnswer>, first: usize) -> (release: SignedRelease)
    requires
        first + 6 <= answers.len(),
        answers[first as int]@ is Text,
        answers[first + 1]@ is Text,
        answers[first + 2]@ is Text,
        answers[first + 3]@ is Text,
        answers[first + 4]@ is Text,
        answers[first + 5]@ is Integer,
    ensures
        release@ == signing_of(answer_views(answers@), first as int),
{
    SignedRelease {
        organization: text_at(answers, first),
        signer: text_at(answers, first + 1),
        title: text_at(answers, first + 2),
        day: text_at(answers, first + 3),
        month: text_at(answers, first + 4),
        year: integer_at(answers, first + 5),
    }
}

/// Reads what the answers to the questions of a GNU license say of the program.
fn gnu_template(license: &Licenses, answers: &Vec<PromptAnswer>) -> (template: GnuLicenseTemplate)
    requires
        license.is_gnu(),
        complete(*license, answer_views(answers@)),
    ensures
        template@ == gnu_answers(*license, answer_views(answers@)),
{
    let ghost views = answer_views(answers@);
    proof {
        assert forall|i: int| 0 <= i < views.len() implies views[i] == answers@[i]@ by {}
        assert forall|i: int| 0 <= i < views.len() implies (#[trigger] answers@[i])@.kind()
            == question_at(*license, i).kind_of() by {
            assert(views[i].kind() == question_at(*license, i).kind_of());
        }
    }
    let signed = signing_wanted(license, answers);
    match license {
        Licenses::Lgpl3(_) => {
            assert(answers@[0]@.kind() == question_at(*license, 0).kind_of());
            assert(answers@[1]@.kind() == question_at(*license, 1).kind_of());
            assert(answers@[2]@.kind() == question_at(*license, 2).kind_of());
            let release = if signed {
                assert(answers@[4]@.kind() == question_at(*license, 4).kind_of());
                assert(answers@[5]@.kind() == question_at(*license, 5).kind_of());
                assert(answers@[6]@.kind() == question_at(*license, 6).kind_of());
                assert(answers@[7]@.kind() == question_at(*license, 7).kind_of());
                assert(answers@[8]@.kind() == question_at(*license, 8).kind_of());
                assert(answers@[9]@.kind() == question_at(*license, 9).kind_of());
                Some(signed_release(answers, 4))
            } else {
                None
            };
            GnuLicenseTemplate {
                year: integer_at(answers, 0),
                fullname: text_at(answers, 1),
                program: text_at(answers, 2),
                version: None,
                description: None,
                interactive: false,
                release,
            }
        },
        _ => {
            assert(answers@[0]@.kind() == question_at(*license, 0).kind_of());
            assert(answers@[1]@.kind() == question_at(*license, 1).kind_of());
            assert(answers@[2]@.kind() == question_at(*license, 2).kind_of());
            assert(answers@[3]@.kind() == question_at(*license, 3).kind_of());
            assert(answers@[4]@.kind() == question_at(*license, 4).kind_of());
            assert(answers@[5]@.kind() == question_at(*license, 5).kind_of());
            let release = if signed {
                assert(answers@[7]@.kind() == question_at(*license, 7).kind_of());
                assert(answers@[8]@.kind() == question_at(*license, 8).kind_of());
                assert(answers@[9]@.kind() == question_at(*license, 9).kind_of());
                assert(answers@[10]@.kind() == question_at(*license, 10).kind_of());
                assert(answers@[11]@.kind() == question_at(*license, 11).kind_of());
                assert(answers@[12]@.kind() == question_at(*license, 12).kind_of());
                Some(signed_release(answers, 7))
            } else {
                None
            };
            GnuLicenseTemplate {
                year: integer_at(answers, 0),
                fullname: text_at(answers, 1),
                program: text_at(answers, 2),
                version: optional_text_at(answers, 3),
                description: Some(text_at(answers, 4)),
                interactive: flag_at(answers, 5),
                release,
            }
        },
    }
}

/// Generates the texts of `license` from the answers to its questions, in
/// the order in which the questions are put.
pub fn generate_license_text(license: &Licenses, answers: &Vec<PromptAnswer>) -> (r: Result<
    LicenseTexts,
    GenerateError,
>)
    ensures
        generated(*license, answer_views(answers@), r),
{
    if !is_complete(license, answers) {
        return Err(GenerateError::Answers);
    }
    let ghost views = answer_views(answers@);
    proof {
        assert forall|i: int| 0 <= i < views.len() implies (#[trigger] answers@[i])@.kind()
            == question_at(*license, i).kind_of() by {
            assert(views[i] == answers@[i]@);
            assert(views[i].kind() == question_at(*license, i).kind_of());
        }
    }
    match license {
        Licenses::Epl2 => {
            assert(answers@[0]@.kind() == question_at(*license, 0).kind_of());
            Ok(generate_epl_license(list_at(answers, 0)))
        },
        Licenses::Agpl3(a) => finish(generate_agpl_license(*a, gnu_template(license, answers))),
        Licenses::Gpl3(a) => finish(generate_gpl_license(*a, gnu_template(license, answers))),
        Licenses::Lgpl3(a) => finish(generate_lgpl_license(*a, gnu_template(license, answers))),
        _ => {
            assert(answers@[0]@.kind() == question_at(*license, 0).kind_of());
            assert(answers@[1]@.kind() == question_at(*license, 1).kind_of());
            let year = integer_at(answers, 0);
            let fullname = text_at(answers, 1);
            match license {
                Licenses::Mit => finish(generate_mit_license(year, fullname)),
                Licenses::Apache2 => Ok(generate_apache_license(year, fullname)),
                Licenses::Bsl1 => Ok(generate_bsl_license(year, fullname)),
                Licenses::Unlicense => Ok(generate_unlicense_license(year, fullname)),
                Licenses::Cddl1 => Ok(generate_cddl_license(year, fullname)),
                Licenses::Mpl2 => Ok(generate_mpl_license(year, fullname)),
                Licenses::Bsd3Clause(BsdAmmendment::Attribution) => {
                    assert(answers@[2]@.kind() == question_at(*license, 2).kind_of());
                    assert(answers@[3]@.kind() == question_at(*license, 3).kind_of());
                    let organization = optional_text_at(answers, 2);
                    let website = optional_text_at(answers, 3);
                    finish(
                        generate_bsd_license(
                            BsdAmmendment::Attribution,
                            year,
                            fullname,
                            organization,
                            website,
                        ),
                    )
                },
                Licenses::Bsd3Clause(a) => finish(
                    generate_bsd_license(*a, year, fullname, None, None),
                ),
                _ => vstd::pervasive::unreached(),
            }
        },
    }
}

/// Generating twice from the same license and the same answers succeeds
/// both times or fails both times, and where it succeeds it gives the same
/// texts.
pub proof fn lemma_generation_is_determined(
    license: Licenses,
    answers: Seq<AnswerView>,
    first: Result<LicenseTexts, GenerateError>,
    second: Result<LicenseTexts, GenerateError>,
)
    requires
        generated(license, answers, first),
        generated(license, answers, second),
    ensures
        first is Ok <==> second is Ok,
        first is Ok ==> first->Ok_0@ == second->Ok_0@,
{
}

} // verus!
