//! The licenses of the GNU family: the General, the Affero General and the
//! Lesser General Public License, each of version 3, with the disclaimer of
//! an employer and the notice of an interactive program.

use vstd::prelude::*;
use crate::license::{Licenses, VersionAmmendment};
use crate::strings::{decimal, u16_to_string};
use crate::template::{
    distinct_names, explains, optional_field, pairs, render_template, rendered, TemplateFault,
};
use crate::texts::agpl::{agpl3, agpl_text};
use crate::texts::gpl::{gpl3, gpl_text};
use crate::texts::lgpl::LGPL3;
use crate::texts::{
    field, gnu_copyright_line, gnu_copyright_line_of, header, header_of, optional_text,
    LicenseTexts, LicenseTextsView,
};

verus! {

/// Who signs the disclaimer of copyright interest, for whom and when.
#[derive(Debug, Clone, PartialEq, Eq)]
pub struct SignedRelease {
    pub organization: String,
    pub signer: String,
    pub title: String,
    pub day: String,
    pub month: String,
    pub year: u16,
}

/// What is known of a program that goes under a GNU license.
#[derive(Debug, Clone, PartialEq, Eq)]
pub struct GnuLicenseTemplate {
    pub year: u16,
    pub fullname: String,
    pub program: String,
    pub version: Option<String>,
    pub description: Option<String>,
    /// Whether the program talks to its users, and so has to show a notice.
    pub interactive: bool,
    /// The signing of a disclaimer, where one is needed.
    pub release: Option<SignedRelease>,
}

/// The contents of a `SignedRelease`.
pub ghost struct SignedReleaseView {
    pub organization: Seq<char>,
    pub signer: Seq<char>,
    pub title: Seq<char>,
    pub day: Seq<char>,
    pub month: Seq<char>,
    pub year: u16,
}

/// The contents of a `GnuLicenseTemplate`.
pub ghost struct GnuLicenseTemplateView {
    pub year: u16,
    pub fullname: Seq<char>,
    pub program: Seq<char>,
    pub version: Option<Seq<char>>,
    pub description: Option<Seq<char>>,
    pub interactive: bool,
    pub release: Option<SignedReleaseView>,
}

impl View for SignedRelease {
    type V = SignedReleaseView;

    open spec fn view(&self) -> SignedReleaseView {
        SignedReleaseView {
            organization: self.organization@,
            signer: self.signer@,
            title: self.title@,
            day: self.day@,
            month: self.month@,
            year: self.year,
        }
    }
}

impl View for GnuLicenseTemplate {
    type V = GnuLicenseTemplateView;

    open spec fn view(&self) -> GnuLicenseTemplateView {
        GnuLicenseTemplateView {
            year: self.year,
            fullname: self.fullname@,
            program: self.program@,
            version: optional_text(self.version),
            description: optional_text(self.description),
            interactive: self.interactive,
            release: match self.release {
                Some(release) => Some(release@),
                None => None,
            },
        }
    }
}

/// The name under which the disclaimer is registered.
pub const DISCLAIMER_NAME: &'static str = "gnu_disclaimer";

/// The name under which the notice is registered.
pub const NOTICE_NAME: &'static str = "gnu_notice";

/// The disclaimer by which an organization gives up its interest in a program.
pub const DISCLAIMER: &'static str = r#"{{{organization}}}, hereby disclaims all copyright interest in the program
"{{{program}}}"{{#if description}} ({{{description}}}){{/if}} written by {{{fullname}}}.

<signature of {{{signer}}}>, {{{day}}} {{{month}}} {{year}}
{{{signer}}}, {{{title}}}
"#;

/// The notice that an interactive program shows when it starts.
pub const NOTICE: &'static str = r#"{{{program}}}{{#if version}} version {{{version}}}{{/if}}, Copyright (C) {{year}} {{{fullname}}}
{{{program}}} comes with ABSOLUTELY NO WARRANTY. For details type `show w'.
This is free software, and you are welcome to redistribute it
under certain conditions. Type `show c' for details.
"#;

/// The fields of the disclaimer: who disclaims, the program and its
/// description where there is one, its author, and the signing.
pub open spec fn disclaimer_fields(
    license: GnuLicenseTemplateView,
    release: SignedReleaseView,
) -> Seq<(Seq<char>, Seq<char>)> {
    seq![("organization"@, release.organization), ("program"@, license.program)] + optional_field(
        "description"@,
        license.description,
    ) + seq![
        ("fullname"@, license.fullname),
        ("signer"@, release.signer),
        ("title"@, release.title),
        ("day"@, release.day),
        ("month"@, release.month),
        ("year"@, decimal(release.year as nat)),
    ]
}

/// The fields of the notice: the program and its version where there is
/// one, the year and the author.
pub open spec fn notice_fields(license: GnuLicenseTemplateView) -> Seq<(Seq<char>, Seq<char>)> {
    seq![("program"@, license.program)] + optional_field("version"@, license.version) + seq![
        ("year"@, decimal(license.year as nat)),
        ("fullname"@, license.fullname),
    ]
}

/// The disclaimer for `license`, where one is needed and the template renders.
pub open spec fn disclaimer_of(license: GnuLicenseTemplateView) -> Option<Seq<char>> {
    match license.release {
        Some(release) => rendered(
            DISCLAIMER_NAME@,
            DISCLAIMER@,
            None,
            disclaimer_fields(license, release),
        ),
        None => None,
    }
}

/// The notice for `license`, where the program is interactive and the
/// template renders.
pub open spec fn notice_of(license: GnuLicenseTemplateView) -> Option<Seq<char>> {
    if license.interactive {
        rendered(NOTICE_NAME@, NOTICE@, None, notice_fields(license))
    } else {
        None
    }
}

impl GnuLicenseTemplate {
    /// The fields of the disclaimer that `release` signs.
    pub fn disclaimer_fields(&self, release: &SignedRelease) -> (fields: Vec<(String, String)>)
        ensures
            pairs(fields@) == disclaimer_fields(self@, release@),
            distinct_names(pairs(fields@)),
    {
        let mut fields: Vec<(String, String)> = Vec::new();
        fields.push(field("organization", release.organization.as_str()));
        fields.push(field("program", self.program.as_str()));
        match &self.description {
            Some(description) => fields.push(field("description", description.as_str())),
            None => {},
        }
        fields.push(field("fullname", self.fullname.as_str()));
        fields.push(field("signer", release.signer.as_str()));
        fields.push(field("title", release.title.as_str()));
        fields.push(field("day", release.day.as_str()));
        fields.push(field("month", release.month.as_str()));
        let year = u16_to_string(release.year);
        fields.push(field("year", year.as_str()));
        proof {
            reveal_strlit("organization");
            reveal_strlit("program");
            reveal_strlit("description");
            reveal_strlit("fullname");
            reveal_strlit("signer");
            reveal_strlit("title");
            reveal_strlit("day");
            reveal_strlit("month");
            reveal_strlit("year");
            assert("organization"@.len() == 12 && "program"@.len() == 7 && "description"@.len()
                == 11 && "fullname"@.len() == 8 && "signer"@.len() == 6 && "title"@.len() == 5
                && "day"@.len() == 3 && "month"@.len() == 5 && "year"@.len() == 4);
            assert("title"@[0] == 't' && "month"@[0] == 'm');
        }
        assert(pairs(fields@) =~= disclaimer_fields(self@, release@));
        fields
    }

    /// The fields of the notice.
    pub fn notice_fields(&self) -> (fields: Vec<(String, String)>)
        ensures
            pairs(fields@) == notice_fields(self@),
            distinct_names(pairs(fields@)),
    {
        let mut fields: Vec<(String, String)> = Vec::new();
        fields.push(field("program", self.program.as_str()));
        match &self.version {
            Some(version) => fields.push(field("version", version.as_str())),
            None => {},
        }
        let year = u16_to_string(self.year);
        fields.push(field("year", year.as_str()));
        fields.push(field("fullname", self.fullname.as_str()));
        proof {
            reveal_strlit("program");
            reveal_strlit("version");
            reveal_strlit("year");
            reveal_strlit("fullname");
            assert("program"@.len() == 7 && "version"@.len() == 7 && "year"@.len() == 4
                && "fullname"@.len() == 8);
            assert("program"@[0] == 'p' && "version"@[0] == 'v');
        }
        assert(pairs(fields@) =~= notice_fields(self@));
        fields
    }
}

/// The text of a license of the GNU family.
pub open spec fn family_text(license: Licenses) -> Seq<char>
    recommends
        license.is_gnu(),
{
    match license {
        Licenses::Agpl3(_) => GnuFamily::Affero.body(),
        Licenses::Lgpl3(_) => GnuFamily::Lesser.body(),
        _ => GnuFamily::General.body(),
    }
}

/// The texts of a license of the GNU family: the license itself, the
/// license line with the copyright line below it, and the disclaimer and
/// the notice as they are handed in.
pub open spec fn gnu_texts(
    license: Licenses,
    year: u16,
    fullname: Seq<char>,
    alt: Option<Seq<char>>,
    interactive: Option<Seq<char>>,
) -> LicenseTextsView {
    LicenseTextsView {
        text: family_text(license),
        comment: header_of(license, gnu_copyright_line_of(year, fullname)),
        alt,
        interactive,
    }
}

/// The three families of GNU licenses.
#[derive(Debug, Clone, Copy, PartialEq, Eq, Hash, Structural)]
pub enum GnuFamily {
    /// The GNU Affero General Public License.
    Affero,
    /// The GNU General Public License.
    General,
    /// The GNU Lesser General Public License.
    Lesser,
}

impl GnuFamily {
    /// The text of the family's license.
    pub open spec fn body(self) -> Seq<char> {
        match self {
            GnuFamily::Affero => agpl3(),
            GnuFamily::General => gpl3(),
            GnuFamily::Lesser => LGPL3@,
        }
    }

    /// The license of the family with the amendment `amendment`.
    pub open spec fn with(self, amendment: VersionAmmendment) -> Licenses {
        match self {
            GnuFamily::Affero => Licenses::Agpl3(amendment),
            GnuFamily::General => Licenses::Gpl3(amendment),
            GnuFamily::Lesser => Licenses::Lgpl3(amendment),
        }
    }

    /// The license of the family with the amendment `amendment`.
    pub fn license(&self, amendment: VersionAmmendment) -> (license: Licenses)
        ensures
            license == self.with(amendment),
            license.is_gnu(),
    {
        match self {
            GnuFamily::Affero => Licenses::Agpl3(amendment),
            GnuFamily::General => Licenses::Gpl3(amendment),
            GnuFamily::Lesser => Licenses::Lgpl3(amendment),
        }
    }

    /// The text of the family's license.
    pub fn text(&self) -> (text: String)
        ensures
            text@ == self.body(),
    {
        match self {
            GnuFamily::Affero => agpl_text(),
            GnuFamily::General => gpl_text(),
            GnuFamily::Lesser => String::from_str(LGPL3),
        }
    }
}

/// Puts the text of a license of the GNU family together with its header
/// and with a rendered disclaimer and notice, where there are any.
pub fn gnu_license(
    family: GnuFamily,
    amendment: VersionAmmendment,
    year: u16,
    fullname: &str,
    alt: Option<String>,
    interactive: Option<String>,
) -> (texts: LicenseTexts)
    ensures
        texts@ == gnu_texts(
            family.with(amendment),
            year,
            fullname@,
            optional_text(alt),
            optional_text(interactive),
        ),
{
    let license = family.license(amendment);
    let copyright = gnu_copyright_line(year, fullname);
    LicenseTexts {
        text: family.text(),
        comment: header(&license, copyright.as_str()),
        alt,
        interactive,
    }
}

/// What generating a license of the GNU family returns: the texts, with
/// the disclaimer where a signed release is needed and the notice where the
/// program is interactive; or the fault of the first of the two that did not
/// render.
pub open spec fn gnu_outcome(
    r: Result<LicenseTexts, TemplateFault>,
    license: Licenses,
    answers: GnuLicenseTemplateView,
) -> bool {
    match r {
        Ok(texts) => {
            &&& texts@ == gnu_texts(
                license,
                answers.year,
                answers.fullname,
                disclaimer_of(answers),
                notice_of(answers),
            )
            &&& answers.release is Some ==> disclaimer_of(answers) is Some
            &&& answers.interactive ==> notice_of(answers) is Some
        },
        Err(fault) => {
            ||| answers.release is Some && explains(
                fault,
                DISCLAIMER_NAME@,
                DISCLAIMER@,
                None,
                disclaimer_fields(answers, answers.release->0),
            )
            ||| (answers.release is Some ==> disclaimer_of(answers) is Some) && answers.interactive
                && explains(fault, NOTICE_NAME@, NOTICE@, None, notice_fields(answers))
        },
    }
}

/// Renders the disclaimer where a signed release is needed.
pub fn render_disclaimer(answers: &GnuLicenseTemplate) -> (r: Result<Option<String>, TemplateFault>)
    ensures
        match r {
            Ok(alt) => optional_text(alt) == disclaimer_of(answers@) && (answers.release is Some
                ==> alt is Some),
            Err(fault) => answers.release is Some && explains(
                fault,
                DISCLAIMER_NAME@,
                DISCLAIMER@,
                None,
                disclaimer_fields(answers@, answers@.release->0),
            ),
        },
{
    match &answers.release {
        Some(release) => {
            let fields = answers.disclaimer_fields(release);
            match render_template(DISCLAIMER_NAME, DISCLAIMER, None, &fields) {
                Ok(text) => Ok(Some(text)),
                Err(fault) => Err(fault),
            }
        },
        None => Ok(None),
    }
}

/// Renders the notice where the program is interactive.
pub fn render_notice(answers: &GnuLicenseTemplate) -> (r: Result<Option<String>, TemplateFault>)
    ensures
        match r {
            Ok(notice) => optional_text(notice) == notice_of(answers@) && (answers.interactive
                ==> notice is Some),
            Err(fault) => answers.interactive && explains(
                fault,
                NOTICE_NAME@,
                NOTICE@,
                None,
                notice_fields(answers@),
            ),
        },
{
    if answers.interactive {
        let fields = answers.notice_fields();
        match render_template(NOTICE_NAME, NOTICE, None, &fields) {
            Ok(text) => Ok(Some(text)),
            Err(fault) => Err(fault),
        }
    } else {
        Ok(None)
    }
}

/// Generates a license of the GNU family.
fn generate_gnu_license(
    family: GnuFamily,
    amendment: VersionAmmendment,
    answers: GnuLicenseTemplate,
) -> (r: Result<LicenseTexts, TemplateFault>)
    ensures
        gnu_outcome(r, family.with(amendment), answers@),
{
    let alt = match render_disclaimer(&answers) {
        Ok(alt) => alt,
        Err(fault) => {
            return Err(fault);
        },
    };
    let interactive = match render_notice(&answers) {
        Ok(interactive) => interactive,
        Err(fault) => {
            return Err(fault);
        },
    };
    Ok(gnu_license(family, amendment, answers.year, answers.fullname.as_str(), alt, interactive))
}

/// Generates the GNU Affero General Public License.
pub fn generate_agpl_license(amendment: VersionAmmendment, answers: GnuLicenseTemplate) -> (r:
    Result<LicenseTexts, TemplateFault>)
    ensures
        gnu_outcome(r, Licenses::Agpl3(amendment), answers@),
{
    generate_gnu_license(GnuFamily::Affero, amendment, answers)
}

/// Generates the GNU General Public License.
pub fn generate_gpl_license(amendment: VersionAmmendment, answers: GnuLicenseTemplate) -> (r:
    Result<LicenseTexts, TemplateFault>)
    ensures
        gnu_outcome(r, Licenses::Gpl3(amendment), answers@),
{
    generate_gnu_license(GnuFamily::General, amendment, answers)
}

/// Generates the GNU Lesser General Public License.
pub fn generate_lgpl_license(amendment: VersionAmmendment, answers: GnuLicenseTemplate) -> (r:
    Result<LicenseTexts, TemplateFault>)
    ensures
        gnu_outcome(r, Licenses::Lgpl3(amendment), answers@),
{
    generate_gnu_license(GnuFamily::Lesser, amendment, answers)
}

} // verus!
