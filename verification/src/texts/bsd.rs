//! The three-clause BSD license and its amendments.

use vstd::prelude::*;
use crate::license::{BsdAmmendment, Licenses};
use crate::strings::{decimal, u16_to_string};
use crate::template::{
    distinct_names, explains, optional_field, pairs, render_template, rendered, Partial,
    TemplateFault,
};
use crate::texts::{field, optional_text, spdx_line, spdx_line_of, LicenseTexts, LicenseTextsView};

verus! {

/// What the template of the BSD license is filled with.
pub struct BsdLicenseTemplate {
    pub year: u16,
    pub fullname: String,
    pub organization: Option<String>,
    pub website: Option<String>,
    pub license: BsdLicenseText,
}

/// The two fragments by which the amendments of the license differ.
#[derive(Debug, Clone, Copy)]
pub struct BsdLicenseText {
    /// The fourth clause, itself a template; empty where there is none.
    pub fourth: &'static str,
    /// What follows the disclaimer; empty where nothing does.
    pub postamble: &'static str,
}

/// The name under which the template is registered.
pub const BSD_NAME: &'static str = "bsd_license";

/// The name under which the fourth clause is registered.
pub const FOURTH_NAME: &'static str = "fourth_partial";

/// The fragment of an amendment that adds nothing at a place.
pub const EMPTY: &'static str = "";

/// What follows the disclaimer where military use is excluded.
pub const NO_MILITARY_POSTAMBLE: &'static str = r#"
YOU ACKNOWLEDGE THAT THIS SOFTWARE IS NOT DESIGNED, LICENSED OR INTENDED 
FOR USE IN THE DESIGN, CONSTRUCTION, OPERATION OR MAINTENANCE OF ANY MILITARY 
FACILITY.
"#;

/// The fourth clause on modified files.
pub const MODIFICATION_FOURTH: &'static str = r#"4. If any files are modified, you must cause the modified files to 
carry prominent notices stating that you changed the files and the 
date of any change."#;

/// The fourth clause on attribution, a template of its own: it names the
/// organization, or the holder where there is none, and the website where
/// there is one.
pub const ATTRIBUTION_FOURTH: &'static str = r#"4. Redistributions of any form whatsoever must retain the following 
acknowledgment: 'This product includes software developed by the 
"{{#if organization}}{{{organization}}}{{else}}{{{fullname}}}{{/if}}"{{#if website}} ({{{website}}}){{/if}}.'"#;

/// The template of the license: the three clauses, the place of the fourth,
/// the disclaimer and the place of the postamble.
pub const TEXT: &'static str = r#"Copyright (c) {{year}} {{{fullname}}}.

Redistribution and use in source and binary forms, with or without 
modification, are permitted provided that the following conditions are 
met:

1. Redistributions of source code must retain the above copyright 
   notice, this list of conditions and the following disclaimer.
2. Redistributions in binary form must reproduce the above copyright 
   notice, this list of conditions and the following disclaimer in the 
   documentation and/or other materials provided with the distribution.
3. Neither the name of the copyright holder nor the names of its 
   contributors may be used to endorse or promote products derived from 
   this software without specific prior written permission.
{{> fourth_partial}}

THIS SOFTWARE IS PROVIDED BY THE COPYRIGHT HOLDERS AND CONTRIBUTORS 
"AS IS" AND ANY EXPRESS OR IMPLIED WARRANTIES, INCLUDING, BUT NOT 
LIMITED TO, THE IMPLIED WARRANTIES OF MERCHANTABILITY AND FITNESS FOR 
A PARTICULAR PURPOSE ARE DISCLAIMED. IN NO EVENT SHALL THE 
COPYRIGHT HOLDER OR CONTRIBUTORS BE LIABLE FOR ANY DIRECT, INDIRECT, 
INCIDENTAL, SPECIAL, EXEMPLARY, OR CONSEQUENTIAL DAMAGES (INCLUDING, BUT 
NOT LIMITED TO, PROCUREMENT OF SUBSTITUTE GOODS OR SERVICES; LOSS OF USE, 
DATA, OR PROFITS; OR BUSINESS INTERRUPTION) HOWEVER CAUSED AND ON ANY 
THEORY OF LIABILITY, WHETHER IN CONTRACT, STRICT LIABILITY, OR TORT 
(INCLUDING NEGLIGENCE OR OTHERWISE) ARISING IN ANY WAY OUT OF THE USE OF 
THIS SOFTWARE, EVEN IF ADVISED OF THE POSSIBILITY OF SUCH DAMAGE.
{{{postamble}}}
"#;

/// The fourth clause that the amendment `sublicense` selects.
pub open spec fn fourth_of(sublicense: BsdAmmendment) -> Seq<char> {
    match sublicense {
        BsdAmmendment::Plain => EMPTY@,
        BsdAmmendment::Attribution => ATTRIBUTION_FOURTH@,
        BsdAmmendment::Modification => MODIFICATION_FOURTH@,
        BsdAmmendment::NoMilitary => EMPTY@,
    }
}

/// The postamble that the amendment `sublicense` selects.
pub open spec fn postamble_of(sublicense: BsdAmmendment) -> Seq<char> {
    match sublicense {
        BsdAmmendment::NoMilitary => NO_MILITARY_POSTAMBLE@,
        _ => EMPTY@,
    }
}

/// The fragments of the amendment `sublicense`.
pub fn fragment_for(sublicense: BsdAmmendment) -> (fragment: BsdLicenseText)
    ensures
        fragment.fourth@ == fourth_of(sublicense),
        fragment.postamble@ == postamble_of(sublicense),
{
    match sublicense {
        BsdAmmendment::Plain => BsdLicenseText { fourth: EMPTY, postamble: EMPTY },
        BsdAmmendment::Attribution => BsdLicenseText {
            fourth: ATTRIBUTION_FOURTH,
            postamble: EMPTY,
        },
        BsdAmmendment::Modification => BsdLicenseText {
            fourth: MODIFICATION_FOURTH,
            postamble: EMPTY,
        },
        BsdAmmendment::NoMilitary => BsdLicenseText {
            fourth: EMPTY,
            postamble: NO_MILITARY_POSTAMBLE,
        },
    }
}

/// The fields of the template: the year in decimal, the name, the
/// organization and the website where they are given, and the postamble.
pub open spec fn bsd_fields(
    year: u16,
    fullname: Seq<char>,
    organization: Option<Seq<char>>,
    website: Option<Seq<char>>,
    postamble: Seq<char>,
) -> Seq<(Seq<char>, Seq<char>)> {
    seq![("year"@, decimal(year as nat)), ("fullname"@, fullname)] + optional_field(
        "organization"@,
        organization,
    ) + optional_field("website"@, website) + seq![("postamble"@, postamble)]
}

impl BsdLicenseTemplate {
    /// The fields of the template.
    pub fn fields(&self) -> (fields: Vec<(String, String)>)
        ensures
            pairs(fields@) == bsd_fields(
                self.year,
                self.fullname@,
                optional_text(self.organization),
                optional_text(self.website),
                self.license.postamble@,
            ),
            distinct_names(pairs(fields@)),
    {
        let mut fields: Vec<(String, String)> = Vec::new();
        let year = u16_to_string(self.year);
        fields.push(field("year", year.as_str()));
        fields.push(field("fullname", self.fullname.as_str()));
        match &self.organization {
            Some(organization) => fields.push(field("organization", organization.as_str())),
            None => {},
        }
        match &self.website {
            Some(website) => fields.push(field("website", website.as_str())),
            None => {},
        }
        fields.push(field("postamble", self.license.postamble));
        proof {
            reveal_strlit("year");
            reveal_strlit("fullname");
            reveal_strlit("organization");
            reveal_strlit("website");
            reveal_strlit("postamble");
            assert("year"@.len() == 4 && "fullname"@.len() == 8 && "organization"@.len() == 12
                && "website"@.len() == 7 && "postamble"@.len() == 9);
        }
        assert(pairs(fields@) =~= bsd_fields(
            self.year,
            self.fullname@,
            optional_text(self.organization),
            optional_text(self.website),
            self.license.postamble@,
        ));
        fields
    }
}

/// The fields that the amendment `sublicense` is rendered with. Only the
/// attribution clause takes the organization and the website.
pub open spec fn amended_fields(
    sublicense: BsdAmmendment,
    year: u16,
    fullname: Seq<char>,
    organization: Option<Seq<char>>,
    website: Option<Seq<char>>,
) -> Seq<(Seq<char>, Seq<char>)> {
    match sublicense {
        BsdAmmendment::Attribution => bsd_fields(
            year,
            fullname,
            organization,
            website,
            postamble_of(sublicense),
        ),
        _ => bsd_fields(year, fullname, None, None, postamble_of(sublicense)),
    }
}

/// The text of the license with the amendment `sublicense`, where the
/// template renders.
pub open spec fn bsd_text(
    sublicense: BsdAmmendment,
    year: u16,
    fullname: Seq<char>,
    organization: Option<Seq<char>>,
    website: Option<Seq<char>>,
) -> Option<Seq<char>> {
    rendered(
        BSD_NAME@,
        TEXT@,
        Some((FOURTH_NAME@, fourth_of(sublicense))),
        amended_fields(sublicense, year, fullname, organization, website),
    )
}

/// The texts of the license with the amendment `sublicense` around its
/// rendered `text`.
pub open spec fn bsd_texts(sublicense: BsdAmmendment, text: Seq<char>) -> LicenseTextsView {
    LicenseTextsView {
        text,
        comment: spdx_line_of(Licenses::Bsd3Clause(sublicense)),
        alt: None,
        interactive: None,
    }
}

/// What generating the license with the amendment `sublicense` returns.
pub open spec fn bsd_outcome(
    r: Result<LicenseTexts, TemplateFault>,
    sublicense: BsdAmmendment,
    year: u16,
    fullname: Seq<char>,
    organization: Option<Seq<char>>,
    website: Option<Seq<char>>,
) -> bool {
    match r {
        Ok(texts) => bsd_text(sublicense, year, fullname, organization, website) == Some(
            texts@.text,
        ) && texts@ == bsd_texts(sublicense, texts@.text),
        Err(fault) => explains(
            fault,
            BSD_NAME@,
            TEXT@,
            Some((FOURTH_NAME@, fourth_of(sublicense))),
            amended_fields(sublicense, year, fullname, organization, website),
        ),
    }
}

/// Puts the rendered `text` of the license together with its license line.
pub fn bsd_license(sublicense: BsdAmmendment, text: String) -> (texts: LicenseTexts)
    ensures
        texts@ == bsd_texts(sublicense, text@),
{
    LicenseTexts {
        text,
        comment: spdx_line(&Licenses::Bsd3Clause(sublicense)),
        alt: None,
        interactive: None,
    }
}

/// Renders the template with the fragments of `sublicense`.
fn generate_amended_license(sublicense: BsdAmmendment, license: BsdLicenseTemplate) -> (r: Result<
    LicenseTexts,
    TemplateFault,
>)
    requires
        license.license.fourth@ == fourth_of(sublicense),
        license.license.postamble@ == postamble_of(sublicense),
        sublicense != BsdAmmendment::Attribution ==> license.organization is None
            && license.website is None,
    ensures
        bsd_outcome(
            r,
            sublicense,
            license.year,
            license.fullname@,
            optional_text(license.organization),
            optional_text(license.website),
        ),
{
    let fields = license.fields();
    let partial = Partial { name: FOURTH_NAME, text: license.license.fourth };
    match render_template(BSD_NAME, TEXT, Some(partial), &fields) {
        Ok(text) => Ok(bsd_license(sublicense, text)),
        Err(fault) => Err(fault),
    }
}

/// Generates the license with the amendment `sublicense`. The organization
/// and the website are used by the attribution clause and by no other.
pub fn generate_bsd_license(
    sublicense: BsdAmmendment,
    year: u16,
    fullname: String,
    organization: Option<String>,
    website: Option<String>,
) -> (r: Result<LicenseTexts, TemplateFault>)
    ensures
        bsd_outcome(
            r,
            sublicense,
            year,
            fullname@,
            optional_text(organization),
            optional_text(website),
        ),
{
    match sublicense {
        BsdAmmendment::Plain => generate_base_license(year, fullname),
        BsdAmmendment::Attribution => generate_attribution_license(
            year,
            fullname,
            organization,
            website,
        ),
        BsdAmmendment::Modification => generate_modification_license(year, fullname),
        BsdAmmendment::NoMilitary => generate_no_military_license(year, fullname),
    }
}

/// Generates the license without amendment.
pub fn generate_base_license(year: u16, fullname: String) -> (r: Result<LicenseTexts, TemplateFault>)
    ensures
        bsd_outcome(r, BsdAmmendment::Plain, year, fullname@, None, None),
{
    let license = BsdLicenseTemplate {
        year,
        fullname,
        organization: None,
        website: None,
        license: fragment_for(BsdAmmendment::Plain),
    };
    generate_amended_license(BsdAmmendment::Plain, license)
}

/// Generates the license with the attribution clause, which names the
/// organization, or the copyright holder where none is given, and the
/// website where one is given.
pub fn generate_attribution_license(
    year: u16,
    fullname: String,
    organization: Option<String>,
    website: Option<String>,
) -> (r: Result<LicenseTexts, TemplateFault>)
    ensures
        bsd_outcome(
            r,
            BsdAmmendment::Attribution,
            year,
            fullname@,
            optional_text(organization),
            optional_text(website),
        ),
{
    let license = BsdLicenseTemplate {
        year,
        fullname,
        organization,
        website,
        license: fragment_for(BsdAmmendment::Attribution),
    };
    generate_amended_license(BsdAmmendment::Attribution, license)
}

/// Generates the license with the modification clause.
pub fn generate_modification_license(year: u16, fullname: String) -> (r: Result<
    LicenseTexts,
    TemplateFault,
>)
    ensures
        bsd_outcome(r, BsdAmmendment::Modification, year, fullname@, None, None),
{
    let license = BsdLicenseTemplate {
        year,
        fullname,
        organization: None,
        website: None,
        license: fragment_for(BsdAmmendment::Modification),
    };
    generate_amended_license(BsdAmmendment::Modification, license)
}

/// Generates the license with the postamble on military use.
pub fn generate_no_military_license(year: u16, fullname: String) -> (r: Result<
    LicenseTexts,
    TemplateFault,
>)
    ensures
        bsd_outcome(r, BsdAmmendment::NoMilitary, year, fullname@, None, None),
{
    let license = BsdLicenseTemplate {
        year,
        fullname,
        organization: None,
        website: None,
        license: fragment_for(BsdAmmendment::NoMilitary),
    };
    generate_amended_license(BsdAmmendment::NoMilitary, license)
}

} // verus!
