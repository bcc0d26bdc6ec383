//! The MIT license.

use vstd::prelude::*;
use crate::license::Licenses;
use crate::strings::{decimal, u16_to_string};
use crate::template::{
    distinct_names, explains, pairs, render_template, rendered, TemplateFault,
};
use crate::texts::{field, spdx_line, spdx_line_of, LicenseTexts, LicenseTextsView};

verus! {

/// What the template of the MIT license is filled with.
pub struct MitLicenseTemplate {
    pub year: u16,
    pub fullname: String,
}

/// The name under which the template is registered.
pub const MIT_NAME: &'static str = "mit_license";

/// The template of the license, with a place for the year and one for the name.
pub const MIT: &'static str = r#"MIT License

Copyright (c) {{year}} {{{fullname}}}

Permission is hereby granted, free of charge, to any person obtaining a copy
of this software and associated documentation files (the "Software"), to deal
in the Software without restriction, including without limitation the rights
to use, copy, modify, merge, publish, distribute, sublicense, and/or sell
copies of the Software, and to permit persons to whom the Software is
furnished to do so, subject to the following conditions:

The above copyright notice and this permission notice shall be included in all
copies or substantial portions of the Software.

THE SOFTWARE IS PROVIDED "AS IS", WITHOUT WARRANTY OF ANY KIND, EXPRESS OR
IMPLIED, INCLUDING BUT NOT LIMITED TO THE WARRANTIES OF MERCHANTABILITY,
FITNESS FOR A PARTICULAR PURPOSE AND NONINFRINGEMENT. IN NO EVENT SHALL THE
AUTHORS OR COPYRIGHT HOLDERS BE LIABLE FOR ANY CLAIM, DAMAGES OR OTHER
LIABILITY, WHETHER IN AN ACTION OF CONTRACT, TORT OR OTHERWISE, ARISING FROM,
OUT OF OR IN CONNECTION WITH THE SOFTWARE OR THE USE OR OTHER DEALINGS IN THE
SOFTWARE.
"#;

/// The fields of the template: the year in decimal and the name as given.
pub open spec fn mit_fields(year: u16, fullname: Seq<char>) -> Seq<(Seq<char>, Seq<char>)> {
    seq![("year"@, decimal(year as nat)), ("fullname"@, fullname)]
}

impl MitLicenseTemplate {
    /// The fields of the template.
    pub fn fields(&self) -> (fields: Vec<(String, String)>)
        ensures
            pairs(fields@) == mit_fields(self.year, self.fullname@),
            distinct_names(pairs(fields@)),
    {
        let mut fields: Vec<(String, String)> = Vec::new();
        let year = u16_to_string(self.year);
        fields.push(field("year", year.as_str()));
        fields.push(field("fullname", self.fullname.as_str()));
        proof {
            reveal_strlit("year");
            reveal_strlit("fullname");
            assert(pairs(fields@) =~= mit_fields(self.year, self.fullname@));
            assert("year"@.len() == 4 && "fullname"@.len() == 8);
        }
        fields
    }
}

/// The text of the license for `year` and `fullname`, where the template renders.
pub open spec fn mit_text(year: u16, fullname: Seq<char>) -> Option<Seq<char>> {
    rendered(MIT_NAME@, MIT@, None, mit_fields(year, fullname))
}

/// The texts of the MIT license around its rendered `text`.
pub open spec fn mit_texts(text: Seq<char>) -> LicenseTextsView {
    LicenseTextsView {
        text,
        comment: spdx_line_of(Licenses::Mit),
        alt: None,
        interactive: None,
    }
}

/// What generating the license returns: the texts around the rendered text,
/// or the fault for which the template gave none.
pub open spec fn mit_outcome(r: Result<LicenseTexts, TemplateFault>, year: u16, fullname: Seq<char>) -> bool {
    match r {
        Ok(texts) => mit_text(year, fullname) == Some(texts@.text) && texts@ == mit_texts(
            texts@.text,
        ),
        Err(fault) => explains(fault, MIT_NAME@, MIT@, None, mit_fields(year, fullname)),
    }
}

/// Puts the rendered `text` of the license together with its license line.
pub fn mit_license(text: String) -> (texts: LicenseTexts)
    ensures
        texts@ == mit_texts(text@),
{
    LicenseTexts { text, comment: spdx_line(&Licenses::Mit), alt: None, interactive: None }
}

/// Generates the MIT license for the copyright holder `fullname` and `year`.
pub fn generate_mit_license(year: u16, fullname: String) -> (r: Result<LicenseTexts, TemplateFault>)
    ensures
        mit_outcome(r, year, fullname@),
{
    let license = MitLicenseTemplate { year, fullname };
    let fields = license.fields();
    match render_template(MIT_NAME, MIT, None, &fields) {
        Ok(text) => Ok(mit_license(text)),
        Err(fault) => Err(fault),
    }
}

} // verus!
