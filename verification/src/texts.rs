//! The texts that are generated for a license, and the templates of each
//! family.

use vstd::prelude::*;
use crate::license::Licenses;
use crate::strings::{decimal, u16_to_string};

pub mod agpl;
pub mod apache;
pub mod bsd;
pub mod bsl;
pub mod cddl;
pub mod epl;
pub mod gnu;
pub mod gnu_terms;
pub mod gpl;
pub mod lgpl;
pub mod mit;
pub mod mpl;
pub mod unlicense;

verus! {

/// What is generated for one license.
#[derive(Debug, Clone, PartialEq, Eq)]
pub struct LicenseTexts {
    /// The license itself, as it goes into the license file.
    pub text: String,
    /// The lines that go on top of a source file, without comment marks.
    pub comment: String,
    /// A text that the operator has to place beside the license, if any.
    pub alt: Option<String>,
    /// A notice that the licensed program has to show to its users, if any.
    pub interactive: Option<String>,
}

/// The contents of a `LicenseTexts`.
pub ghost struct LicenseTextsView {
    pub text: Seq<char>,
    pub comment: Seq<char>,
    pub alt: Option<Seq<char>>,
    pub interactive: Option<Seq<char>>,
}

/// The contents of an optional string.
pub open spec fn optional_text(s: Option<String>) -> Option<Seq<char>> {
    match s {
        Some(s) => Some(s@),
        None => None,
    }
}

impl View for LicenseTexts {
    type V = LicenseTextsView;

    open spec fn view(&self) -> LicenseTextsView {
        LicenseTextsView {
            text: self.text@,
            comment: self.comment@,
            alt: optional_text(self.alt),
            interactive: optional_text(self.interactive),
        }
    }
}

/// The first ten characters of `s`, or all of `s` where it has no more.
pub open spec fn excerpt_of(s: Seq<char>) -> Seq<char> {
    if s.len() > 10 {
        s.take(10)
    } else {
        s
    }
}

/// The excerpt of an optional text; `N/A` stands for a missing one.
pub open spec fn optional_excerpt_of(s: Option<Seq<char>>) -> Seq<char> {
    match s {
        Some(s) => excerpt_of(s),
        None => "N/A"@,
    }
}

/// Cuts `s` down to its first ten characters.
pub fn excerpt(s: &str) -> (r: &str)
    ensures
        r@ == excerpt_of(s@),
{
    if s.unicode_len() > 10 {
        let r = s.substring_char(0, 10);
        assert(r@ =~= s@.take(10));
        r
    } else {
        s
    }
}

impl LicenseTextsView {
    /// One line that shows the start of each of the four texts.
    pub open spec fn summary(self) -> Seq<char> {
        "Text: '"@ + excerpt_of(self.text) + "', Comment: '"@ + excerpt_of(self.comment)
            + "', Alternative Text: '"@ + optional_excerpt_of(self.alt) + "', Interactive Text: '"@
            + optional_excerpt_of(self.interactive) + "'"@
    }
}

impl LicenseTexts {
    /// One line that shows the start of each of the four texts.
    pub fn to_string(&self) -> (s: String)
        ensures
            s@ == self@.summary(),
    {
        let mut s = String::from_str("Text: '");
        s.append(excerpt(self.text.as_str()));
        s.append("', Comment: '");
        s.append(excerpt(self.comment.as_str()));
        s.append("', Alternative Text: '");
        match &self.alt {
            Some(alt) => s.append(excerpt(alt.as_str())),
            None => s.append("N/A"),
        }
        s.append("', Interactive Text: '");
        match &self.interactive {
            Some(interactive) => s.append(excerpt(interactive.as_str())),
            None => s.append("N/A"),
        }
        s.append("'");
        s
    }
}

/// The line that names the license of a source file.
pub open spec fn spdx_line_of(license: Licenses) -> Seq<char> {
    "SPDX-License-Identifier: "@ + license.identifier()
}

/// The line that names the license of a source file.
pub fn spdx_line(license: &Licenses) -> (s: String)
    ensures
        s@ == spdx_line_of(*license),
{
    let mut s = String::from_str("SPDX-License-Identifier: ");
    let name = license.to_string();
    s.append(name.as_str());
    s
}

/// The copyright line of the licenses that are not of the GNU family.
pub open spec fn copyright_line_of(year: u16, fullname: Seq<char>) -> Seq<char> {
    "Copyright (c) "@ + decimal(year as nat) + " "@ + fullname + "."@
}

/// The copyright line of the GNU family.
pub open spec fn gnu_copyright_line_of(year: u16, fullname: Seq<char>) -> Seq<char> {
    "Copyright (C) "@ + decimal(year as nat) + " "@ + fullname
}

/// The copyright line of the licenses that are not of the GNU family.
pub fn copyright_line(year: u16, fullname: &str) -> (s: String)
    ensures
        s@ == copyright_line_of(year, fullname@),
{
    let mut s = String::from_str("Copyright (c) ");
    let digits = u16_to_string(year);
    s.append(digits.as_str());
    s.append(" ");
    s.append(fullname);
    s.append(".");
    s
}

/// The copyright line of the GNU family.
pub fn gnu_copyright_line(year: u16, fullname: &str) -> (s: String)
    ensures
        s@ == gnu_copyright_line_of(year, fullname@),
{
    let mut s = String::from_str("Copyright (C) ");
    let digits = u16_to_string(year);
    s.append(digits.as_str());
    s.append(" ");
    s.append(fullname);
    s
}

/// The license line followed by a copyright line.
pub open spec fn header_of(license: Licenses, copyright: Seq<char>) -> Seq<char> {
    spdx_line_of(license) + "\n"@ + copyright
}

/// The license line followed by a copyright line.
pub fn header(license: &Licenses, copyright: &str) -> (s: String)
    ensures
        s@ == header_of(*license, copyright@),
{
    let mut s = spdx_line(license);
    s.append("\n");
    s.append(copyright);
    s
}

/// A field of a template: its name and its value.
pub fn field(name: &str, value: &str) -> (f: (String, String))
    ensures
        f.0@ == name@,
        f.1@ == value@,
{
    (String::from_str(name), String::from_str(value))
}

/// The texts of a license whose text holds no name: the text as it is,
/// and the license line with the copyright line below it.
pub open spec fn plain_texts(
    license: Licenses,
    text: Seq<char>,
    year: u16,
    fullname: Seq<char>,
) -> LicenseTextsView {
    LicenseTextsView {
        text,
        comment: header_of(license, copyright_line_of(year, fullname)),
        alt: None,
        interactive: None,
    }
}

/// Puts the fixed `text` of a license together with its license line and
/// the copyright line of `fullname` and `year`.
pub fn plain_license(license: &Licenses, text: &str, year: u16, fullname: &str) -> (texts:
    LicenseTexts)
    ensures
        texts@ == plain_texts(*license, text@, year, fullname@),
{
    let copyright = copyright_line(year, fullname);
    LicenseTexts {
        text: String::from_str(text),
        comment: header(license, copyright.as_str()),
        alt: None,
        interactive: None,
    }
}

} // verus!
