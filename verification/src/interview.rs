//! The questions that are put to the operator for each license, in their
//! order, and the answers that they take.

use vstd::prelude::*;
use crate::io::{
    optional_retry_message, optional_yes_no_answer, optional_yes_no_message, prompt, prompt_bool,
    prompt_optional, prompt_optional_bool, retry_message, yes_no_answer, yes_no_message, Reply,
};
use crate::license::{BsdAmmendment, Licenses};
use crate::strings::{parsed_u16, split_trimmed, texts, trimmed};
use crate::texts::optional_text;

verus! {

/// A question that a license may need an answer to.
#[derive(Debug, Clone, Copy, PartialEq, Eq, Hash, Structural)]
pub enum Question {
    Year,
    FullName,
    Organization,
    Website,
    ProgramName,
    ProgramVersion,
    Description,
    Interactive,
    SignedRelease,
    SigningOrganization,
    SignerName,
    SignerTitle,
    SigningDay,
    SigningMonth,
    SigningYear,
    SecondaryLicenses,
}

/// How the answer to a question is read.
#[derive(Debug, Clone, Copy, PartialEq, Eq, Hash, Structural)]
pub enum AnswerKind {
    /// A number; asked until one is given.
    Integer,
    /// Any text, an empty one too.
    Text,
    /// A text, or nothing.
    OptionalText,
    /// Yes or no; asked until one of them is given.
    Flag,
    /// Yes, no, or nothing.
    OptionalFlag,
    /// Texts separated by commas, or nothing.
    List,
}

/// An answer of the operator.
#[derive(Debug, Clone, PartialEq, Eq)]
pub enum PromptAnswer {
    Integer(u16),
    Text(String),
    OptionalText(Option<String>),
    Flag(bool),
    OptionalFlag(Option<bool>),
    List(Vec<String>),
}

/// The contents of an answer.
pub ghost enum AnswerView {
    Integer(u16),
    Text(Seq<char>),
    OptionalText(Option<Seq<char>>),
    Flag(bool),
    OptionalFlag(Option<bool>),
    List(Seq<Seq<char>>),
}

impl View for PromptAnswer {
    type V = AnswerView;

    open spec fn view(&self) -> AnswerView {
        match self {
            PromptAnswer::Integer(n) => AnswerView::Integer(*n),
            PromptAnswer::Text(s) => AnswerView::Text(s@),
            PromptAnswer::OptionalText(Some(s)) => AnswerView::OptionalText(Some(s@)),
            PromptAnswer::OptionalText(None) => AnswerView::OptionalText(None),
            PromptAnswer::Flag(b) => AnswerView::Flag(*b),
            PromptAnswer::OptionalFlag(b) => AnswerView::OptionalFlag(*b),
            PromptAnswer::List(items) => AnswerView::List(texts(items@)),
        }
    }
}

impl AnswerView {
    /// The kind of question that the answer belongs to.
    pub open spec fn kind(self) -> AnswerKind {
        match self {
            AnswerView::Integer(_) => AnswerKind::Integer,
            AnswerView::Text(_) => AnswerKind::Text,
            AnswerView::OptionalText(_) => AnswerKind::OptionalText,
            AnswerView::Flag(_) => AnswerKind::Flag,
            AnswerView::OptionalFlag(_) => AnswerKind::OptionalFlag,
            AnswerView::List(_) => AnswerKind::List,
        }
    }
}

/// The contents of a list of answers.
pub open spec fn answer_views(answers: Seq<PromptAnswer>) -> Seq<AnswerView> {
    answers.map_values(|a: PromptAnswer| a@)
}

impl Question {
    /// How the answer to the question is read.
    pub open spec fn kind_of(self) -> AnswerKind {
        match self {
            Question::Year => AnswerKind::Integer,
            Question::FullName => AnswerKind::Text,
            Question::Organization => AnswerKind::OptionalText,
            Question::Website => AnswerKind::OptionalText,
            Question::ProgramName => AnswerKind::Text,
            Question::ProgramVersion => AnswerKind::OptionalText,
            Question::Description => AnswerKind::Text,
            Question::Interactive => AnswerKind::Flag,
            Question::SignedRelease => AnswerKind::Flag,
            Question::SigningOrganization => AnswerKind::Text,
            Question::SignerName => AnswerKind::Text,
            Question::SignerTitle => AnswerKind::Text,
            Question::SigningDay => AnswerKind::Text,
            Question::SigningMonth => AnswerKind::Text,
            Question::SigningYear => AnswerKind::Integer,
            Question::SecondaryLicenses => AnswerKind::List,
        }
    }

    /// The words of the question.
    pub open spec fn words(self) -> Seq<char> {
        match self {
            Question::Year => "Enter the copyright year"@,
            Question::FullName => "Enter the full name of the copyright holder"@,
            Question::Organization => "Enter the name of the organization"@,
            Question::Website => "Enter the website of the organization"@,
            Question::ProgramName => "Enter the name of the program"@,
            Question::ProgramVersion => "Enter the version of the program"@,
            Question::Description => "Enter a short description of the program (5-10 words)"@,
            Question::Interactive =>
                "Is this program interactive? (e.g., a website, CLI tool, etc.)"@,
            Question::SignedRelease =>
                "Do you need a signed release for this software? (e.g., for an organization)"@,
            Question::SigningOrganization => "Enter the name of the organization"@,
            Question::SignerName => "Enter the name of the signer from the organization"@,
            Question::SignerTitle => "Enter the position within the organization of the signer"@,
            Question::SigningDay => "Enter the day of the signing"@,
            Question::SigningMonth => "Enter the month of the signing"@,
            Question::SigningYear => "Enter the year of the signing"@,
            Question::SecondaryLicenses =>
                "Enter the secondary licenses that are permitted (comma separated)"@,
        }
    }

    /// How the answer to the question is read.
    pub fn kind(&self) -> (kind: AnswerKind)
        ensures
            kind == self.kind_of(),
    {
        match self {
            Question::Year => AnswerKind::Integer,
            Question::FullName => AnswerKind::Text,
            Question::Organization => AnswerKind::OptionalText,
            Question::Website => AnswerKind::OptionalText,
            Question::ProgramName => AnswerKind::Text,
            Question::ProgramVersion => AnswerKind::OptionalText,
            Question::Description => AnswerKind::Text,
            Question::Interactive => AnswerKind::Flag,
            Question::SignedRelease => AnswerKind::Flag,
            Question::SigningOrganization => AnswerKind::Text,
            Question::SignerName => AnswerKind::Text,
            Question::SignerTitle => AnswerKind::Text,
            Question::SigningDay => AnswerKind::Text,
            Question::SigningMonth => AnswerKind::Text,
            Question::SigningYear => AnswerKind::Integer,
            Question::SecondaryLicenses => AnswerKind::List,
        }
    }

    /// The words of the question.
    pub fn text(&self) -> (text: &'static str)
        ensures
            text@ == self.words(),
    {
        match self {
            Question::Year => "Enter the copyright year",
            Question::FullName => "Enter the full name of the copyright holder",
            Question::Organization => "Enter the name of the organization",
            Question::Website => "Enter the website of the organization",
            Question::ProgramName => "Enter the name of the program",
            Question::ProgramVersion => "Enter the version of the program",
            Question::Description => "Enter a short description of the program (5-10 words)",
            Question::Interactive =>
                "Is this program interactive? (e.g., a website, CLI tool, etc.)",
            Question::SignedRelease =>
                "Do you need a signed release for this software? (e.g., for an organization)",
            Question::SigningOrganization => "Enter the name of the organization",
            Question::SignerName => "Enter the name of the signer from the organization",
            Question::SignerTitle => "Enter the position within the organization of the signer",
            Question::SigningDay => "Enter the day of the signing",
            Question::SigningMonth => "Enter the month of the signing",
            Question::SigningYear => "Enter the year of the signing",
            Question::SecondaryLicenses =>
                "Enter the secondary licenses that are permitted (comma separated)",
        }
    }
}

impl AnswerKind {
    /// What follows the words of a question of this kind on the prompt.
    pub open spec fn ending(self) -> Seq<char> {
        match self {
            AnswerKind::Integer => ": "@,
            AnswerKind::Text => ": "@,
            AnswerKind::OptionalText => " (optional): "@,
            AnswerKind::Flag => " ([y]es/[n]o): "@,
            AnswerKind::OptionalFlag => " ([y]es/[n]o) (optional): "@,
            AnswerKind::List => " (optional): "@,
        }
    }

    /// What follows the words of a question of this kind on the prompt.
    pub fn hint(&self) -> (hint: &'static str)
        ensures
            hint@ == self.ending(),
    {
        match self {
            AnswerKind::Integer => ": ",
            AnswerKind::Text => ": ",
            AnswerKind::OptionalText => " (optional): ",
            AnswerKind::Flag => " ([y]es/[n]o): ",
            AnswerKind::OptionalFlag => " ([y]es/[n]o) (optional): ",
            AnswerKind::List => " (optional): ",
        }
    }
}

/// The prompt that puts `question`: its words, then the ending of its kind.
pub fn prompt_line(question: Question) -> (line: String)
    ensures
        line@ == question.words() + question.kind_of().ending(),
{
    let mut line = String::from_str(question.text());
    line.append(question.kind().hint());
    line
}

/// The questions that are put whatever the answers are.
pub open spec fn opening(license: Licenses) -> Seq<Question> {
    match license {
        Licenses::Agpl3(_) | Licenses::Gpl3(_) => seq![
            Question::Year,
            Question::FullName,
            Question::ProgramName,
            Question::ProgramVersion,
            Question::Description,
            Question::Interactive,
            Question::SignedRelease,
        ],
        Licenses::Lgpl3(_) => seq![
            Question::Year,
            Question::FullName,
            Question::ProgramName,
            Question::SignedRelease,
        ],
        Licenses::Bsd3Clause(BsdAmmendment::Attribution) => seq![
            Question::Year,
            Question::FullName,
            Question::Organization,
            Question::Website,
        ],
        Licenses::Epl2 => seq![Question::SecondaryLicenses],
        _ => seq![Question::Year, Question::FullName],
    }
}

/// The questions on the signing of a release.
pub open spec fn signing() -> Seq<Question> {
    seq![
        Question::SigningOrganization,
        Question::SignerName,
        Question::SignerTitle,
        Question::SigningDay,
        Question::SigningMonth,
        Question::SigningYear,
    ]
}

/// Whether `answers` say that a signed release is needed: the last of the
/// opening questions of a GNU license was answered with yes.
pub open spec fn wants_signing(license: Licenses, answers: Seq<AnswerView>) -> bool {
    license.is_gnu() && answers.len() >= opening(license).len() && answers[opening(license).len()
        - 1] == AnswerView::Flag(true)
}

/// The question that follows `answers`, or none when all are answered. The
/// questions on signing are put only after a yes to the question whether a
/// signed release is needed.
pub open spec fn script(license: Licenses, answers: Seq<AnswerView>) -> Option<Question> {
    let first = opening(license);
    let n = answers.len() as int;
    if n < first.len() {
        Some(first[n])
    } else if wants_signing(license, answers) && n - first.len() < signing().len() {
        Some(signing()[n - first.len()])
    } else {
        None
    }
}

/// The question that stands at place `i` of the license's questions.
pub open spec fn question_at(license: Licenses, i: int) -> Question {
    if i < opening(license).len() {
        opening(license)[i]
    } else {
        signing()[i - opening(license).len()]
    }
}

/// How many questions are put in all when `answers` are given.
pub open spec fn questions_put(license: Licenses, answers: Seq<AnswerView>) -> nat {
    if wants_signing(license, answers) {
        opening(license).len() + signing().len()
    } else {
        opening(license).len()
    }
}

/// Whether `answers` answer every question that is put, and no other, each
/// with an answer of the question's kind.
pub open spec fn complete(license: Licenses, answers: Seq<AnswerView>) -> bool {
    &&& answers.len() == questions_put(license, answers)
    &&& forall|i: int|
        0 <= i < answers.len() ==> (#[trigger] answers[i]).kind() == question_at(
            license,
            i,
        ).kind_of()
}

impl PromptAnswer {
    /// The kind of question that the answer belongs to.
    pub fn kind(&self) -> (kind: AnswerKind)
        ensures
            kind == self@.kind(),
    {
        match self {
            PromptAnswer::Integer(_) => AnswerKind::Integer,
            PromptAnswer::Text(_) => AnswerKind::Text,
            PromptAnswer::OptionalText(_) => AnswerKind::OptionalText,
            PromptAnswer::Flag(_) => AnswerKind::Flag,
            PromptAnswer::OptionalFlag(_) => AnswerKind::OptionalFlag,
            PromptAnswer::List(_) => AnswerKind::List,
        }
    }
}

/// The questions that are put whatever the answers are.
pub fn opening_questions(license: &Licenses) -> (questions: Vec<Question>)
    ensures
        questions@ == opening(*license),
{
    let mut questions: Vec<Question> = Vec::new();
    match license {
        Licenses::Agpl3(_) | Licenses::Gpl3(_) => {
            questions.push(Question::Year);
            questions.push(Question::FullName);
            questions.push(Question::ProgramName);
            questions.push(Question::ProgramVersion);
            questions.push(Question::Description);
            questions.push(Question::Interactive);
            questions.push(Question::SignedRelease);
        },
        Licenses::Lgpl3(_) => {
            questions.push(Question::Year);
            questions.push(Question::FullName);
            questions.push(Question::ProgramName);
            questions.push(Question::SignedRelease);
        },
        Licenses::Bsd3Clause(BsdAmmendment::Attribution) => {
            questions.push(Question::Year);
            questions.push(Question::FullName);
            questions.push(Question::Organization);
            questions.push(Question::Website);
        },
        Licenses::Epl2 => {
            questions.push(Question::SecondaryLicenses);
        },
        _ => {
            questions.push(Question::Year);
            questions.push(Question::FullName);
        },
    }
    assert(questions@ =~= opening(*license));
    questions
}

/// The questions on the signing of a release.
pub fn signing_questions() -> (questions: Vec<Question>)
    ensures
        questions@ == signing(),
{
    let mut questions: Vec<Question> = Vec::new();
    questions.push(Question::SigningOrganization);
    questions.push(Question::SignerName);
    questions.push(Question::SignerTitle);
    questions.push(Question::SigningDay);
    questions.push(Question::SigningMonth);
    questions.push(Question::SigningYear);
    assert(questions@ =~= signing());
    questions
}

/// Whether `answers` say that a signed release is needed.
pub fn signing_wanted(license: &Licenses, answers: &Vec<PromptAnswer>) -> (wanted: bool)
    ensures
        wanted == wants_signing(*license, answer_views(answers@)),
{
    let first = opening_questions(license);
    assert(first@.len() >= 1);
    if !license.is_gnu_license() || answers.len() < first.len() {
        return false;
    }
    match &answers[first.len() - 1] {
        PromptAnswer::Flag(true) => true,
        _ => false,
    }
}

/// The question to put after `answers` were given, or none when every
/// question has its answer.
pub fn next_question(license: &Licenses, answers: &Vec<PromptAnswer>) -> (question: Option<Question>)
    ensures
        question == script(*license, answer_views(answers@)),
{
    let first = opening_questions(license);
    let n = answers.len();
    if n < first.len() {
        return Some(first[n]);
    }
    let last = signing_questions();
    if signing_wanted(license, answers) && n - first.len() < last.len() {
        Some(last[n - first.len()])
    } else {
        None
    }
}

/// Whether `answers` answer every question that is put, and no other, each
/// with an answer of the question's kind.
pub fn is_complete(license: &Licenses, answers: &Vec<PromptAnswer>) -> (done: bool)
    ensures
        done == complete(*license, answer_views(answers@)),
{
    let first = opening_questions(license);
    let last = signing_questions();
    let n = answers.len();
    let expected = if signing_wanted(license, answers) {
        first.len() + last.len()
    } else {
        first.len()
    };
    if n != expected {
        return false;
    }
    let ghost views = answer_views(answers@);
    let mut i: usize = 0;
    while i < n
        invariant
            i <= n,
            n == answers@.len(),
            n <= first@.len() + last@.len(),
            views == answer_views(answers@),
            first@ == opening(*license),
            last@ == signing(),
            forall|j: int|
                0 <= j < i ==> (#[trigger] views[j]).kind() == question_at(*license, j).kind_of(),
        decreases n - i,
    {
        let question = if i < first.len() {
            first[i]
        } else {
            last[i - first.len()]
        };
        assert(question == question_at(*license, i as int));
        assert(views[i as int] == answers@[i as int]@);
        if answers[i].kind() != question.kind() {
            return false;
        }
        i = i + 1;
    }
    true
}

/// The answer of kind `kind` that `line` gives, or none where the line is
/// not understood.
pub open spec fn reading(kind: AnswerKind, line: Seq<char>) -> Option<AnswerView> {
    let input = trimmed(line);
    match kind {
        AnswerKind::Integer => match parsed_u16(input) {
            Some(n) => Some(AnswerView::Integer(n)),
            None => None,
        },
        AnswerKind::Text => Some(AnswerView::Text(input)),
        AnswerKind::OptionalText => Some(
            AnswerView::OptionalText(
                if input.len() == 0 {
                    None
                } else {
                    Some(input)
                },
            ),
        ),
        AnswerKind::Flag => match yes_no_answer(line) {
            Some(b) => Some(AnswerView::Flag(b)),
            None => None,
        },
        AnswerKind::OptionalFlag => match optional_yes_no_answer(line) {
            Some(b) => Some(AnswerView::OptionalFlag(b)),
            None => None,
        },
        AnswerKind::List => Some(
            AnswerView::List(
                if input.len() == 0 {
                    Seq::empty()
                } else {
                    split_trimmed(input, ',')
                },
            ),
        ),
    }
}

/// What is said of a line that is not understood as an answer of kind `kind`.
pub open spec fn objection(kind: AnswerKind, line: Seq<char>) -> Seq<char> {
    match kind {
        AnswerKind::Flag => yes_no_message(),
        AnswerKind::OptionalFlag => optional_yes_no_message(),
        AnswerKind::OptionalText | AnswerKind::List => optional_retry_message(trimmed(line)),
        _ => retry_message(trimmed(line)),
    }
}

/// Reads `line` as the answer to `question`.
pub fn read_answer(question: Question, line: &str) -> (r: Reply<PromptAnswer>)
    ensures
        match r {
            Reply::Accepted(answer) => reading(question.kind_of(), line@) == Some(answer@),
            Reply::Rejected(message) => reading(question.kind_of(), line@) is None && message@
                == objection(question.kind_of(), line@),
        },
{
    match question.kind() {
        AnswerKind::Integer => match prompt::<u16>(line) {
            Reply::Accepted(n) => Reply::Accepted(PromptAnswer::Integer(n)),
            Reply::Rejected(message) => Reply::Rejected(message),
        },
        AnswerKind::Text => match prompt::<String>(line) {
            Reply::Accepted(s) => Reply::Accepted(PromptAnswer::Text(s)),
            Reply::Rejected(message) => Reply::Rejected(message),
        },
        AnswerKind::OptionalText => match prompt_optional::<String>(line) {
            Reply::Accepted(s) => Reply::Accepted(PromptAnswer::OptionalText(s)),
            Reply::Rejected(message) => Reply::Rejected(message),
        },
        AnswerKind::Flag => match prompt_bool(line) {
            Reply::Accepted(b) => Reply::Accepted(PromptAnswer::Flag(b)),
            Reply::Rejected(message) => Reply::Rejected(message),
        },
        AnswerKind::OptionalFlag => match prompt_optional_bool(line) {
            Reply::Accepted(b) => Reply::Accepted(PromptAnswer::OptionalFlag(b)),
            Reply::Rejected(message) => Reply::Rejected(message),
        },
        AnswerKind::List => match prompt_optional::<Vec<String>>(line) {
            Reply::Accepted(Some(items)) => Reply::Accepted(PromptAnswer::List(items)),
            Reply::Accepted(None) => {
                let items: Vec<String> = Vec::new();
                assert(texts(items@) =~= Seq::<Seq<char>>::empty());
                Reply::Accepted(PromptAnswer::List(items))
            },
            Reply::Rejected(message) => Reply::Rejected(message),
        },
    }
}

/// While the questions of a license are put, each question is the one
/// that stands at its place, and once they are all answered with answers of
/// their kinds no question is left.
pub proof fn lemma_script_follows_places(license: Licenses, answers: Seq<AnswerView>)
    ensures
        script(license, answers) matches Some(q) ==> q == question_at(license, answers.len() as int),
        complete(license, answers) ==> script(license, answers) is None,
{
}

/// A license of the LGPL family never asks for the version of the program
/// nor whether the program is interactive.
pub proof fn lemma_lgpl_skips_version_and_interactive(license: Licenses, answers: Seq<AnswerView>)
    requires
        license is Lgpl3,
    ensures
        script(license, answers) != Some(Question::ProgramVersion),
        script(license, answers) != Some(Question::Interactive),
{
}

/// When a license of the AGPL or GPL family asks whether a signed release
/// is needed, it has asked for the version of the program and whether the
/// program is interactive before.
pub proof fn lemma_gpl_asks_version_and_interactive_first(
    license: Licenses,
    answers: Seq<AnswerView>,
)
    requires
        license is Agpl3 || license is Gpl3,
        script(license, answers) == Some(Question::SignedRelease),
    ensures
        exists|i: int, j: int|
            0 <= i < j < answers.len() && script(license, answers.take(i)) == Some(
                Question::ProgramVersion,
            ) && script(license, answers.take(j)) == Some(Question::Interactive),
{
    assert(answers.len() == 6);
    assert(script(license, answers.take(3)) == Some(Question::ProgramVersion));
    assert(script(license, answers.take(5)) == Some(Question::Interactive));
}

/// The number that the answer at `i` holds.
pub(crate) fn integer_at(answers: &Vec<PromptAnswer>, i: usize) -> (n: u16)
    requires
        i < answers.len(),
        answers[i as int]@ is Integer,
    ensures
        answers[i as int]@ == AnswerView::Integer(n),
{
    match &answers[i] {
        PromptAnswer::Integer(n) => *n,
        _ => vstd::pervasive::unreached(),
    }
}

/// The text that the answer at `i` holds.
pub(crate) fn text_at(answers: &Vec<PromptAnswer>, i: usize) -> (s: String)
    requires
        i < answers.len(),
        answers[i as int]@ is Text,
    ensures
        answers[i as int]@ == AnswerView::Text(s@),
{
    match &answers[i] {
        PromptAnswer::Text(s) => s.clone(),
        _ => vstd::pervasive::unreached(),
    }
}

/// The text that the answer at `i` holds, if it holds one.
pub(crate) fn optional_text_at(answers: &Vec<PromptAnswer>, i: usize) -> (s: Option<String>)
    requires
        i < answers.len(),
        answers[i as int]@ is OptionalText,
    ensures
        answers[i as int]@ == AnswerView::OptionalText(optional_text(s)),
{
    match &answers[i] {
        PromptAnswer::OptionalText(Some(s)) => Some(s.clone()),
        PromptAnswer::OptionalText(None) => None,
        _ => vstd::pervasive::unreached(),
    }
}

/// The yes or no that the answer at `i` holds.
pub(crate) fn flag_at(answers: &Vec<PromptAnswer>, i: usize) -> (b: bool)
    requires
        i < answers.len(),
        answers[i as int]@ is Flag,
    ensures
        answers[i as int]@ == AnswerView::Flag(b),
{
    match &answers[i] {
        PromptAnswer::Flag(b) => *b,
        _ => vstd::pervasive::unreached(),
    }
}

/// The list that the answer at `i` holds.
pub(crate) fn list_at(answers: &Vec<PromptAnswer>, i: usize) -> (items: Vec<String>)
    requires
        i < answers.len(),
        answers[i as int]@ is List,
    ensures
        answers[i as int]@ == AnswerView::List(texts(items@)),
{
    match &answers[i] {
        PromptAnswer::List(held) => {
            let mut items: Vec<String> = Vec::new();
            let mut k: usize = 0;
            while k < held.len()
                invariant
                    k <= held.len(),
                    texts(items@) == texts(held@).take(k as int),
                decreases held.len() - k,
            {
                let item = held[k].clone();
                let ghost before = items@;
                items.push(item);
                proof {
                    assert(item@ == held@[k as int]@);
                    assert(texts(items@) =~= texts(before).push(item@));
                    assert(texts(held@).take(k + 1) =~= texts(held@).take(k as int).push(
                        held@[k as int]@,
                    ));
                }
                k = k + 1;
            }
            assert(texts(held@).take(held.len() as int) =~= texts(held@));
            items
        },
        _ => vstd::pervasive::unreached(),
    }
}

} // verus!
