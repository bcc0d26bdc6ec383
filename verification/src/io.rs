//! What is decided while the operator is asked and the results are written
//! out: what a line that the operator typed is taken to mean, which step
//! follows which when the license file is written and the source files get
//! their header, and what a source file holds once it has its header.
//! The reading and the writing themselves are the caller's.

use vstd::prelude::*;
use crate::strings::{
    lines, lowercase, parse_u16, parsed_u16, split_and_trim, split_lines, split_trimmed, str_eq,
    texts, to_lowercase, trim, trimmed,
};
use crate::texts::LicenseTexts;

verus! {

/// What became of a line that answered a prompt.
#[derive(Debug, Clone, PartialEq, Eq)]
pub enum Reply<T> {
    /// The line denotes this value.
    Accepted(T),
    /// The line denotes nothing. The message says so, and the question is
    /// to be put again.
    Rejected(String),
}

/// A value that one line of text can denote.
pub trait FromLine: Sized {
    /// Whether `line` denotes a value.
    spec fn accepts(line: Seq<char>) -> bool;

    /// Whether `self` is the value that `line` denotes.
    spec fn denoted_by(&self, line: Seq<char>) -> bool;

    /// The value that `line` denotes, if it denotes one.
    fn from_line(line: &str) -> (r: Option<Self>)
        ensures
            r is Some <==> Self::accepts(line@),
            r matches Some(v) ==> v.denoted_by(line@),
    ;
}

impl FromLine for u16 {
    open spec fn accepts(line: Seq<char>) -> bool {
        parsed_u16(line) is Some
    }

    open spec fn denoted_by(&self, line: Seq<char>) -> bool {
        parsed_u16(line) == Some(*self)
    }

    fn from_line(line: &str) -> (r: Option<u16>) {
        parse_u16(line)
    }
}

impl FromLine for String {
    open spec fn accepts(line: Seq<char>) -> bool {
        true
    }

    open spec fn denoted_by(&self, line: Seq<char>) -> bool {
        self@ == line
    }

    fn from_line(line: &str) -> (r: Option<String>) {
        Some(String::from_str(line))
    }
}

impl FromLine for Vec<String> {
    open spec fn accepts(line: Seq<char>) -> bool {
        true
    }

    open spec fn denoted_by(&self, line: Seq<char>) -> bool {
        texts(self@) == split_trimmed(line, ',')
    }

    fn from_line(line: &str) -> (r: Option<Vec<String>>) {
        Some(split_and_trim(line, ','))
    }
}

/// What is said of a line that denotes nothing.
pub open spec fn invalid_input(input: Seq<char>) -> Seq<char> {
    "Invalid input: "@ + input + "."@
}

/// What is said when a required answer was not understood.
pub open spec fn retry_message(input: Seq<char>) -> Seq<char> {
    invalid_input(input) + "\nPlease try again."@
}

/// What is said when an optional answer was not understood.
pub open spec fn optional_retry_message(input: Seq<char>) -> Seq<char> {
    invalid_input(input) + "\nPlease try again or leave blank for none."@
}

/// What is said when a required yes or no was not understood.
pub open spec fn yes_no_message() -> Seq<char> {
    "Please answer 'yes' or 'no'."@
}

/// What is said when an optional yes or no was not understood.
pub open spec fn optional_yes_no_message() -> Seq<char> {
    "Please answer 'yes', 'no', or leave blank for none."@
}

/// The words that say that `input` was not understood, with `advice` on a
/// line of its own.
fn rejection(input: &str, advice: &str) -> (message: String)
    ensures
        message@ == invalid_input(input@) + "\n"@ + advice@,
{
    let mut message = String::from_str("Invalid input: ");
    message.append(input);
    message.append(".");
    message.append("\n");
    message.append(advice);
    message
}

/// Reads a required answer from `line`. The white space around the answer
/// does not count. A line that denotes no value is rejected.
pub fn prompt<T: FromLine>(line: &str) -> (r: Reply<T>)
    ensures
        match r {
            Reply::Accepted(value) => T::accepts(trimmed(line@)) && value.denoted_by(
                trimmed(line@),
            ),
            Reply::Rejected(message) => !T::accepts(trimmed(line@)) && message@ == retry_message(
                trimmed(line@),
            ),
        },
{
    let input = trim(line);
    match T::from_line(input) {
        Some(value) => Reply::Accepted(value),
        None => {
            let message = rejection(input, "Please try again.");
            proof {
                reveal_strlit("\n");
                reveal_strlit("Please try again.");
                reveal_strlit("\nPlease try again.");
                assert("\n"@ + "Please try again."@ =~= "\nPlease try again."@);
                assert(message@ =~= retry_message(trimmed(line@)));
            }
            Reply::Rejected(message)
        },
    }
}

/// Reads an optional answer from `line`. A line that holds nothing but
/// white space is accepted as no answer; any other is read as a required
/// answer is.
pub fn prompt_optional<T: FromLine>(line: &str) -> (r: Reply<Option<T>>)
    ensures
        match r {
            Reply::Accepted(None) => trimmed(line@).len() == 0,
            Reply::Accepted(Some(value)) => trimmed(line@).len() > 0 && T::accepts(trimmed(line@))
                && value.denoted_by(trimmed(line@)),
            Reply::Rejected(message) => trimmed(line@).len() > 0 && !T::accepts(trimmed(line@))
                && message@ == optional_retry_message(trimmed(line@)),
        },
{
    let input = trim(line);
    if input.unicode_len() == 0 {
        return Reply::Accepted(None);
    }
    match T::from_line(input) {
        Some(value) => Reply::Accepted(Some(value)),
        None => {
            let message = rejection(input, "Please try again or leave blank for none.");
            proof {
                reveal_strlit("\n");
                reveal_strlit("Please try again or leave blank for none.");
                reveal_strlit("\nPlease try again or leave blank for none.");
                assert("\n"@ + "Please try again or leave blank for none."@
                    =~= "\nPlease try again or leave blank for none."@);
                assert(message@ =~= optional_retry_message(trimmed(line@)));
            }
            Reply::Rejected(message)
        },
    }
}

/// Whether a word in lower case says yes or no, if it says either.
pub open spec fn yes_no(word: Seq<char>) -> Option<bool> {
    if word == "yes"@ || word == "y"@ || word == "true"@ || word == "t"@ {
        Some(true)
    } else if word == "no"@ || word == "n"@ || word == "false"@ || word == "f"@ {
        Some(false)
    } else {
        None
    }
}

/// Reads a word in lower case as yes or no.
pub fn parse_yes_no(word: &str) -> (r: Option<bool>)
    ensures
        r == yes_no(word@),
{
    if str_eq(word, "yes") || str_eq(word, "y") || str_eq(word, "true") || str_eq(word, "t") {
        Some(true)
    } else if str_eq(word, "no") || str_eq(word, "n") || str_eq(word, "false") || str_eq(
        word,
        "f",
    ) {
        Some(false)
    } else {
        None
    }
}

/// The yes or no that `line` says, in capitals or not and without the
/// white space around it, if it says either.
pub open spec fn yes_no_answer(line: Seq<char>) -> Option<bool> {
    yes_no(lowercase(trimmed(line)))
}

/// The optional yes or no that `line` says: nothing for a line that holds
/// but white space, yes or no where it says one of them, and no answer at
/// all for any other line.
pub open spec fn optional_yes_no_answer(line: Seq<char>) -> Option<Option<bool>> {
    if trimmed(line).len() == 0 {
        Some(None)
    } else {
        match yes_no_answer(line) {
            Some(b) => Some(Some(b)),
            None => None,
        }
    }
}

/// Reads a yes or no from `line`, in capitals or not, without the white
/// space around it.
pub fn prompt_bool(line: &str) -> (r: Reply<bool>)
    ensures
        match r {
            Reply::Accepted(value) => yes_no_answer(line@) == Some(value),
            Reply::Rejected(message) => yes_no_answer(line@) is None && message@
                == yes_no_message(),
        },
{
    let response = trim(line);
    let word = to_lowercase(response);
    match parse_yes_no(word.as_str()) {
        Some(value) => Reply::Accepted(value),
        None => Reply::Rejected(String::from_str("Please answer 'yes' or 'no'.")),
    }
}

/// Reads an optional yes or no from `line`. A line that holds nothing but
/// white space is accepted as no answer; any other line that says neither
/// yes nor no is rejected.
pub fn prompt_optional_bool(line: &str) -> (r: Reply<Option<bool>>)
    ensures
        match r {
            Reply::Accepted(value) => optional_yes_no_answer(line@) == Some(value),
            Reply::Rejected(message) => optional_yes_no_answer(line@) is None && message@
                == optional_yes_no_message(),
        },
{
    let response = trim(line);
    if response.unicode_len() == 0 {
        return Reply::Accepted(None);
    }
    let word = to_lowercase(response);
    match parse_yes_no(word.as_str()) {
        Some(value) => Reply::Accepted(Some(value)),
        None => Reply::Rejected(
            String::from_str("Please answer 'yes', 'no', or leave blank for none."),
        ),
    }
}

/// What the path of the sources turned out to be.
#[derive(Debug, Clone, Copy, PartialEq, Eq, Hash, Structural)]
pub enum Target {
    /// Nothing is there.
    Missing,
    /// A directory: every entry of it gets the header.
    Directory,
    /// A file: it gets the header.
    File,
    /// Something that is neither.
    Other,
}

/// What a path is, from what the file system says of it. A directory is
/// taken as one before a file is taken as one.
pub open spec fn target_of(exists: bool, is_dir: bool, is_file: bool) -> Target {
    if !exists {
        Target::Missing
    } else if is_dir {
        Target::Directory
    } else if is_file {
        Target::File
    } else {
        Target::Other
    }
}

/// Says what a path is, from what the file system says of it.
pub fn classify(exists: bool, is_dir: bool, is_file: bool) -> (target: Target)
    ensures
        target == target_of(exists, is_dir, is_file),
{
    if !exists {
        Target::Missing
    } else if is_dir {
        Target::Directory
    } else if is_file {
        Target::File
    } else {
        Target::Other
    }
}

/// How far the writing has come.
#[derive(Debug, Clone, Copy, PartialEq, Eq, Hash, Structural)]
pub enum OutputState {
    /// Nothing was done yet.
    Start,
    /// The header is being put on the sources, or shown to the operator.
    Annotating,
    /// The license file is being opened.
    Opening,
    /// The license is being written to its file.
    Writing,
    /// The license file is being flushed.
    Flushing,
    /// The amendment is being shown.
    Amendment,
    /// Nothing is left to do once the last action is done.
    Finished,
}

/// What is to be done next.
#[derive(Debug, Clone, Copy, PartialEq, Eq, Hash, Structural)]
pub enum OutputAction {
    /// Show the header for the operator to copy; no file is touched.
    PrintComment,
    /// Put the header on every entry of the directory.
    AnnotateDirectory,
    /// Put the header on the file.
    AnnotateFile,
    /// Say that the path of the sources does not exist.
    ReportMissing,
    /// Say that the path of the sources is neither a file nor a directory.
    ReportUnsupported,
    /// Open the license file: create it if it is absent, empty it if it is present.
    OpenLicense,
    /// Write the text of the license.
    WriteLicense,
    /// Flush the license file.
    FlushLicense,
    /// Show the amendment to the operator.
    ShowAmendment,
    /// Show the notice for interactive programs to the operator.
    ShowNotice,
    /// Do nothing more.
    Stop,
}

/// How the last action ended.
#[derive(Debug, Clone, Copy, PartialEq, Eq, Hash, Structural)]
pub enum Outcome {
    Succeeded,
    Failed,
}

/// What follows once the license file is flushed, or once the amendment
/// was shown: the notices that are there, the amendment first.
pub open spec fn closing_step(amendment: bool, notice: bool) -> (OutputState, OutputAction) {
    if amendment {
        (
            if notice {
                OutputState::Amendment
            } else {
                OutputState::Finished
            },
            OutputAction::ShowAmendment,
        )
    } else if notice {
        (OutputState::Finished, OutputAction::ShowNotice)
    } else {
        (OutputState::Finished, OutputAction::Stop)
    }
}

/// The state that follows `state` and the action to take, when the action
/// before ended as `last` says. The sources come first, then the license
/// file, then the notices; the first failure ends it all.
pub open spec fn output_step(
    add_comment: bool,
    target: Target,
    amendment: bool,
    notice: bool,
    state: OutputState,
    last: Outcome,
) -> (OutputState, OutputAction) {
    match state {
        OutputState::Start => if !add_comment {
            (OutputState::Annotating, OutputAction::PrintComment)
        } else {
            match target {
                Target::Directory => (OutputState::Annotating, OutputAction::AnnotateDirectory),
                Target::File => (OutputState::Annotating, OutputAction::AnnotateFile),
                Target::Other => (OutputState::Finished, OutputAction::ReportUnsupported),
                Target::Missing => (OutputState::Finished, OutputAction::ReportMissing),
            }
        },
        OutputState::Finished => (OutputState::Finished, OutputAction::Stop),
        OutputState::Amendment => closing_step(false, notice),
        _ => if last is Failed {
            (OutputState::Finished, OutputAction::Stop)
        } else {
            match state {
                OutputState::Annotating => (OutputState::Opening, OutputAction::OpenLicense),
                OutputState::Opening => (OutputState::Writing, OutputAction::WriteLicense),
                OutputState::Writing => (OutputState::Flushing, OutputAction::FlushLicense),
                _ => closing_step(amendment, notice),
            }
        },
    }
}

/// Decides the next step of writing out `license`: the header for the
/// sources at `target`, or for the operator to copy where `add_comment` is
/// off; then the license file; then the amendment and the notice, if the
/// license has them.
pub fn output(
    license: &LicenseTexts,
    add_comment: bool,
    target: Target,
    state: OutputState,
    last: Outcome,
) -> (step: (OutputState, OutputAction))
    ensures
        step == output_step(
            add_comment,
            target,
            license.alt is Some,
            license.interactive is Some,
            state,
            last,
        ),
{
    let amendment = license.alt.is_some();
    let notice = license.interactive.is_some();
    let failed = match last {
        Outcome::Failed => true,
        Outcome::Succeeded => false,
    };
    match state {
        OutputState::Start => {
            if !add_comment {
                (OutputState::Annotating, OutputAction::PrintComment)
            } else {
                match target {
                    Target::Directory => (OutputState::Annotating, OutputAction::AnnotateDirectory),
                    Target::File => (OutputState::Annotating, OutputAction::AnnotateFile),
                    Target::Other => (OutputState::Finished, OutputAction::ReportUnsupported),
                    Target::Missing => (OutputState::Finished, OutputAction::ReportMissing),
                }
            }
        },
        OutputState::Finished => (OutputState::Finished, OutputAction::Stop),
        OutputState::Amendment => closing(false, notice),
        OutputState::Annotating => if failed {
            (OutputState::Finished, OutputAction::Stop)
        } else {
            (OutputState::Opening, OutputAction::OpenLicense)
        },
        OutputState::Opening => if failed {
            (OutputState::Finished, OutputAction::Stop)
        } else {
            (OutputState::Writing, OutputAction::WriteLicense)
        },
        OutputState::Writing => if failed {
            (OutputState::Finished, OutputAction::Stop)
        } else {
            (OutputState::Flushing, OutputAction::FlushLicense)
        },
        OutputState::Flushing => if failed {
            (OutputState::Finished, OutputAction::Stop)
        } else {
            closing(amendment, notice)
        },
    }
}

/// The step that shows the notices that are there, the amendment first.
fn closing(amendment: bool, notice: bool) -> (step: (OutputState, OutputAction))
    ensures
        step == closing_step(amendment, notice),
{
    if amendment {
        if notice {
            (OutputState::Amendment, OutputAction::ShowAmendment)
        } else {
            (OutputState::Finished, OutputAction::ShowAmendment)
        }
    } else if notice {
        (OutputState::Finished, OutputAction::ShowNotice)
    } else {
        (OutputState::Finished, OutputAction::Stop)
    }
}

/// What is said to the operator with an action, if anything: the heading
/// of a report, or the words that introduce a notice.
pub open spec fn announcement(action: OutputAction) -> Seq<char> {
    match action {
        OutputAction::PrintComment =>
            "Add this as a comment to the top of your source file(s):\n"@,
        OutputAction::ReportMissing => "Source path does not exist"@,
        OutputAction::ReportUnsupported => "Source path is neither a file nor a directory"@,
        OutputAction::ShowAmendment => AMENDMENT_ADVICE@,
        OutputAction::ShowNotice => NOTICE_ADVICE@,
        _ => ""@,
    }
}

/// What is said when an action fails, before the path and the cause.
pub open spec fn complaint(action: OutputAction) -> Seq<char> {
    match action {
        OutputAction::AnnotateDirectory => "Failed to read directory"@,
        OutputAction::AnnotateFile => "Failed to write comment for file"@,
        OutputAction::OpenLicense => "Failed to open license file"@,
        OutputAction::WriteLicense => "Failed to write license text to"@,
        OutputAction::FlushLicense => "Failed to flush license file"@,
        _ => ""@,
    }
}

/// The words that introduce the amendment.
pub const AMENDMENT_ADVICE: &'static str = r#"
You'll need to include the following amendment to your license.
This is usually added to the end of the license file, but there is no strict requirement
for where it goes. Another common place is to add it as a comment at the top of your source
files or to the readme.
"#;

/// The words that introduce the notice for interactive programs.
pub const NOTICE_ADVICE: &'static str = r#"
Since your program is interactive, you should also include the following notice in your program's output.
This needs to be easily accessible to users, such as in a help command, at the start of the program, in
a footer section, or in an about section.
"#;

impl OutputAction {
    /// What is said to the operator with the action, if anything.
    pub fn announcement(&self) -> (words: &'static str)
        ensures
            words@ == announcement(*self),
    {
        match self {
            OutputAction::PrintComment =>
                "Add this as a comment to the top of your source file(s):\n",
            OutputAction::ReportMissing => "Source path does not exist",
            OutputAction::ReportUnsupported => "Source path is neither a file nor a directory",
            OutputAction::ShowAmendment => AMENDMENT_ADVICE,
            OutputAction::ShowNotice => NOTICE_ADVICE,
            _ => "",
        }
    }

    /// What is said when the action fails, before the path and the cause.
    pub fn complaint(&self) -> (words: &'static str)
        ensures
            words@ == complaint(*self),
    {
        match self {
            OutputAction::AnnotateDirectory => "Failed to read directory",
            OutputAction::AnnotateFile => "Failed to write comment for file",
            OutputAction::OpenLicense => "Failed to open license file",
            OutputAction::WriteLicense => "Failed to write license text to",
            OutputAction::FlushLicense => "Failed to flush license file",
            _ => "",
        }
    }
}

/// Once an action other than the first has failed, nothing more is done:
/// no file is written after that, and no notice is shown as if all had
/// gone well.
pub proof fn lemma_failure_ends_output(
    add_comment: bool,
    target: Target,
    amendment: bool,
    notice: bool,
    state: OutputState,
)
    requires
        state != OutputState::Start,
        state != OutputState::Amendment,
    ensures
        output_step(add_comment, target, amendment, notice, state, Outcome::Failed) == (
            OutputState::Finished,
            OutputAction::Stop,
        ),
{
}

/// The notices are shown only once the license file is flushed.
pub proof fn lemma_notices_follow_the_license(
    add_comment: bool,
    target: Target,
    amendment: bool,
    notice: bool,
    state: OutputState,
    last: Outcome,
)
    requires
        ({
            let action = output_step(add_comment, target, amendment, notice, state, last).1;
            action == OutputAction::ShowAmendment || action == OutputAction::ShowNotice
        }),
    ensures
        state == OutputState::Flushing && last == Outcome::Succeeded || state
            == OutputState::Amendment,
{
}

/// What happened while the entries of a directory got their header.
#[derive(Debug, Clone, Copy, PartialEq, Eq, Hash, Structural)]
pub enum DirectoryEvent {
    /// The directory was opened for reading, or could not be.
    Listed(bool),
    /// The next entry was read, or could not be.
    Entry(bool),
    /// The entry got its header, or did not.
    Annotated(bool),
    /// No entry is left.
    Exhausted,
}

/// What is to be done next with a directory.
#[derive(Debug, Clone, Copy, PartialEq, Eq, Hash, Structural)]
pub enum DirectoryAction {
    /// Read the next entry.
    NextEntry,
    /// Put the header on the entry that was read.
    AnnotateEntry,
    /// Say that the directory cannot be read, and give up.
    ReportDirectory,
    /// Say that an entry cannot be read, and give up.
    ReportEntry,
    /// Say that an entry did not get its header, and give up.
    ReportFile,
    /// Every entry has its header.
    Done,
}

/// What follows an event: the entries are taken one by one as the
/// directory lists them, and the first that gives trouble ends the work.
pub open spec fn directory_step(event: DirectoryEvent) -> DirectoryAction {
    match event {
        DirectoryEvent::Listed(true) => DirectoryAction::NextEntry,
        DirectoryEvent::Listed(false) => DirectoryAction::ReportDirectory,
        DirectoryEvent::Entry(true) => DirectoryAction::AnnotateEntry,
        DirectoryEvent::Entry(false) => DirectoryAction::ReportEntry,
        DirectoryEvent::Annotated(true) => DirectoryAction::NextEntry,
        DirectoryEvent::Annotated(false) => DirectoryAction::ReportFile,
        DirectoryEvent::Exhausted => DirectoryAction::Done,
    }
}

/// Decides what to do next with a directory whose entries get the header.
pub fn iterate_dir(event: DirectoryEvent) -> (action: DirectoryAction)
    ensures
        action == directory_step(event),
{
    match event {
        DirectoryEvent::Listed(true) => DirectoryAction::NextEntry,
        DirectoryEvent::Listed(false) => DirectoryAction::ReportDirectory,
        DirectoryEvent::Entry(true) => DirectoryAction::AnnotateEntry,
        DirectoryEvent::Entry(false) => DirectoryAction::ReportEntry,
        DirectoryEvent::Annotated(true) => DirectoryAction::NextEntry,
        DirectoryEvent::Annotated(false) => DirectoryAction::ReportFile,
        DirectoryEvent::Exhausted => DirectoryAction::Done,
    }
}

impl DirectoryAction {
    /// What is said with a report, before the path and the cause.
    pub open spec fn complaint_of(self) -> Seq<char> {
        match self {
            DirectoryAction::ReportDirectory => "Failed to read directory"@,
            DirectoryAction::ReportEntry => "Failed to read entry in directory"@,
            DirectoryAction::ReportFile => "Failed to write comment for file"@,
            _ => ""@,
        }
    }

    /// What is said with a report, before the path and the cause.
    pub fn complaint(&self) -> (words: &'static str)
        ensures
            words@ == self.complaint_of(),
    {
        match self {
            DirectoryAction::ReportDirectory => "Failed to read directory",
            DirectoryAction::ReportEntry => "Failed to read entry in directory",
            DirectoryAction::ReportFile => "Failed to write comment for file",
            _ => "",
        }
    }
}

/// The lines of a header as comments: each line after the mark of a
/// comment and a space, and ended by a line feed.
pub open spec fn commented(comment: Seq<char>, block: Seq<Seq<char>>) -> Seq<char>
    decreases block.len(),
{
    if block.len() == 0 {
        Seq::empty()
    } else {
        commented(comment, block.drop_last()) + comment + " "@ + block.last() + "\n"@
    }
}

/// Writes the lines of `comment_block` as comments that start with `comment`.
pub fn comment_lines(comment: &str, comment_block: &str) -> (header: String)
    ensures
        header@ == commented(comment@, lines(comment_block@)),
{
    let block = split_lines(comment_block);
    let ghost all = texts(block@);
    let mut header = String::new();
    let mut i: usize = 0;
    proof {
        assert(all.take(0) =~= Seq::<Seq<char>>::empty());
        assert(header@ =~= commented(comment@, all.take(0)));
    }
    while i < block.len()
        invariant
            i <= block.len(),
            all == texts(block@),
            header@ == commented(comment@, all.take(i as int)),
        decreases block.len() - i,
    {
        header.append(comment);
        header.append(" ");
        header.append(block[i].as_str());
        header.append("\n");
        proof {
            let done = all.take(i + 1);
            assert(done.drop_last() =~= all.take(i as int));
            assert(done.last() == block@[i as int]@);
            assert(header@ =~= commented(comment@, done));
        }
        i = i + 1;
    }
    proof {
        assert(all.take(block.len() as int) =~= all);
    }
    header
}

/// What a file holds once it has its header: the lines of the header as
/// comments, then what the file held before, byte for byte.
pub open spec fn annotated(comment: Seq<char>, comment_block: Seq<char>, original: Seq<u8>) -> Seq<
    u8,
> {
    vstd::utf8::encode_utf8(commented(comment, lines(comment_block))) + original
}

/// Computes what a file is to hold once the lines of `comment_block` stand
/// above its `original` contents as comments that start with `comment`.
pub fn write_comment(comment: &str, comment_block: &str, original: Vec<u8>) -> (contents: Vec<u8>)
    ensures
        contents@ == annotated(comment@, comment_block@, original@),
{
    let header = comment_lines(comment, comment_block);
    let mut contents = header.as_str().as_bytes_vec();
    let mut rest = original;
    contents.append(&mut rest);
    contents
}

} // verus!
