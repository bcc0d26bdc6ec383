use license_gen::io::{
    classify, comment_lines, iterate_dir, output, write_comment, DirectoryAction, DirectoryEvent,
    OutputAction, OutputState, Outcome, Target, AMENDMENT_ADVICE, NOTICE_ADVICE,
};
use license_gen::texts::LicenseTexts;

fn texts(alt: bool, interactive: bool) -> LicenseTexts {
    LicenseTexts {
        text: "license\n".to_string(),
        comment: "SPDX-License-Identifier: MIT".to_string(),
        alt: if alt { Some("alt".to_string()) } else { None },
        interactive: if interactive { Some("notice".to_string()) } else { None },
    }
}

/// Takes the steps of the output; the action at place `fails`, if any, fails.
fn actions(
    license: &LicenseTexts,
    add_comment: bool,
    target: Target,
    fails: Option<usize>,
) -> Vec<OutputAction> {
    let mut taken = Vec::new();
    let mut state = OutputState::Start;
    let mut last = Outcome::Succeeded;
    loop {
        let (next, action) = output(license, add_comment, target, state, last);
        last = if fails == Some(taken.len()) { Outcome::Failed } else { Outcome::Succeeded };
        taken.push(action);
        state = next;
        if state == OutputState::Finished {
            // One more step shows that nothing follows.
            assert_eq!(
                output(license, add_comment, target, state, last),
                (OutputState::Finished, OutputAction::Stop)
            );
            return taken;
        }
        assert!(taken.len() < 10);
    }
}

use OutputAction::{
    AnnotateDirectory, AnnotateFile, FlushLicense, OpenLicense, PrintComment, ReportMissing,
    ReportUnsupported, ShowAmendment, ShowNotice, Stop, WriteLicense,
};

#[test]
fn a_path_is_a_directory_before_it_is_a_file() {
    assert_eq!(classify(false, false, false), Target::Missing);
    assert_eq!(classify(false, true, true), Target::Missing);
    assert_eq!(classify(true, true, false), Target::Directory);
    assert_eq!(classify(true, true, true), Target::Directory);
    assert_eq!(classify(true, false, true), Target::File);
    assert_eq!(classify(true, false, false), Target::Other);
}

#[test]
fn the_sources_come_first_then_the_license_then_the_notices() {
    let all = texts(true, true);
    assert_eq!(
        actions(&all, true, Target::Directory, None),
        [AnnotateDirectory, OpenLicense, WriteLicense, FlushLicense, ShowAmendment, ShowNotice]
    );
    assert_eq!(
        actions(&all, true, Target::File, None),
        [AnnotateFile, OpenLicense, WriteLicense, FlushLicense, ShowAmendment, ShowNotice]
    );
    assert_eq!(
        actions(&texts(false, false), true, Target::File, None),
        [AnnotateFile, OpenLicense, WriteLicense, FlushLicense, Stop]
    );
    assert_eq!(
        actions(&texts(true, false), true, Target::File, None),
        [AnnotateFile, OpenLicense, WriteLicense, FlushLicense, ShowAmendment]
    );
    assert_eq!(
        actions(&texts(false, true), true, Target::File, None),
        [AnnotateFile, OpenLicense, WriteLicense, FlushLicense, ShowNotice]
    );
}

#[test]
fn without_annotation_the_header_is_shown_and_no_source_is_touched() {
    for target in [Target::Missing, Target::Directory, Target::File, Target::Other] {
        assert_eq!(
            actions(&texts(true, false), false, target, None),
            [PrintComment, OpenLicense, WriteLicense, FlushLicense, ShowAmendment]
        );
    }
}

#[test]
fn a_path_that_cannot_be_annotated_ends_the_run() {
    assert_eq!(actions(&texts(true, true), true, Target::Missing, None), [ReportMissing]);
    assert_eq!(actions(&texts(true, true), true, Target::Other, None), [ReportUnsupported]);
}

#[test]
fn the_first_failure_ends_the_run() {
    let all = texts(true, true);
    assert_eq!(actions(&all, true, Target::File, Some(0)), [AnnotateFile, Stop]);
    assert_eq!(actions(&all, true, Target::Directory, Some(0)), [AnnotateDirectory, Stop]);
    assert_eq!(actions(&all, true, Target::File, Some(1)), [AnnotateFile, OpenLicense, Stop]);
    assert_eq!(
        actions(&all, true, Target::File, Some(2)),
        [AnnotateFile, OpenLicense, WriteLicense, Stop]
    );
    assert_eq!(
        actions(&all, true, Target::File, Some(3)),
        [AnnotateFile, OpenLicense, WriteLicense, FlushLicense, Stop]
    );
}

#[test]
fn each_step_follows_from_the_state_and_the_last_outcome() {
    let all = texts(true, true);
    let step = |state, last| output(&all, true, Target::File, state, last);
    assert_eq!(step(OutputState::Start, Outcome::Failed), (OutputState::Annotating, AnnotateFile));
    assert_eq!(step(OutputState::Annotating, Outcome::Succeeded), (OutputState::Opening, OpenLicense));
    assert_eq!(step(OutputState::Opening, Outcome::Succeeded), (OutputState::Writing, WriteLicense));
    assert_eq!(step(OutputState::Writing, Outcome::Succeeded), (OutputState::Flushing, FlushLicense));
    assert_eq!(step(OutputState::Flushing, Outcome::Succeeded), (OutputState::Amendment, ShowAmendment));
    assert_eq!(step(OutputState::Amendment, Outcome::Succeeded), (OutputState::Finished, ShowNotice));
    assert_eq!(step(OutputState::Finished, Outcome::Succeeded), (OutputState::Finished, Stop));
    for state in [OutputState::Annotating, OutputState::Opening, OutputState::Writing, OutputState::Flushing, OutputState::Finished] {
        assert_eq!(step(state, Outcome::Failed), (OutputState::Finished, Stop));
    }
}

#[test]
fn the_actions_have_their_words() {
    assert_eq!(
        PrintComment.announcement(),
        "Add this as a comment to the top of your source file(s):\n"
    );
    assert_eq!(ReportMissing.announcement(), "Source path does not exist");
    assert_eq!(ReportUnsupported.announcement(), "Source path is neither a file nor a directory");
    assert_eq!(ShowAmendment.announcement(), AMENDMENT_ADVICE);
    assert_eq!(ShowNotice.announcement(), NOTICE_ADVICE);
    assert_eq!(Stop.announcement(), "");
    assert!(AMENDMENT_ADVICE
        .starts_with("\nYou'll need to include the following amendment to your license.\n"));
    assert!(NOTICE_ADVICE.starts_with("\nSince your program is interactive, you should also"));
    assert_eq!(AnnotateDirectory.complaint(), "Failed to read directory");
    assert_eq!(AnnotateFile.complaint(), "Failed to write comment for file");
    assert_eq!(OpenLicense.complaint(), "Failed to open license file");
    assert_eq!(WriteLicense.complaint(), "Failed to write license text to");
    assert_eq!(FlushLicense.complaint(), "Failed to flush license file");
    assert_eq!(ShowNotice.complaint(), "");
}

#[test]
fn the_entries_of_a_directory_are_taken_until_one_gives_trouble() {
    assert_eq!(iterate_dir(DirectoryEvent::Listed(true)), DirectoryAction::NextEntry);
    assert_eq!(iterate_dir(DirectoryEvent::Listed(false)), DirectoryAction::ReportDirectory);
    assert_eq!(iterate_dir(DirectoryEvent::Entry(true)), DirectoryAction::AnnotateEntry);
    assert_eq!(iterate_dir(DirectoryEvent::Entry(false)), DirectoryAction::ReportEntry);
    assert_eq!(iterate_dir(DirectoryEvent::Annotated(true)), DirectoryAction::NextEntry);
    assert_eq!(iterate_dir(DirectoryEvent::Annotated(false)), DirectoryAction::ReportFile);
    assert_eq!(iterate_dir(DirectoryEvent::Exhausted), DirectoryAction::Done);
    assert_eq!(DirectoryAction::ReportDirectory.complaint(), "Failed to read directory");
    assert_eq!(DirectoryAction::ReportEntry.complaint(), "Failed to read entry in directory");
    assert_eq!(DirectoryAction::ReportFile.complaint(), "Failed to write comment for file");
    assert_eq!(DirectoryAction::Done.complaint(), "");
}

#[test]
fn two_files_of_a_directory_get_the_same_header() {
    let block = "SPDX-License-Identifier: GPL-3.0-only\nCopyright (C) 2025 Your Name";
    let first = b"fn main() {}\n".to_vec();
    let second = b"\xff\xfe not text \r\n\r\nno newline at the end".to_vec();
    let header = b"// SPDX-License-Identifier: GPL-3.0-only\n// Copyright (C) 2025 Your Name\n";
    for original in [first, second] {
        let contents = write_comment("//", block, original.clone());
        assert_eq!(contents[..header.len()], header[..]);
        assert_eq!(contents[header.len()..], original[..]);
    }
    let python = write_comment("#", block, b"import os\n".to_vec());
    assert_eq!(
        python,
        b"# SPDX-License-Identifier: GPL-3.0-only\n# Copyright (C) 2025 Your Name\nimport os\n"
    );
}

#[test]
fn a_second_run_puts_a_second_header() {
    let once = write_comment("//", "SPDX-License-Identifier: MIT", b"x\n".to_vec());
    let twice = write_comment("//", "SPDX-License-Identifier: MIT", once.clone());
    assert_eq!(once, b"// SPDX-License-Identifier: MIT\nx\n");
    assert_eq!(twice, b"// SPDX-License-Identifier: MIT\n// SPDX-License-Identifier: MIT\nx\n");
}

#[test]
fn each_line_of_the_block_becomes_a_comment() {
    assert_eq!(comment_lines("//", "a\nb"), "// a\n// b\n");
    assert_eq!(comment_lines("//", "a\nb\n"), "// a\n// b\n");
    assert_eq!(comment_lines("#", "a\r\n\r\nb"), "# a\n# \n# b\n");
    assert_eq!(comment_lines("--", ""), "");
    assert_eq!(comment_lines("", "a"), " a\n");
    assert_eq!(comment_lines("/* é", "ü"), "/* é ü\n");
    assert_eq!(write_comment("//", "", b"x".to_vec()), b"x");
    assert_eq!(write_comment("#", "é", vec![]), "# é\n".as_bytes());
}
