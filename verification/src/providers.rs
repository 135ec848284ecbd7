//! The enumeration providers: what was found on disk, or what the time tool
//! printed, becomes the list of options that a step offers.

use crate::appliers::TIME_TOOL;
use crate::error::{failure_of, listed_view, Error, ErrorKind, ErrorView};
use crate::gateway::{
    command_result, result_of, CommandResult, CommandResultView, Invocation, InvocationView,
    ProcessOutcome, ProcessOutcomeView,
};
use crate::text::{layout_name, layout_name_of, lines, split_lines, texts};
use vstd::prelude::*;

verus! {

/// The pattern that the paths of all keymap files match.
pub const KEYMAP_PATTERN: &'static str = "/usr/share/kbd/keymaps/**/*.map.gz";

/// The argument that makes the time tool list the timezones it knows.
pub const LIST_TIMEZONES: &'static str = "list-timezones";

/// For each entry of an enumeration, whether it is a failure.
pub open spec fn failures(entries: Seq<Result<String, String>>) -> Seq<bool> {
    entries.map_values(|entry: Result<String, String>| entry is Err)
}

/// The layout names of the paths in `entries`, in the order of the entries.
pub open spec fn layouts_of(entries: Seq<Result<String, String>>) -> Seq<Seq<char>> {
    entries.map_values(|entry: Result<String, String>| layout_name_of(entry->Ok_0@))
}

/// The option list that the entries of an enumeration amount to. An entry
/// that could not be read makes the listing an enumeration error with the
/// text of the first such failure. Otherwise each path gives its layout
/// name, in the order found; no entry at all gives the empty list.
pub open spec fn layouts_among(entries: Seq<Result<String, String>>) -> Result<
    Seq<Seq<char>>,
    ErrorView,
> {
    match failures(entries).index_of_first(true) {
        Some(i) => Err(
            ErrorView { kind: ErrorKind::EnumerationError, message: entries[i]->Err_0@ },
        ),
        None => Ok(layouts_of(entries)),
    }
}

/// The option list that an enumeration of keymap files amounts to: an
/// enumeration error with the text given where it could not begin, else
/// what its entries amount to.
pub open spec fn keyboard_layouts_of(
    found: Result<Vec<Result<String, String>>, String>,
) -> Result<Seq<Seq<char>>, ErrorView> {
    match found {
        Err(detail) => Err(ErrorView { kind: ErrorKind::EnumerationError, message: detail@ }),
        Ok(entries) => layouts_among(entries@),
    }
}

/// Reduces the entries of an enumeration to layout names, or fails with the
/// first entry that is a failure.
fn layouts_from(entries: &Vec<Result<String, String>>) -> (listed: Result<Vec<String>, Error>)
    ensures
        listed_view(listed) == layouts_among(entries@),
{
    let n = entries.len();
    let mut names: Vec<String> = Vec::new();
    let mut i: usize = 0;
    while i < n
        invariant
            n == entries@.len(),
            i <= n,
            forall|j: int| 0 <= j < i ==> entries@[j] is Ok,
            texts(names@) == layouts_of(entries@.take(i as int)),
        decreases n - i,
    {
        match &entries[i] {
            Err(detail) => {
                proof {
                    let failed = failures(entries@);
                    failed.index_of_first_ensures(true);
                    assert(failed[i as int]);
                    let first = failed.index_of_first(true)->Some_0;
                    if first < i {
                        assert(entries@[first] is Ok);
                    }
                }
                return Err(Error::enumeration(detail.as_str()));
            },
            Ok(path) => {
                let name = layout_name(path.as_str());
                proof {
                    assert(entries@.take(i + 1) == entries@.take(i as int).push(
                        entries@[i as int],
                    ));
                    assert(texts(names@.push(name)) == texts(names@).push(name@));
                }
                names.push(name);
            },
        }
        i += 1;
    }
    proof {
        failures(entries@).index_of_first_ensures(true);
        assert(entries@.take(n as int) == entries@);
    }
    Ok(names)
}

/// Lists the keyboard layouts, from what the enumeration of the files that
/// match `KEYMAP_PATTERN` gave: the paths found, or the text of a failure,
/// for the enumeration as a whole and for each entry.
pub fn get_keyboard_layouts(found: Result<Vec<Result<String, String>>, String>) -> (listed:
    Result<Vec<String>, Error>)
    ensures
        listed_view(listed) == keyboard_layouts_of(found),
{
    match &found {
        Err(detail) => Err(Error::enumeration(detail.as_str())),
        Ok(entries) => layouts_from(entries),
    }
}

/// The command that lists the timezones.
pub fn list_timezones_command() -> (command: Invocation)
    ensures
        command@ == (InvocationView { program: TIME_TOOL@, args: seq![LIST_TIMEZONES@] }),
{
    let mut args: Vec<String> = Vec::new();
    args.push(String::from_str(LIST_TIMEZONES));
    assert(texts(args@) == seq![LIST_TIMEZONES@]);
    Invocation { program: String::from_str(TIME_TOOL), args }
}

/// The option list that the outcome of the listing command amounts to: the
/// lines of its output where the gateway reports success, empty lines
/// included, else the gateway's failure as an error that names the tool.
pub open spec fn timezones_of(outcome: ProcessOutcomeView) -> Result<Seq<Seq<char>>, ErrorView> {
    match result_of(outcome) {
        CommandResultView::Success(text) => Ok(split_lines(text)),
        CommandResultView::Failure(reason) => Err(failure_of(TIME_TOOL@, reason)),
    }
}

/// Lists the timezones, from the outcome of the command that lists them.
pub fn get_timezones(outcome: ProcessOutcome) -> (listed: Result<Vec<String>, Error>)
    ensures
        listed_view(listed) == timezones_of(outcome@),
{
    match command_result(outcome) {
        CommandResult::Success(text) => Ok(lines(text.as_str())),
        CommandResult::Failure(reason) => Err(Error::from_failure(TIME_TOOL, reason)),
    }
}

} // verus!
