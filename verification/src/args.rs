//! The command line of the timekeeper: where its records go.

use vstd::prelude::*;
use vstd::string::{StrSliceExecFns, StringExecFns};

verus! {

/// Where the records go.
#[derive(Debug, Clone)]
pub enum OutputType {
    /// To the terminal.
    Terminal,
    /// To a JSON file of the given name.
    JsonFile(String),
}

/// The option that names the JSON file.
pub open spec fn spec_json_option() -> Seq<char> {
    "--json="@
}

/// A text without any occurrence of the JSON option, read from the left.
pub open spec fn spec_without_option(text: Seq<char>) -> Seq<char>
    decreases text.len(),
{
    if text.len() == 0 {
        Seq::empty()
    } else if text.len() >= 7 && text.subrange(0, 7) == spec_json_option() {
        spec_without_option(text.skip(7))
    } else {
        seq![text[0]] + spec_without_option(text.skip(1))
    }
}

/// What one argument asks for.
pub enum ArgumentKind {
    /// `--help` or `-h`.
    Help,
    /// `--json=` and a file name, which may be empty.
    Json(Seq<char>),
    /// Anything else.
    Unknown,
}

/// What one argument asks for.
pub open spec fn spec_argument(arg: Seq<char>) -> ArgumentKind {
    if arg == "--help"@ || arg == "-h"@ {
        ArgumentKind::Help
    } else if arg.len() >= 7 && arg.subrange(0, 7) == spec_json_option() {
        ArgumentKind::Json(spec_without_option(arg))
    } else {
        ArgumentKind::Unknown
    }
}

/// Whether an argument ends the parse with an error: a call for help, a JSON
/// option without a file name, or anything unknown.
pub open spec fn spec_is_fatal(arg: Seq<char>) -> bool {
    match spec_argument(arg) {
        ArgumentKind::Help => true,
        ArgumentKind::Json(name) => name.len() == 0,
        ArgumentKind::Unknown => true,
    }
}

/// The message for an argument that ends the parse.
pub open spec fn spec_error_message(arg: Seq<char>) -> Seq<char> {
    match spec_argument(arg) {
        ArgumentKind::Help => "Help requested"@,
        ArgumentKind::Json(_) => "Error: The filename cannot be empty"@,
        ArgumentKind::Unknown => "Unrecognized argument: "@ + arg,
    }
}

/// Whether a text starts with the JSON option.
fn has_json_option(text: &str, from: usize, len: usize) -> (found: bool)
    requires
        len == text@.len(),
        from <= len,
    ensures
        found == (text@.skip(from as int).len() >= 7 && text@.skip(from as int).subrange(0, 7)
            == spec_json_option()),
{
    if len - from < 7 {
        return false;
    }
    let head: String = String::from_str(text.substring_char(from, from + 7));
    let option: String = String::from_str("--json=");
    assert(text@.skip(from as int).subrange(0, 7) =~= text@.subrange(from as int, from + 7));
    head == option
}

/// Removes every occurrence of the JSON option from a text.
fn without_option(text: &str) -> (rest: String)
    ensures
        rest@ == spec_without_option(text@),
{
    let len: usize = text.unicode_len();
    let mut rest: String = String::new();
    let mut i: usize = 0;
    assert(text@.skip(0) =~= text@);
    assert(rest@ + spec_without_option(text@) =~= spec_without_option(text@));
    while i < len
        invariant
            len == text@.len(),
            i <= len,
            rest@ + spec_without_option(text@.skip(i as int)) == spec_without_option(text@),
        decreases len - i,
    {
        let ghost tail = text@.skip(i as int);
        if has_json_option(text, i, len) {
            assert(tail.skip(7) =~= text@.skip(i + 7));
            i = i + 7;
        } else {
            let ghost before = rest@;
            rest.append(text.substring_char(i, i + 1));
            assert(tail.skip(1) =~= text@.skip(i + 1));
            assert(text@.subrange(i as int, i + 1) =~= seq![tail[0]]);
            assert(rest@ + spec_without_option(text@.skip(i + 1)) =~= before + (seq![tail[0]]
                + spec_without_option(tail.skip(1))));
            i = i + 1;
        }
    }
    assert(text@.skip(len as int).len() == 0);
    assert(rest@ + Seq::<char>::empty() =~= rest@);
    rest
}

/// Reads the arguments after the program's name. `--json=NAME` sends the
/// records to the file `NAME`, and the last such option counts; `--help`,
/// `-h`, an empty file name and every other argument end the parse with a
/// message.
pub fn parse_args(args: &[String]) -> (parsed: Result<OutputType, String>)
    ensures
        match parsed {
            Ok(output) => {
                &&& forall|i: int| 1 <= i < args@.len() ==> !spec_is_fatal(#[trigger] args@[i]@)
                &&& match output {
                    OutputType::Terminal => args@.len() <= 1,
                    OutputType::JsonFile(name) => args@.len() > 1 && spec_argument(
                        args@.last()@,
                    ) == ArgumentKind::Json(name@),
                }
            },
            Err(message) => exists|i: int|
                1 <= i < args@.len() && spec_is_fatal(#[trigger] args@[i]@) && message@
                    == spec_error_message(args@[i]@) && forall|j: int|
                    1 <= j < i ==> !spec_is_fatal(#[trigger] args@[j]@),
        },
{
    let mut output_type: OutputType = OutputType::Terminal;
    let help_long: String = String::from_str("--help");
    let help_short: String = String::from_str("-h");
    let mut i: usize = 1;
    while i < args.len()
        invariant
            1 <= i,
            help_long@ == "--help"@,
            help_short@ == "-h"@,
            forall|j: int| 1 <= j < i && j < args@.len() ==> !spec_is_fatal(#[trigger] args@[j]@),
            match output_type {
                OutputType::Terminal => i == 1,
                OutputType::JsonFile(name) => 1 < i <= args@.len() && spec_argument(args@[i - 1]@)
                    == ArgumentKind::Json(name@),
            },
        decreases args@.len() - i,
    {
        let arg: &String = &args[i];
        let len: usize = arg.as_str().unicode_len();
        if *arg == help_long || *arg == help_short {
            return Err(String::from_str("Help requested"));
        } else if has_json_option(arg.as_str(), 0, len) {
            assert(arg@.skip(0) =~= arg@);
            let filename: String = without_option(arg.as_str());
            if filename.as_str().unicode_len() == 0 {
                return Err(String::from_str("Error: The filename cannot be empty"));
            }
            output_type = OutputType::JsonFile(filename);
        } else {
            assert(arg@.skip(0) =~= arg@);
            return Err(String::from_str("Unrecognized argument: ").concat(arg.as_str()));
        }
        i = i + 1;
    }
    Ok(output_type)
}

} // verus!
