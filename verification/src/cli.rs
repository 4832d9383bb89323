//! Argument dispatch and invocation planning.
//!
//! The argument list (program name included) is dispatched to one of three
//! outcomes: a help flag anywhere wins, too few arguments ask for the usage
//! text, and otherwise the first argument names the target format and the
//! rest name the input files.  For a conversion, every input file yields
//! one job — input path and derived output name — processed in the order
//! given, and each job fixes the exact converter command line.

use crate::names::output_file_name;
use crate::names::output_name_of;
use vstd::prelude::*;
use vstd::string::*;

verus! {

/// Whether one argument is a help flag, long or short form.
pub open spec fn is_help_flag(a: Seq<char>) -> bool {
    a == "--help"@ || a == "-h"@
}

/// Whether any argument is a help flag.
pub open spec fn has_help_flag(args: Seq<String>) -> bool {
    exists|i: int| 0 <= i < args.len() && is_help_flag(args[i]@)
}

/// What an argument list asks for.
pub enum Invocation {
    /// A help flag was present: print the help text and stop.
    Help,
    /// Too few arguments: print the usage text and stop.
    Usage,
    /// Convert each of `files` into the target `format`.
    Convert { format: String, files: Vec<String> },
}

/// One planned converter run: an input path and the derived output name.
pub struct ConversionJob {
    pub input: String,
    pub output: String,
}

/// The help text.
pub fn help_text() -> (r: &'static str)
    ensures
        r@ == "Usage: fconvert [FORMAT] FILES...\nConvert batch of files into target format\nExample: fconvert mp3 video1.mp4 video2.mov"@,
{
    "Usage: fconvert [FORMAT] FILES...\nConvert batch of files into target format\nExample: fconvert mp3 video1.mp4 video2.mov"
}

/// The usage text shown when arguments are missing.
pub fn usage_text() -> (r: &'static str)
    ensures
        r@ == "Usage: fconvert [FORMAT] FILES...\nTry 'fconvert --help' for more information."@,
{
    "Usage: fconvert [FORMAT] FILES...\nTry 'fconvert --help' for more information."
}

/// The closing line printed after the whole batch.
pub fn done_text() -> (r: &'static str)
    ensures
        r@ == "Done!"@,
{
    "Done!"
}

/// The name of the external converter executable.
pub fn converter_program() -> (r: &'static str)
    ensures
        r@ == "ffmpeg"@,
{
    "ffmpeg"
}

/// Dispatches the full argument list, program name included.  A help
/// flag anywhere asks for the help text, even beside otherwise valid
/// arguments; fewer than three arguments ask for the usage text; else
/// the second argument is the target format and the rest are the input
/// files, in order.
pub fn parse_args(args: &Vec<String>) -> (r: Invocation)
    ensures
        r is Help <==> has_help_flag(args@),
        r is Usage <==> !has_help_flag(args@) && args@.len() < 3,
        r matches Invocation::Convert { format, files } ==> {
            &&& args@.len() >= 3
            &&& format@ == args@[1]@
            &&& files@.len() == args@.len() - 2
            &&& forall|i: int| 0 <= i < files@.len() ==> (#[trigger] files@[i])@ == args@[i + 2]@
        },
{
    let help_long = String::from_str("--help");
    let help_short = String::from_str("-h");
    let mut i: usize = 0;
    while i < args.len()
        invariant
            i <= args@.len(),
            help_long@ == "--help"@,
            help_short@ == "-h"@,
            forall|k: int| 0 <= k < i ==> !is_help_flag((#[trigger] args@[k])@),
        decreases args@.len() - i,
    {
        if args[i] == help_long || args[i] == help_short {
            return Invocation::Help;
        }
        i = i + 1;
    }
    proof {
        if has_help_flag(args@) {
            let k = choose|k: int| 0 <= k < args@.len() && is_help_flag(args@[k]@);
            assert(false);
        }
    }
    if args.len() < 3 {
        return Invocation::Usage;
    }
    let format = args[1].clone();
    let mut files: Vec<String> = Vec::new();
    let mut i: usize = 2;
    while i < args.len()
        invariant
            3 <= args@.len(),
            2 <= i <= args@.len(),
            files@.len() == i - 2,
            forall|k: int| 0 <= k < files@.len() ==> (#[trigger] files@[k])@ == args@[k + 2]@,
        decreases args@.len() - i,
    {
        files.push(args[i].clone());
        i = i + 1;
    }
    Invocation::Convert { format, files }
}

/// Plans the batch: one job per input file, in the order given, each
/// pairing the input path with its derived output name.
pub fn conversion_jobs(format: &String, files: &Vec<String>) -> (r: Vec<ConversionJob>)
    ensures
        r@.len() == files@.len(),
        forall|i: int| 0 <= i < r@.len() ==> (#[trigger] r@[i]).input@ == files@[i]@,
        forall|i: int|
            0 <= i < r@.len() ==> (#[trigger] r@[i]).output@ == output_name_of(
                files@[i]@,
                format@,
            ),
{
    let mut jobs: Vec<ConversionJob> = Vec::new();
    let mut i: usize = 0;
    while i < files.len()
        invariant
            i <= files@.len(),
            jobs@.len() == i,
            forall|k: int| 0 <= k < jobs@.len() ==> (#[trigger] jobs@[k]).input@ == files@[k]@,
            forall|k: int|
                0 <= k < jobs@.len() ==> (#[trigger] jobs@[k]).output@ == output_name_of(
                    files@[k]@,
                    format@,
                ),
        decreases files@.len() - i,
    {
        let output = output_file_name(&files[i], format);
        jobs.push(ConversionJob { input: files[i].clone(), output });
        i = i + 1;
    }
    jobs
}

/// The argument vector handed to the converter for one job: suppress the
/// banner, name the input, name the derived output.
pub fn converter_args(job: &ConversionJob) -> (r: Vec<String>)
    ensures
        r@.len() == 4,
        r@[0]@ == "-hide_banner"@,
        r@[1]@ == "-i"@,
        r@[2]@ == job.input@,
        r@[3]@ == job.output@,
{
    let mut r: Vec<String> = Vec::new();
    r.push(String::from_str("-hide_banner"));
    r.push(String::from_str("-i"));
    r.push(job.input.clone());
    r.push(job.output.clone());
    r
}

} // verus!
