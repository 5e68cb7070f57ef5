//! The local executor: the `ffmpeg` invocation that a processing request
//! stands for.

use vstd::prelude::*;
use crate::models::{ProcessRequest, ProcessRequestView};
use crate::text::{join, joined, opt_text, texts};

verus! {

/// The final component of the path `path`, where it has one: what
/// `std::path::Path::file_name` gives for it.
pub uninterp spec fn path_file_name(path: Seq<char>) -> Option<Seq<char>>;

/// How `std` writes the list of strings `items` for debugging.
pub uninterp spec fn debug_text(items: Seq<Seq<char>>) -> Seq<char>;

/// Calls `std::path::Path::file_name` on `path`. The contract only gives the
/// result its name, [`path_file_name`]; nothing is claimed of which part of
/// the path it is.
#[verifier::external_body]
fn file_name(path: &str) -> (r: Option<String>)
    ensures
        opt_text(r) == path_file_name(path@),
{
    match std::path::Path::new(path).file_name() {
        Some(name) => Some(name.to_string_lossy().into_owned()),
        None => None,
    }
}

/// Formats `items` with `std`'s `Debug` for a vector of strings. The contract
/// only gives the result its name, [`debug_text`].
#[verifier::external_body]
fn debug_list(items: &Vec<String>) -> (r: String)
    ensures
        r@ == debug_text(texts(items@)),
{
    format!("{:?}", items)
}

/// The output path used when a request names none: the file name of the
/// input with `processed_` before it and, where a format is asked for, a dot
/// and the format behind it.
pub open spec fn default_output(name: Seq<char>, format: Option<Seq<char>>) -> Seq<char> {
    match format {
        Some(f) => "processed_"@ + name + "."@ + f,
        None => "processed_"@ + name,
    }
}

/// The output path of a request: the one it names, else the default one,
/// which exists only where the input has a file name.
pub open spec fn output_path(request: ProcessRequestView) -> Option<Seq<char>> {
    match request.output {
        Some(o) => Some(o),
        None => match path_file_name(request.input) {
            Some(name) => Some(default_output(name, request.format)),
            None => None,
        },
    }
}

/// The two arguments of an optional flag: the flag and its value, or none.
pub open spec fn flag(name: Seq<char>, value: Option<Seq<char>>) -> Seq<Seq<char>> {
    match value {
        Some(v) => seq![name, v],
        None => seq![],
    }
}

/// The argument list of `ffmpeg`: the input, then the resolution and the
/// bitrate where given, then the output path.
pub open spec fn ffmpeg_args(request: ProcessRequestView, output: Seq<char>) -> Seq<Seq<char>> {
    seq!["-i"@, request.input] + flag("-s"@, request.resolution) + flag(
        "-b:v"@,
        request.bitrate,
    ) + seq![output]
}

/// The command line as it is shown: the program and its arguments, with one
/// space between them.
pub open spec fn command_line(args: Seq<Seq<char>>) -> Seq<char> {
    "ffmpeg "@ + joined(args, " "@)
}

/// An `ffmpeg` invocation ready to run.
#[derive(Debug, PartialEq, Eq)]
pub struct LocalPlan {
    /// The arguments handed to `ffmpeg`.
    pub args: Vec<String>,
    /// The path that `ffmpeg` writes to, the last of the arguments.
    pub output: String,
}

/// View of a [`LocalPlan`].
pub struct LocalPlanView {
    pub args: Seq<Seq<char>>,
    pub output: Seq<char>,
}

impl View for LocalPlan {
    type V = LocalPlanView;

    open spec fn view(&self) -> LocalPlanView {
        LocalPlanView { args: texts(self.args@), output: self.output@ }
    }
}

/// The invocation that `request` stands for, where it has an output path.
pub open spec fn local_plan(request: ProcessRequestView) -> Option<LocalPlanView> {
    match output_path(request) {
        Some(output) => Some(LocalPlanView { args: ffmpeg_args(request, output), output }),
        None => None,
    }
}

/// Builds the default output path from the file name of the input.
pub fn default_output_name(name: &str, format: &Option<String>) -> (r: String)
    ensures
        r@ == default_output(name@, opt_text(*format)),
{
    let mut r = String::from_str("processed_");
    r.append(name);
    match format {
        Some(f) => {
            r.append(".");
            r.append(f.as_str());
        },
        None => {},
    }
    r
}

/// Builds the argument list for a request whose output path is `output`.
pub fn build_args(request: &ProcessRequest, output: &str) -> (r: Vec<String>)
    ensures
        texts(r@) == ffmpeg_args(request@, output@),
{
    let mut r: Vec<String> = Vec::new();
    r.push(String::from_str("-i"));
    r.push(request.input.clone());
    match &request.resolution {
        Some(res) => {
            r.push(String::from_str("-s"));
            r.push(res.clone());
        },
        None => {},
    }
    match &request.bitrate {
        Some(br) => {
            r.push(String::from_str("-b:v"));
            r.push(br.clone());
        },
        None => {},
    }
    r.push(String::from_str(output));
    assert(texts(r@) =~= ffmpeg_args(request@, output@));
    r
}

/// Plans the local run of `request`. There is no plan exactly where the
/// request names no output and its input has no file name to derive one
/// from.
pub fn plan(request: &ProcessRequest) -> (r: Option<LocalPlan>)
    ensures
        match r {
            Some(p) => local_plan(request@) == Some(p@),
            None => local_plan(request@) is None,
        },
{
    let output = match &request.output {
        Some(o) => o.clone(),
        None => match file_name(request.input.as_str()) {
            Some(name) => default_output_name(name.as_str(), &request.format),
            None => {
                return None;
            },
        },
    };
    let args = build_args(request, output.as_str());
    Some(LocalPlan { args, output })
}

impl LocalPlan {
    /// The command line of this invocation, as shown to the user.
    pub fn command(&self) -> (r: String)
        ensures
            r@ == command_line(self@.args),
    {
        let mut r = String::from_str("ffmpeg ");
        let tail = join(&self.args, " ");
        r.append(tail.as_str());
        r
    }

    /// The argument list of this invocation in `std`'s debug notation.
    pub fn args_debug(&self) -> (r: String)
        ensures
            r@ == debug_text(self@.args),
    {
        debug_list(&self.args)
    }
}

/// A request that gives nothing but its input.
pub open spec fn input_only(input: Seq<char>) -> ProcessRequestView {
    ProcessRequestView {
        input,
        output: None,
        resolution: None,
        bitrate: None,
        format: None,
        dry_run: false,
    }
}

/// A request that gives nothing but its input runs as
/// `ffmpeg -i <input> processed_<file name of the input>`; where the input
/// has no file name there is no command for it.
pub proof fn input_only_command(input: Seq<char>)
    ensures
        match path_file_name(input) {
            Some(name) => local_plan(input_only(input)) matches Some(p) && command_line(p.args)
                == "ffmpeg -i "@ + input + " processed_"@ + name,
            None => local_plan(input_only(input)) is None,
        },
{
    reveal_strlit("ffmpeg ");
    reveal_strlit("-i");
    reveal_strlit(" ");
    reveal_strlit("processed_");
    reveal_strlit("ffmpeg -i ");
    reveal_strlit(" processed_");
    match path_file_name(input) {
        Some(name) => {
            let output = "processed_"@ + name;
            let args = seq!["-i"@, input, output];
            assert(ffmpeg_args(input_only(input), output) =~= args);
            assert(args.drop_last() =~= seq!["-i"@, input]);
            assert(args.drop_last().drop_last() =~= seq!["-i"@]);
            reveal_with_fuel(joined, 3);
            assert(joined(args, " "@) == "-i"@ + " "@ + input + " "@ + output);
            assert(command_line(args) =~= "ffmpeg -i "@ + input + " processed_"@ + name);
        },
        None => {},
    }
}

/// With a resolution and a bitrate the arguments are, in this order: `-i`
/// and the input, `-s` and the resolution, `-b:v` and the bitrate, and the
/// output path. They are the arguments of the local run wherever the request
/// has an output path.
pub proof fn full_argument_list(request: ProcessRequestView, output: Seq<char>)
    requires
        request.resolution is Some,
        request.bitrate is Some,
    ensures
        ffmpeg_args(request, output) == seq![
            "-i"@,
            request.input,
            "-s"@,
            request.resolution->0,
            "-b:v"@,
            request.bitrate->0,
            output,
        ],
        output_path(request) == Some(output) ==> local_plan(request) == Some(
            LocalPlanView { args: ffmpeg_args(request, output), output },
        ),
{
    assert(ffmpeg_args(request, output) =~= seq![
        "-i"@,
        request.input,
        "-s"@,
        request.resolution->0,
        "-b:v"@,
        request.bitrate->0,
        output,
    ]);
}

} // verus!
