//! The process bridge: builds the command line for the external generation
//! script and maps each possible outcome of a run to a filename or a typed
//! error.

use vstd::prelude::*;
use vstd::string::StringExecFns;
use vstd::utf8::decode_utf8;
use vstd::utf8::valid_utf8;

use crate::decode::lossy_decode;
use crate::decode::utf8_to_string;
use crate::decode::utf8_to_string_lossy;
use crate::text::trim;
use crate::text::trim_spec;

verus! {

/// Which generation the external script is asked to perform.
#[derive(Clone, Copy, PartialEq, Eq, Structural)]
pub enum Selector {
    Image,
    Audio,
}

impl Selector {
    /// The word handed to the script for this selector.
    pub open spec fn name_spec(self) -> Seq<char> {
        match self {
            Selector::Image => "image"@,
            Selector::Audio => "audio"@,
        }
    }

    /// The word handed to the script for this selector.
    pub fn name(&self) -> (r: &'static str)
        ensures
            r@ == self.name_spec(),
    {
        match self {
            Selector::Image => "image",
            Selector::Audio => "audio",
        }
    }
}

/// One generation request: a selector and its ordered string arguments,
/// passed to the script verbatim.
pub struct GenRequest {
    pub selector: Selector,
    pub args: Vec<String>,
}

/// The request the image command makes: one prompt argument.
pub fn image_request(prompt: String) -> (r: GenRequest)
    ensures
        r.selector is Image,
        r.args@.len() == 1,
        r.args@[0] == prompt,
{
    GenRequest { selector: Selector::Image, args: vec![prompt] }
}

/// The request the audio command makes: text, speaker and language, in
/// that order.
pub fn audio_request(text: String, speaker: String, language: String) -> (r: GenRequest)
    ensures
        r.selector is Audio,
        r.args@.len() == 3,
        r.args@[0] == text,
        r.args@[1] == speaker,
        r.args@[2] == language,
{
    GenRequest { selector: Selector::Audio, args: vec![text, speaker, language] }
}

/// The full command line for a request: the interpreter, the script path,
/// the selector word, then the arguments, in that order.
pub fn command_argv(req: &GenRequest) -> (r: Vec<String>)
    ensures
        r@.len() == 3 + req.args@.len(),
        r@[0]@ == "python3"@,
        r@[1]@ == "inference.py"@,
        r@[2]@ == req.selector.name_spec(),
        forall|i: int| 0 <= i < req.args@.len() ==> r@[3 + i] == req.args@[i],
{
    let mut r: Vec<String> = Vec::new();
    r.push(String::from_str("python3"));
    r.push(String::from_str("inference.py"));
    r.push(String::from_str(req.selector.name()));
    let mut i: usize = 0;
    while i < req.args.len()
        invariant
            0 <= i <= req.args@.len(),
            r@.len() == 3 + i,
            r@[0]@ == "python3"@,
            r@[1]@ == "inference.py"@,
            r@[2]@ == req.selector.name_spec(),
            forall|k: int| 0 <= k < i ==> r@[3 + k] == req.args@[k],
        decreases req.args@.len() - i,
    {
        r.push(req.args[i].clone());
        i = i + 1;
    }
    r
}

/// Why a generation call failed.
#[derive(Debug, PartialEq, Eq)]
pub enum GenError {
    /// The script process could not be spawned; holds the OS error text.
    Spawn(String),
    /// The script exited with a non-success status; holds its diagnostic
    /// stream, decoded leniently.
    Script(String),
    /// The script's output stream was not valid text.
    Decode,
    /// The script's output was empty after trimming.
    Empty,
    /// The background execution unit did not complete; holds its error
    /// text.
    Join(String),
}

impl GenError {
    /// The user-visible message for this error.
    pub open spec fn message_spec(self) -> Seq<char> {
        match self {
            GenError::Spawn(os) => "Failed to execute Python script: "@ + os@,
            GenError::Script(diag) => "Python script failed: "@ + diag@,
            GenError::Decode => "Failed to parse output from Python script"@,
            GenError::Empty => "No filename returned from Python script"@,
            GenError::Join(e) => "Thread join error: "@ + e@,
        }
    }

    /// Renders the user-visible message for this error.
    pub fn message(&self) -> (r: String)
        ensures
            r@ == self.message_spec(),
    {
        match self {
            GenError::Spawn(os) => {
                let mut m: String = String::from_str("Failed to execute Python script: ");
                m.append(os.as_str());
                m
            },
            GenError::Script(diag) => {
                let mut m: String = String::from_str("Python script failed: ");
                m.append(diag.as_str());
                m
            },
            GenError::Decode => String::from_str("Failed to parse output from Python script"),
            GenError::Empty => String::from_str("No filename returned from Python script"),
            GenError::Join(e) => {
                let mut m: String = String::from_str("Thread join error: ");
                m.append(e.as_str());
                m
            },
        }
    }
}

/// What one run of the external process produced: its exit status and its
/// two captured streams.
pub struct RunOutput {
    pub success: bool,
    pub stdout: Vec<u8>,
    pub stderr: Vec<u8>,
}

/// Maps a finished process to the bridge's result.  A non-success exit
/// yields the script-failure error carrying the diagnostic stream; output
/// that is not valid text yields the decode-failure error; output that
/// trims to nothing yields the empty-output error; otherwise the trimmed
/// output is the filename.
pub fn interpret_output(out: RunOutput) -> (r: Result<String, GenError>)
    ensures
        !out.success ==> (r matches Err(e) && e matches GenError::Script(d) && d@ == lossy_decode(
            out.stderr@,
        )),
        out.success && !valid_utf8(out.stdout@) ==> (r matches Err(e) && e is Decode),
        out.success && valid_utf8(out.stdout@) && trim_spec(decode_utf8(out.stdout@)).len() == 0
            ==> (r matches Err(e) && e is Empty),
        out.success && valid_utf8(out.stdout@) && trim_spec(decode_utf8(out.stdout@)).len() > 0
            ==> (r matches Ok(f) && f@ == trim_spec(decode_utf8(out.stdout@))),
{
    if !out.success {
        let diag = utf8_to_string_lossy(&out.stderr);
        return Err(GenError::Script(diag));
    }
    let decoded = match utf8_to_string(out.stdout) {
        Some(s) => s,
        None => {
            return Err(GenError::Decode);
        },
    };
    let trimmed = trim(decoded.as_str());
    if trimmed.is_empty() {
        Err(GenError::Empty)
    } else {
        Ok(trimmed.to_owned())
    }
}

/// Maps a whole spawn attempt to the bridge's result: a spawn error
/// becomes the spawn-failure error carrying the OS error text; a finished
/// process is interpreted as `interpret_output` does.
pub fn run_result(spawned: Result<RunOutput, String>) -> (r: Result<String, GenError>)
    ensures
        spawned matches Err(os) ==> (r matches Err(e) && e matches GenError::Spawn(m) && m == os),
        spawned matches Ok(out) ==> (!out.success ==> (r matches Err(e) && e matches
            GenError::Script(d) && d@ == lossy_decode(out.stderr@))),
        spawned matches Ok(out) ==> (out.success && !valid_utf8(out.stdout@) ==> (r matches Err(e)
            && e is Decode)),
        spawned matches Ok(out) ==> (out.success && valid_utf8(out.stdout@) && trim_spec(
            decode_utf8(out.stdout@),
        ).len() == 0 ==> (r matches Err(e) && e is Empty)),
        spawned matches Ok(out) ==> (out.success && valid_utf8(out.stdout@) && trim_spec(
            decode_utf8(out.stdout@),
        ).len() > 0 ==> (r matches Ok(f) && f@ == trim_spec(decode_utf8(out.stdout@)))),
{
    match spawned {
        Ok(out) => interpret_output(out),
        Err(os) => Err(GenError::Spawn(os)),
    }
}

/// Resolves the background execution unit's outcome: a failure to complete
/// becomes the execution-failure error carrying its text; otherwise the
/// inner result stands unchanged.
pub fn resolve_join(joined: Result<Result<String, GenError>, String>) -> (r: Result<
    String,
    GenError,
>)
    ensures
        joined matches Ok(inner) ==> r == inner,
        joined matches Err(m) ==> (r matches Err(e) && e matches GenError::Join(j) && j == m),
{
    match joined {
        Ok(inner) => inner,
        Err(m) => Err(GenError::Join(m)),
    }
}

/// Converts a bridge result to the form handed back at the command
/// boundary: the filename, or the error rendered as its message.
pub fn to_user_result(r: Result<String, GenError>) -> (u: Result<String, String>)
    ensures
        r matches Ok(f) ==> (u matches Ok(g) && g == f),
        r matches Err(e) ==> (u matches Err(m) && m@ == e.message_spec()),
{
    match r {
        Ok(f) => Ok(f),
        Err(e) => Err(e.message()),
    }
}

/// A script failure's message carries the captured diagnostic verbatim:
/// the diagnostic is a suffix of the message, after a fixed prefix.
pub proof fn lemma_script_message_holds_diagnostic(diag: String)
    ensures
        ({
            let m = GenError::Script(diag).message_spec();
            let p = "Python script failed: "@;
            m.len() == p.len() + diag@.len() && m.subrange(p.len() as int, m.len() as int) == diag@
                && m.subrange(0, p.len() as int) == p
        }),
{
    let m = GenError::Script(diag).message_spec();
    let p = "Python script failed: "@;
    assert(m.subrange(p.len() as int, m.len() as int) =~= diag@);
    assert(m.subrange(0, p.len() as int) =~= p);
}

} // verus!
