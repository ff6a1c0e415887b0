//! Compilers and the questions that a script asks them.
//!
//! Every question is answered by a probe: a piece of source is written to
//! a file in a fresh temporary directory, the compiler is run on it, and
//! the answer is read from the exit code or from what the compiler wrote.
//! The system does the writing and the running; what is asked of it and
//! what is made of its answer is decided here.

use vstd::prelude::*;
use vstd::string::StrSliceExecFns;
use crate::assoc::lookup;
use crate::interpreter::builtins::args::{kwarg, bool_kwarg, take_bool_kwarg};
use crate::interpreter::builtins::option::BuildOption;
use crate::interpreter::builtins::string::{first_string, take_first_string};
use crate::interpreter::builtins::utils::{
    flat, flatten, all_strings, strings_of, string_values,
};
use crate::interpreter::builtins::option::values_of_strings;
use crate::interpreter::error::{
    InterpreterError, ErrorView, ErrorContext, type_error, runtime_error, same_result, caused,
    system_failed, error_text,
};
use crate::interpreter::objects::{Compiler, string_views};
use crate::interpreter::state::Interpreter;
use crate::interpreter::value::{Value, ValueView, value_views, pair_views};
use crate::os::{Os, CompilerInfo, TryCompileOutput, RunCommandOutput};
use crate::path::Path;
use crate::steps::BuildSteps;
use crate::text::{
    chars_of, string_of, slice_chars, concat, concat3, str_eq, occurs_at, matches_at, trim_chars,
    trimmed,
};

verus! {

/// The mark behind which a probe finds its answer in what the
/// preprocessor wrote.
pub fn delimiter() -> (r: &'static str)
    ensures
        r@ == "\"MESON_DELIMITER\""@,
{
    "\"MESON_DELIMITER\""
}

/// The source that makes the preprocessor name the family of the compiler
/// behind the mark.
pub open spec fn family_probe() -> Seq<char> {
    "\"MESON_DELIMITER\"\n#if defined(__clang__)\nclang\n#elif defined(__GNUC__)\ngcc\n#elif defined(_MSC_VER)\nmsvc\n#else\nunknown\n#endif\n"@
}

/// The source of the probe for the family of the compiler.
pub fn compiler_id_source() -> (r: &'static str)
    ensures
        r@ == family_probe(),
{
    "\"MESON_DELIMITER\"\n#if defined(__clang__)\nclang\n#elif defined(__GNUC__)\ngcc\n#elif defined(_MSC_VER)\nmsvc\n#else\nunknown\n#endif\n"
}

/// The source that makes the preprocessor write the prefix of symbols
/// behind the mark.
pub open spec fn prefix_probe() -> Seq<char> {
    "#ifndef __USER_LABEL_PREFIX__\n#define __USER_LABEL_PREFIX__\n#endif\n\"MESON_DELIMITER\"__USER_LABEL_PREFIX__\n"@
}

/// The source of the probe for the prefix of symbols.
pub fn underscore_prefix_source() -> (r: &'static str)
    ensures
        r@ == prefix_probe(),
{
    "#ifndef __USER_LABEL_PREFIX__\n#define __USER_LABEL_PREFIX__\n#endif\n\"MESON_DELIMITER\"__USER_LABEL_PREFIX__\n"
}

/// The text that `String::from_utf8_lossy` of std makes of bytes: the text
/// they encode, with the replacement character for what is no UTF-8.
pub uninterp spec fn lossy_text(bytes: Seq<u8>) -> Seq<char>;

/// `String::from_utf8_lossy` of std: the bytes as text, with the
/// replacement character in the place of invalid sequences.
#[verifier::external_body]
fn decode_lossy(bytes: &Vec<u8>) -> (r: String)
    ensures
        r@ == lossy_text(bytes@),
{
    String::from_utf8_lossy(bytes).into_owned()
}

/// The greatest index up to `at` at which `needle` stands in `hay`.
pub open spec fn last_occurrence(hay: Seq<char>, needle: Seq<char>, at: int) -> Option<int>
    decreases at + 1,
{
    if at < 0 {
        None
    } else if occurs_at(hay, needle, at) {
        Some(at)
    } else {
        last_occurrence(hay, needle, at - 1)
    }
}

/// What stands in `output` behind the last mark, without the white space
/// at its ends; `None` where `output` holds no mark.
pub open spec fn answer_behind(output: Seq<char>, mark: Seq<char>) -> Option<Seq<char>> {
    match last_occurrence(output, mark, output.len() - mark.len()) {
        Some(at) => if 0 <= at && at + mark.len() <= output.len() {
            Some(trimmed(output.subrange(at + mark.len(), output.len() as int)))
        } else {
            None
        },
        None => None,
    }
}

/// Finds what stands in `output` behind the last mark.
pub fn find_answer(output: &str, mark: &str) -> (r: Option<String>)
    ensures
        match r {
            Some(s) => answer_behind(output@, mark@) == Some(s@),
            None => answer_behind(output@, mark@) is None,
        },
{
    let hay = chars_of(output);
    let needle = chars_of(mark);
    if needle.len() > hay.len() {
        return None;
    }
    let top: usize = hay.len() - needle.len();
    let mut at: usize = top;
    loop
        invariant
            at <= top,
            top == hay.len() - needle.len(),
            hay@ == output@,
            needle@ == mark@,
            last_occurrence(hay@, needle@, top as int) == last_occurrence(
                hay@,
                needle@,
                at as int,
            ),
        decreases at,
    {
        if matches_at(&hay, &needle, at) {
            let rest = slice_chars(&hay, at + needle.len(), hay.len());
            return Some(string_of(&trim_chars(&rest, false)));
        }
        if at == 0 {
            assert(last_occurrence(hay@, needle@, -1) is None);
            return None;
        }
        at -= 1;
    }
}

/// What `c.get_id()` makes of what the preprocessor wrote: the family
/// named behind the mark, or a runtime error where there is no mark or
/// nothing behind it.
pub open spec fn family_result(output: Seq<char>) -> Result<ValueView, ErrorView> {
    match answer_behind(output, "\"MESON_DELIMITER\""@) {
        Some(family) => if family.len() > 0 {
            Ok(ValueView::String(family))
        } else {
            Err(ErrorView::RuntimeError("Failed to detect compiler family"@))
        },
        None => Err(ErrorView::RuntimeError("Failed to detect compiler family"@)),
    }
}

/// Reads the family of the compiler from what the preprocessor wrote.
pub fn family_answer(output: &str) -> (r: Result<Value, InterpreterError>)
    ensures
        same_result(r, family_result(output@)),
{
    match find_answer(output, delimiter()) {
        Some(family) => {
            if family.as_str().unicode_len() > 0 {
                Ok(Value::String(family))
            } else {
                Err(runtime_error("Failed to detect compiler family"))
            }
        },
        None => Err(runtime_error("Failed to detect compiler family")),
    }
}

/// What `c.symbols_have_underscore_prefix()` makes of what the
/// preprocessor wrote: true for an underscore behind the mark, false for
/// nothing behind it, and a runtime error for anything else or where
/// there is no mark.
pub open spec fn prefix_result(output: Seq<char>) -> Result<ValueView, ErrorView> {
    match answer_behind(output, "\"MESON_DELIMITER\""@) {
        Some(prefix) => if prefix == "_"@ {
            Ok(ValueView::Boolean(true))
        } else if prefix.len() == 0 {
            Ok(ValueView::Boolean(false))
        } else {
            Err(ErrorView::RuntimeError("Found unexpected underscore prefix "@ + prefix))
        },
        None => Err(ErrorView::RuntimeError("Failed to find underscore prefix, "@ + output)),
    }
}

/// Reads the prefix of symbols from what the preprocessor wrote.
pub fn prefix_answer(output: &str) -> (r: Result<Value, InterpreterError>)
    ensures
        same_result(r, prefix_result(output@)),
{
    match find_answer(output, delimiter()) {
        Some(prefix) => {
            if str_eq(prefix.as_str(), "_") {
                Ok(Value::Boolean(true))
            } else if prefix.as_str().unicode_len() == 0 {
                proof {
                    reveal_strlit("_");
                }
                Ok(Value::Boolean(false))
            } else {
                Err(
                    InterpreterError::RuntimeError(
                        concat("Found unexpected underscore prefix ", prefix.as_str()),
                    ),
                )
            }
        },
        None => Err(
            InterpreterError::RuntimeError(concat("Failed to find underscore prefix, ", output)),
        ),
    }
}

/// What `c.has_argument(arg, required: ...)` makes of the outcome of the
/// probe: whether the compiler took the argument, or a runtime error that
/// names the argument where it is required and was not taken.
pub open spec fn has_argument_result(argument: Seq<char>, required: bool, supported: bool) -> Result<
    ValueView,
    ErrorView,
> {
    if supported || !required {
        Ok(ValueView::Boolean(supported))
    } else {
        Err(ErrorView::RuntimeError("Compiler does not support argument: "@ + argument))
    }
}

/// Decides what `has_argument` gives.
pub fn has_argument_answer(argument: &str, required: bool, supported: bool) -> (r: Result<
    Value,
    InterpreterError,
>)
    ensures
        same_result(r, has_argument_result(argument@, required, supported)),
{
    if supported || !required {
        Ok(Value::Boolean(supported))
    } else {
        Err(
            InterpreterError::RuntimeError(
                concat("Compiler does not support argument: ", argument),
            ),
        )
    }
}

/// The argument and whether it is required, as `c.has_argument(arg,
/// required: ...)` names them.
pub open spec fn wanted_argument(
    args: Seq<ValueView>,
    kwargs: Seq<(Seq<char>, ValueView)>,
) -> Result<(Seq<char>, bool), ErrorView> {
    match first_string(args, "has_argument requires a string argument"@) {
        Err(e) => Err(e),
        Ok(argument) => match bool_kwarg(
            kwargs,
            "required"@,
            "The 'required' keyword argument must be a boolean"@,
        ) {
            Err(e) => Err(e),
            Ok(Some(b)) => Ok((argument, b)),
            Ok(None) => Ok((argument, false)),
        },
    }
}

/// The arguments that `args:` adds to a probe: the strings of the array,
/// flattened; none where it is not given.
pub open spec fn extra_args(kwargs: Seq<(Seq<char>, ValueView)>) -> Result<
    Seq<Seq<char>>,
    ErrorView,
> {
    match lookup(kwargs, "args"@) {
        None => Ok(Seq::empty()),
        Some(ValueView::Array(items)) => match all_strings(flat(items)) {
            Some(texts) => Ok(texts),
            None => Err(
                ErrorView::TypeError("The 'args' keyword argument must be an array of strings"@),
            ),
        },
        Some(_) => Err(
            ErrorView::TypeError("The 'args' keyword argument must be an array of strings"@),
        ),
    }
}

/// Reads the arguments that `args:` adds to a probe.
pub fn get_extra_args(kwargs: &Vec<(String, Value)>) -> (r: Result<Vec<String>, InterpreterError>)
    ensures
        match r {
            Ok(a) => extra_args(pair_views(kwargs@)) == Ok::<Seq<Seq<char>>, ErrorView>(
                string_views(a@),
            ),
            Err(e) => extra_args(pair_views(kwargs@)) == Err::<Seq<Seq<char>>, ErrorView>(e@),
        },
{
    match kwarg(kwargs, "args") {
        None => {
            let out: Vec<String> = Vec::new();
            assert(string_views(out@) =~= Seq::<Seq<char>>::empty());
            Ok(out)
        },
        Some(v) => match v {
            Value::Array(items) => strings_of(
                &flatten(items),
                "The 'args' keyword argument must be an array of strings",
            ),
            _ => Err(type_error("The 'args' keyword argument must be an array of strings")),
        },
    }
}

/// The name of the file that holds the source of a probe in the language
/// `lang`.
pub open spec fn source_name(lang: Seq<char>) -> Result<Seq<char>, ErrorView> {
    if lang == "c"@ {
        Ok("input.c"@)
    } else if lang == "cpp"@ {
        Ok("input.cpp"@)
    } else {
        Err(ErrorView::RuntimeError("Unsupported language: "@ + lang))
    }
}

/// Picks the name of the file that holds the source of a probe.
pub fn source_name_for(lang: &str) -> (r: Result<&'static str, InterpreterError>)
    ensures
        match r {
            Ok(n) => source_name(lang@) == Ok::<Seq<char>, ErrorView>(n@),
            Err(e) => source_name(lang@) == Err::<Seq<char>, ErrorView>(e@),
        },
{
    if str_eq(lang, "c") {
        Ok("input.c")
    } else if str_eq(lang, "cpp") {
        Ok("input.cpp")
    } else {
        Err(InterpreterError::RuntimeError(concat("Unsupported language: ", lang)))
    }
}

/// The arguments with which a probe runs the compiler: those of the
/// project, those of the probe, those that the script adds, the flags of
/// the compiler, the source, `-o` and the output.
pub open spec fn probe_command(
    project: Seq<Seq<char>>,
    probe: Seq<Seq<char>>,
    extra: Seq<Seq<char>>,
    flags: Seq<Seq<char>>,
    input: Seq<char>,
    output: Seq<char>,
) -> Seq<Seq<char>> {
    project + probe + extra + flags + seq![input, "-o"@, output]
}

/// Appends copies of the strings of `more` to `out`.
fn append_strings(out: &mut Vec<String>, more: &Vec<String>)
    ensures
        string_views(final(out)@) == string_views(old(out)@) + string_views(more@),
{
    let ghost start = string_views(out@);
    let mut i: usize = 0;
    assert(string_views(more@).take(0) =~= Seq::<Seq<char>>::empty());
    assert(start + string_views(more@).take(0) =~= start);
    while i < more.len()
        invariant
            i <= more.len(),
            string_views(out@) == start + string_views(more@).take(i as int),
        decreases more.len() - i,
    {
        let ghost before = string_views(out@);
        out.push(more[i].clone());
        assert(string_views(out@) =~= before.push(more@[i as int]@));
        assert(string_views(out@) =~= start + string_views(more@).take(i as int + 1));
        i += 1;
    }
    assert(string_views(more@).take(more.len() as int) =~= string_views(more@));
}

/// Makes the arguments with which a probe runs the compiler.
pub fn make_probe_command(
    project: &Vec<String>,
    probe: &Vec<String>,
    extra: &Vec<String>,
    flags: &Vec<String>,
    input: &Path,
    output: &Path,
) -> (r: Vec<String>)
    ensures
        string_views(r@) == probe_command(
            string_views(project@),
            string_views(probe@),
            string_views(extra@),
            string_views(flags@),
            input@,
            output@,
        ),
{
    let mut out: Vec<String> = Vec::new();
    assert(string_views(out@) =~= Seq::<Seq<char>>::empty());
    append_strings(&mut out, project);
    append_strings(&mut out, probe);
    append_strings(&mut out, extra);
    append_strings(&mut out, flags);
    let ghost before = string_views(out@);
    out.push(input.to_string());
    out.push(String::from_str("-o"));
    out.push(output.to_string());
    assert(string_views(out@) =~= before + seq![input@, "-o"@, output@]);
    assert(before =~= string_views(project@) + string_views(probe@) + string_views(extra@)
        + string_views(flags@));
    out
}

/// The messages with which a probe can fail before it has an outcome: a
/// step that the system failed, with its cause, or a language that has no
/// name for its source.
pub open spec fn probe_failure(e: ErrorView, lang: Seq<char>) -> bool {
    ||| system_failed(e, "Failed to create temporary directory"@)
    ||| e == ErrorView::RuntimeError("Unsupported language: "@ + lang)
    ||| system_failed(e, "Failed to write temporary source file"@)
    ||| system_failed(e, "Failed to run compiler"@)
}

/// The outcome of a probe, from what the compiler left: it succeeded where
/// its exit code is 0; the artifact is what it wrote, nothing where the
/// output could not be read.
pub fn probe_outcome(run: RunCommandOutput, artifact: Result<Vec<u8>, String>) -> (r:
    TryCompileOutput)
    ensures
        r.success == (run.returncode == 0),
        r.artifact@ == match artifact {
            Ok(bytes) => bytes@,
            Err(_) => Seq::<u8>::empty(),
        },
{
    TryCompileOutput {
        success: run.returncode == 0,
        artifact: match artifact {
            Ok(bytes) => bytes,
            Err(_) => Vec::new(),
        },
    }
}

/// One string as a row.
fn one(s: &str) -> (r: Vec<String>)
    ensures
        string_views(r@) == seq![s@],
{
    let mut out: Vec<String> = Vec::new();
    out.push(String::from_str(s));
    assert(string_views(out@) =~= seq![s@]);
    out
}

/// No strings.
fn none() -> (r: Vec<String>)
    ensures
        string_views(r@) == Seq::<Seq<char>>::empty(),
{
    let out: Vec<String> = Vec::new();
    assert(string_views(out@) =~= Seq::<Seq<char>>::empty());
    out
}

/// What a probe hands to the compiler.
pub struct Probe {
    /// The arguments of the probe itself: what makes the compiler stop
    /// behind the preprocessor or behind the compilation.
    pub args: Vec<String>,
    /// The arguments that the script adds.
    pub extra: Vec<String>,
    /// The source that is compiled.
    pub code: String,
}

/// A probe as a mathematical value.
pub struct ProbeView {
    pub args: Seq<Seq<char>>,
    pub extra: Seq<Seq<char>>,
    pub code: Seq<char>,
}

impl View for Probe {
    type V = ProbeView;

    open spec fn view(&self) -> ProbeView {
        ProbeView {
            args: string_views(self.args@),
            extra: string_views(self.extra@),
            code: self.code@,
        }
    }
}

/// The source of a program that does nothing.
pub open spec fn empty_program() -> Seq<char> {
    "int main() { return 0; }"@
}

/// The source of the probe for the function `function`: a program that
/// takes the address of the function, so that it does not compile and
/// link where the function is not known.
pub open spec fn function_probe(function: Seq<char>) -> Seq<char> {
    "int main() { void *p = (void*)("@ + function + "); return 0; }"@
}

/// The probe of `get_id()`: the source that names the family is
/// preprocessed and no more.
pub open spec fn id_probe() -> ProbeView {
    ProbeView { args: seq!["-E"@], extra: Seq::empty(), code: family_probe() }
}

/// The probe of `symbols_have_underscore_prefix()`: the source that
/// writes the prefix is preprocessed and no more.
pub open spec fn underscore_probe() -> ProbeView {
    ProbeView { args: seq!["-E"@], extra: Seq::empty(), code: prefix_probe() }
}

/// The probe of `has_argument(arg)` and of each candidate of
/// `get_supported_arguments()`: an empty source is compiled, not linked,
/// with the argument.
pub open spec fn argument_probe(argument: Seq<char>) -> ProbeView {
    ProbeView { args: seq!["-c"@], extra: seq![argument], code: Seq::empty() }
}

/// The probe of `has_function(name, args: ...)`: the program that takes
/// the address of the function is compiled and linked, with the
/// arguments that the script adds.
pub open spec fn function_check(function: Seq<char>, extra: Seq<Seq<char>>) -> ProbeView {
    ProbeView { args: Seq::empty(), extra, code: function_probe(function) }
}

/// The probe of `has_link_argument(arg)` and of
/// `has_multi_link_arguments(args...)`: a program that does nothing is
/// compiled and linked with the arguments, so that the linker sees them.
pub open spec fn link_probe(arguments: Seq<Seq<char>>) -> ProbeView {
    ProbeView { args: Seq::empty(), extra: arguments, code: empty_program() }
}

/// The probe of `compiles(code, args: ...)`: the code is compiled, not
/// linked.
pub open spec fn compile_probe(code: Seq<char>, extra: Seq<Seq<char>>) -> ProbeView {
    ProbeView { args: seq!["-c"@], extra, code }
}

/// The probe of `links(code, args: ...)`: the code is compiled and
/// linked.
pub open spec fn link_check(code: Seq<char>, extra: Seq<Seq<char>>) -> ProbeView {
    ProbeView { args: Seq::empty(), extra, code }
}

/// Makes the probe of `get_id()`.
pub fn plan_id_probe() -> (r: Probe)
    ensures
        r@ == id_probe(),
{
    Probe { args: one("-E"), extra: none(), code: String::from_str(compiler_id_source()) }
}

/// Makes the probe of `symbols_have_underscore_prefix()`.
pub fn plan_underscore_probe() -> (r: Probe)
    ensures
        r@ == underscore_probe(),
{
    Probe { args: one("-E"), extra: none(), code: String::from_str(underscore_prefix_source()) }
}

/// Makes the probe for one argument of the compiler.
pub fn plan_argument_probe(argument: &str) -> (r: Probe)
    ensures
        r@ == argument_probe(argument@),
{
    proof {
        reveal_strlit("");
    }
    let code = String::from_str("");
    assert(code@ =~= Seq::<char>::empty());
    Probe { args: one("-c"), extra: one(argument), code }
}

/// Makes the probe of `has_function()`.
pub fn plan_function_check(function: &str, extra: Vec<String>) -> (r: Probe)
    ensures
        r@ == function_check(function@, string_views(extra@)),
{
    Probe {
        args: none(),
        extra,
        code: concat3("int main() { void *p = (void*)(", function, "); return 0; }"),
    }
}

/// Makes the probe for arguments of the linker.
pub fn plan_link_probe(arguments: Vec<String>) -> (r: Probe)
    ensures
        r@ == link_probe(string_views(arguments@)),
{
    Probe { args: none(), extra: arguments, code: String::from_str("int main() { return 0; }") }
}

/// Makes the probe of `compiles()`.
pub fn plan_compile_probe(code: &str, extra: Vec<String>) -> (r: Probe)
    ensures
        r@ == compile_probe(code@, string_views(extra@)),
{
    Probe { args: one("-c"), extra, code: String::from_str(code) }
}

/// Makes the probe of `links()`.
pub fn plan_link_check(code: &str, extra: Vec<String>) -> (r: Probe)
    ensures
        r@ == link_check(code@, string_views(extra@)),
{
    Probe { args: none(), extra, code: String::from_str(code) }
}

/// What a probe gives that answers with the success of the compiler: a
/// boolean, or the failure of the probe.
pub open spec fn probed(lang: Seq<char>, r: Result<Value, InterpreterError>) -> bool {
    match r {
        Ok(v) => v@ is Boolean,
        Err(e) => probe_failure(e@, lang),
    }
}

/// What `c.get_id()` gives, whatever the compiler writes: the failure of
/// the probe, or what `family_result` makes of what it wrote.
pub open spec fn id_asked(lang: Seq<char>, r: Result<Value, InterpreterError>) -> bool {
    (r matches Err(e) && probe_failure(e@, lang)) || exists|output: Seq<char>|
        same_result(r, #[trigger] family_result(output))
}

/// What `c.symbols_have_underscore_prefix()` gives, whatever the compiler
/// writes: the failure of the probe, or what `prefix_result` makes of
/// what it wrote.
pub open spec fn prefix_asked(lang: Seq<char>, r: Result<Value, InterpreterError>) -> bool {
    (r matches Err(e) && probe_failure(e@, lang)) || exists|output: Seq<char>|
        same_result(r, #[trigger] prefix_result(output))
}

/// What `c.has_argument(arg, required: ...)` gives, whatever the compiler
/// does: the error of the arguments; else the failure of the probe, or
/// what `has_argument_result` tells for an argument that was taken or for
/// one that was not.
pub open spec fn argument_asked(
    lang: Seq<char>,
    args: Seq<ValueView>,
    kwargs: Seq<(Seq<char>, ValueView)>,
    r: Result<Value, InterpreterError>,
) -> bool {
    match wanted_argument(args, kwargs) {
        Err(e) => r matches Err(f) && f@ == e,
        Ok(w) => (r matches Err(f) && probe_failure(f@, lang)) || same_result(
            r,
            has_argument_result(w.0, w.1, true),
        ) || same_result(r, has_argument_result(w.0, w.1, false)),
    }
}

/// What `c.get_supported_arguments(args...)` gives, whatever the compiler
/// does: a type error where an argument is no string; else some of the
/// arguments, in their order, or the failure of a probe.
pub open spec fn supported_asked(
    lang: Seq<char>,
    args: Seq<ValueView>,
    r: Result<Value, InterpreterError>,
) -> bool {
    match all_strings(flat(args)) {
        None => r matches Err(e) && e@ == ErrorView::TypeError(
            "Expected arguments to be strings"@,
        ),
        Some(_) => match r {
            Ok(v) => v@ matches ValueView::Array(taken) && picked_from(taken, flat(args)),
            Err(e) => probe_failure(e@, lang),
        },
    }
}

/// What a probe gives that takes a string and the arguments that `args:`
/// adds: the error of the arguments, in that order, or what `probed`
/// tells. The message `msg` is that for a first argument that is no
/// string.
pub open spec fn code_asked(
    lang: Seq<char>,
    msg: Seq<char>,
    args: Seq<ValueView>,
    kwargs: Seq<(Seq<char>, ValueView)>,
    r: Result<Value, InterpreterError>,
) -> bool {
    match first_string(args, msg) {
        Err(e) => r matches Err(f) && f@ == e,
        Ok(_) => match extra_args(kwargs) {
            Err(e) => r matches Err(f) && f@ == e,
            Ok(_) => probed(lang, r),
        },
    }
}

/// What `c.has_link_argument(arg)` gives, whatever the linker does.
pub open spec fn link_asked(
    lang: Seq<char>,
    args: Seq<ValueView>,
    r: Result<Value, InterpreterError>,
) -> bool {
    match first_string(args, "has_link_argument requires a string argument"@) {
        Err(e) => r matches Err(f) && f@ == e,
        Ok(_) => probed(lang, r),
    }
}

/// What `c.has_multi_link_arguments(args...)` gives, whatever the linker
/// does.
pub open spec fn multi_link_asked(
    lang: Seq<char>,
    args: Seq<ValueView>,
    r: Result<Value, InterpreterError>,
) -> bool {
    match all_strings(flat(args)) {
        None => r matches Err(e) && e@ == ErrorView::TypeError(
            "Expected arguments to be strings"@,
        ),
        Some(_) => probed(lang, r),
    }
}

/// What the method `method` of a compiler for the language `lang` gives
/// where it asks the compiler, whatever the compiler does. Of the other
/// methods nothing is said here.
pub open spec fn compiler_asked(
    lang: Seq<char>,
    method: Seq<char>,
    args: Seq<ValueView>,
    kwargs: Seq<(Seq<char>, ValueView)>,
    r: Result<Value, InterpreterError>,
) -> bool {
    if method == "get_linker_id"@ {
        true
    } else if method == "get_id"@ {
        id_asked(lang, r)
    } else if method == "cmd_array"@ {
        true
    } else if method == "has_argument"@ {
        argument_asked(lang, args, kwargs, r)
    } else if method == "get_supported_arguments"@ {
        supported_asked(lang, args, r)
    } else if method == "has_function"@ {
        code_asked(lang, "has_function requires a string argument"@, args, kwargs, r)
    } else if method == "has_link_argument"@ {
        link_asked(lang, args, r)
    } else if method == "has_multi_link_arguments"@ {
        multi_link_asked(lang, args, r)
    } else if method == "symbols_have_underscore_prefix"@ {
        prefix_asked(lang, r)
    } else if method == "compiles"@ {
        code_asked(lang, "compiles requires a string argument"@, args, kwargs, r)
    } else if method == "links"@ {
        code_asked(lang, "links requires a string argument"@, args, kwargs, r)
    } else {
        true
    }
}

impl Compiler {
    /// Runs a probe: writes `code` to a file in a fresh temporary
    /// directory and runs the compiler on it with the arguments of the
    /// project for C, `args`, `extra_args` and the flags of the compiler.
    /// The directory is gone when the probe returns.
    pub fn try_compile<O: Os, S: BuildSteps>(
        &self,
        args: &Vec<String>,
        extra_args: &Vec<String>,
        code: &str,
        interp: &Interpreter<O, S>,
    ) -> (r: Result<TryCompileOutput, InterpreterError>)
        ensures
            r matches Err(e) ==> probe_failure(e@, self.lang@),
            source_name(self.lang@) is Err ==> r is Err,
    {
        let project = interp.meson.arguments_for("c");
        let outdir = match interp.os.tempdir().context_runtime(
            "Failed to create temporary directory",
        ) {
            Ok(d) => d,
            Err(e) => return Err(e),
        };
        let out_path = outdir.path().join("output");
        let input_name = match source_name_for(self.lang.as_str()) {
            Ok(n) => n,
            Err(e) => return Err(e),
        };
        let input = outdir.path().join(input_name);
        match interp.os.write_file(&input, &code.as_bytes_vec()).context_runtime(
            "Failed to write temporary source file",
        ) {
            Ok(_) => {},
            Err(e) => return Err(e),
        }
        let command = make_probe_command(
            &project,
            args,
            extra_args,
            &self.flags,
            &input,
            &out_path,
        );
        let run = match interp.os.run_command(&self.command, &command).context_runtime(
            "Failed to run compiler",
        ) {
            Ok(r) => r,
            Err(e) => return Err(e),
        };
        let artifact = interp.os.read_file(&out_path);
        Ok(probe_outcome(run, artifact))
    }

    /// Runs the probe `probe`, as `try_compile` does.
    pub fn run_probe<O: Os, S: BuildSteps>(&self, probe: &Probe, interp: &Interpreter<O, S>) -> (r:
        Result<TryCompileOutput, InterpreterError>)
        ensures
            r matches Err(e) ==> probe_failure(e@, self.lang@),
            source_name(self.lang@) is Err ==> r is Err,
    {
        self.try_compile(&probe.args, &probe.extra, probe.code.as_str(), interp)
    }

    /// `c.get_id()`: the family of the compiler. The probe is the one
    /// that `plan_id_probe` makes.
    pub fn get_id<O: Os, S: BuildSteps>(&self, interp: &Interpreter<O, S>) -> (r: Result<
        Value,
        InterpreterError,
    >)
        ensures
            id_asked(self.lang@, r),
    {
        let result = match self.run_probe(&plan_id_probe(), interp) {
            Ok(r) => r,
            Err(e) => return Err(e),
        };
        let output = decode_lossy(&result.artifact);
        let r = family_answer(output.as_str());
        assert(same_result(r, family_result(output@)));
        r
    }

    /// `c.get_linker_id()`: the linker that the compiler uses.
    pub fn get_linker_id(&self) -> (r: Value)
        ensures
            r@ == ValueView::String("ld.lld"@),
    {
        Value::string("ld.lld")
    }

    /// `c.cmd_array()`: the command of the compiler and its flags.
    pub fn cmd_array(&self) -> (r: Value)
        ensures
            r@ == ValueView::Array(
                string_values(seq![self.command@] + string_views(self.flags@)),
            ),
    {
        let mut argv = one(self.command.as_str());
        append_strings(&mut argv, &self.flags);
        Value::Array(values_of_strings(&argv))
    }

    /// `c.has_argument(arg, required: ...)`: whether the compiler takes
    /// the argument. The probe is the one that `plan_argument_probe`
    /// makes for the argument.
    pub fn has_argument<O: Os, S: BuildSteps>(
        &self,
        args: &Vec<Value>,
        kwargs: &Vec<(String, Value)>,
        interp: &Interpreter<O, S>,
    ) -> (r: Result<Value, InterpreterError>)
        ensures
            argument_asked(self.lang@, value_views(args@), pair_views(kwargs@), r),
    {
        let argument = match take_first_string(args, "has_argument requires a string argument") {
            Ok(s) => s,
            Err(e) => return Err(e),
        };
        let required = match take_bool_kwarg(
            kwargs,
            "required",
            "The 'required' keyword argument must be a boolean",
        ) {
            Ok(Some(b)) => b,
            Ok(None) => false,
            Err(e) => return Err(e),
        };
        let result = match self.run_probe(&plan_argument_probe(argument), interp) {
            Ok(r) => r,
            Err(e) => return Err(e),
        };
        has_argument_answer(argument, required, result.success)
    }

    /// `c.get_supported_arguments(args...)`: those of the arguments that
    /// the compiler takes, in their order. Each argument is probed by
    /// itself, with the probe that `plan_argument_probe` makes for it,
    /// and the first probe that fails ends the call.
    pub fn get_supported_arguments<O: Os, S: BuildSteps>(
        &self,
        args: &Vec<Value>,
        interp: &Interpreter<O, S>,
    ) -> (r: Result<Value, InterpreterError>)
        ensures
            supported_asked(self.lang@, value_views(args@), r),
    {
        let candidates = match strings_of(&flatten(args), "Expected arguments to be strings") {
            Ok(c) => c,
            Err(e) => return Err(e),
        };
        let ghost all = flat(value_views(args@));
        let mut taken: Vec<Value> = Vec::new();
        let mut i: usize = 0;
        assert(value_views(taken@) =~= Seq::<ValueView>::empty());
        assert(all_strings(all)->0.len() == all.len());
        assert(string_views(candidates@).len() == candidates@.len());
        while i < candidates.len()
            invariant
                i <= candidates.len(),
                all == flat(value_views(args@)),
                all.len() == candidates@.len(),
                all_strings(all) == Some(string_views(candidates@)),
                picked_from(value_views(taken@), all.take(i as int)),
            decreases candidates.len() - i,
        {
            let result = match self.run_probe(
                &plan_argument_probe(candidates[i].as_str()),
                interp,
            ) {
                Ok(r) => r,
                Err(e) => return Err(e),
            };
            let ghost before = value_views(taken@);
            proof {
                assert(all[i as int] is String);
                assert(string_views(candidates@)[i as int] == all[i as int]->String_0);
                assert(all.take(i as int + 1).drop_last() =~= all.take(i as int));
            }
            if result.success {
                taken.push(Value::String(candidates[i].clone()));
                assert(value_views(taken@) =~= before.push(all[i as int]));
                assert(value_views(taken@).drop_last() =~= before);
            }
            i += 1;
        }
        assert(all.take(candidates.len() as int) =~= all);
        Ok(Value::Array(taken))
    }

    /// `c.has_function(name, args: ...)`: whether a program that takes the
    /// address of the function compiles and links. The probe is the one
    /// that `plan_function_check` makes.
    pub fn has_function<O: Os, S: BuildSteps>(
        &self,
        args: &Vec<Value>,
        kwargs: &Vec<(String, Value)>,
        interp: &Interpreter<O, S>,
    ) -> (r: Result<Value, InterpreterError>)
        ensures
            code_asked(
                self.lang@,
                "has_function requires a string argument"@,
                value_views(args@),
                pair_views(kwargs@),
                r,
            ),
    {
        let function = match take_first_string(args, "has_function requires a string argument") {
            Ok(s) => s,
            Err(e) => return Err(e),
        };
        let extra = match get_extra_args(kwargs) {
            Ok(a) => a,
            Err(e) => return Err(e),
        };
        match self.run_probe(&plan_function_check(function, extra), interp) {
            Ok(r) => Ok(Value::Boolean(r.success)),
            Err(e) => Err(e),
        }
    }

    /// `c.has_link_argument(arg)`: whether a program links with the
    /// argument. The probe is the one that `plan_link_probe` makes for
    /// the argument.
    pub fn has_link_argument<O: Os, S: BuildSteps>(
        &self,
        args: &Vec<Value>,
        interp: &Interpreter<O, S>,
    ) -> (r: Result<Value, InterpreterError>)
        ensures
            link_asked(self.lang@, value_views(args@), r),
    {
        let argument = match take_first_string(
            args,
            "has_link_argument requires a string argument",
        ) {
            Ok(s) => s,
            Err(e) => return Err(e),
        };
        match self.run_probe(&plan_link_probe(one(argument)), interp) {
            Ok(r) => Ok(Value::Boolean(r.success)),
            Err(e) => Err(e),
        }
    }

    /// `c.has_multi_link_arguments(args...)`: whether a program links with
    /// all the arguments at once. The probe is the one that
    /// `plan_link_probe` makes for the arguments.
    pub fn has_multi_link_arguments<O: Os, S: BuildSteps>(
        &self,
        args: &Vec<Value>,
        interp: &Interpreter<O, S>,
    ) -> (r: Result<Value, InterpreterError>)
        ensures
            multi_link_asked(self.lang@, value_views(args@), r),
    {
        let arguments = match strings_of(&flatten(args), "Expected arguments to be strings") {
            Ok(a) => a,
            Err(e) => return Err(e),
        };
        match self.run_probe(&plan_link_probe(arguments), interp) {
            Ok(r) => Ok(Value::Boolean(r.success)),
            Err(e) => Err(e),
        }
    }

    /// `c.symbols_have_underscore_prefix()`: whether the symbols of the
    /// platform begin with an underscore. The probe is the one that
    /// `plan_underscore_probe` makes.
    pub fn symbols_have_underscore_prefix<O: Os, S: BuildSteps>(
        &self,
        interp: &Interpreter<O, S>,
    ) -> (r: Result<Value, InterpreterError>)
        ensures
            prefix_asked(self.lang@, r),
    {
        let result = match self.run_probe(&plan_underscore_probe(), interp) {
            Ok(r) => r,
            Err(e) => return Err(e),
        };
        let output = decode_lossy(&result.artifact);
        let r = prefix_answer(output.as_str());
        assert(same_result(r, prefix_result(output@)));
        r
    }

    /// `c.compiles(code, args: ...)`: whether the code compiles. The probe
    /// is the one that `plan_compile_probe` makes.
    pub fn compiles<O: Os, S: BuildSteps>(
        &self,
        args: &Vec<Value>,
        kwargs: &Vec<(String, Value)>,
        interp: &Interpreter<O, S>,
    ) -> (r: Result<Value, InterpreterError>)
        ensures
            code_asked(
                self.lang@,
                "compiles requires a string argument"@,
                value_views(args@),
                pair_views(kwargs@),
                r,
            ),
    {
        let code = match take_first_string(args, "compiles requires a string argument") {
            Ok(s) => s,
            Err(e) => return Err(e),
        };
        let extra = match get_extra_args(kwargs) {
            Ok(a) => a,
            Err(e) => return Err(e),
        };
        match self.run_probe(&plan_compile_probe(code, extra), interp) {
            Ok(r) => Ok(Value::Boolean(r.success)),
            Err(e) => Err(e),
        }
    }

    /// `c.links(code, args: ...)`: whether the code compiles and links.
    /// The probe is the one that `plan_link_check` makes.
    pub fn links<O: Os, S: BuildSteps>(
        &self,
        args: &Vec<Value>,
        kwargs: &Vec<(String, Value)>,
        interp: &Interpreter<O, S>,
    ) -> (r: Result<Value, InterpreterError>)
        ensures
            code_asked(
                self.lang@,
                "links requires a string argument"@,
                value_views(args@),
                pair_views(kwargs@),
                r,
            ),
    {
        let code = match take_first_string(args, "links requires a string argument") {
            Ok(s) => s,
            Err(e) => return Err(e),
        };
        let extra = match get_extra_args(kwargs) {
            Ok(a) => a,
            Err(e) => return Err(e),
        };
        match self.run_probe(&plan_link_check(code, extra), interp) {
            Ok(r) => Ok(Value::Boolean(r.success)),
            Err(e) => Err(e),
        }
    }
}

/// Whether `picked` holds some of the values of `candidates`, in the
/// order in which they stand there, and nothing else.
pub open spec fn picked_from(picked: Seq<ValueView>, candidates: Seq<ValueView>) -> bool
    decreases candidates.len(),
{
    if picked.len() == 0 {
        true
    } else if candidates.len() == 0 {
        false
    } else {
        ||| picked.last() == candidates.last() && picked_from(
            picked.drop_last(),
            candidates.drop_last(),
        )
        ||| picked_from(picked, candidates.drop_last())
    }
}

/// The flags that the option `<lang>_args` gives to the compiler of the
/// language: the strings of its array, none where no such option is
/// declared.
pub open spec fn option_flags(opts: Map<Seq<char>, BuildOption>, lang: Seq<char>) -> Result<
    Seq<Seq<char>>,
    ErrorView,
> {
    let key = lang + "_args"@;
    if !opts.contains_key(key) {
        Ok(Seq::empty())
    } else {
        match opts[key].value@ {
            ValueView::Array(items) => match all_strings(items) {
                Some(texts) => Ok(texts),
                None => Err(
                    ErrorView::TypeError(
                        "Expected compiler flags option to be an array of strings"@,
                    ),
                ),
            },
            _ => Err(ErrorView::TypeError("Expected compiler flags option to be an array"@)),
        }
    }
}

/// Reads the flags that the option `<lang>_args` gives.
pub fn get_compiler_flags<O: Os, S: BuildSteps>(interp: &Interpreter<O, S>, lang: &str) -> (r:
    Result<Vec<String>, InterpreterError>)
    ensures
        match r {
            Ok(f) => option_flags(interp.opts(), lang@) == Ok::<Seq<Seq<char>>, ErrorView>(
                string_views(f@),
            ),
            Err(e) => option_flags(interp.opts(), lang@) == Err::<Seq<Seq<char>>, ErrorView>(e@),
        },
{
    let key = concat(lang, "_args");
    match interp.options.get(key.as_str()) {
        None => Ok(none()),
        Some(opt) => match &opt.value {
            Value::Array(items) => strings_of(
                items,
                "Expected compiler flags option to be an array of strings",
            ),
            _ => Err(type_error("Expected compiler flags option to be an array")),
        },
    }
}

/// The message of `get_compiler(lang)` where the system has no compiler
/// for the language, for the cause that the system gave.
pub open spec fn no_command(lang: Seq<char>, cause: Seq<char>) -> ErrorView {
    ErrorView::RuntimeError(
        caused(
            "Failed to determine compiler command for language: "@ + lang,
            error_text(
                ErrorView::RuntimeError(
                    caused("Failed to get compiler for language: "@ + lang, cause),
                ),
            ),
        ),
    )
}

/// The message of `get_compiler(lang)` where the option `<lang>_args`
/// does not hold flags: it ends with the text of the error `e` of the
/// option.
pub open spec fn no_flags(lang: Seq<char>, e: ErrorView) -> ErrorView {
    ErrorView::RuntimeError(
        caused("Failed to determine compiler flags for language: "@ + lang, error_text(e)),
    )
}

/// Whether `r` is what `get_compiler(lang)` makes of what the system
/// knows, `info`, and of the flags of the option `<lang>_args`, `flags`:
/// the compiler with the command of the system, and for flags those of
/// the option and behind them those of the system. Where the system has
/// no compiler the error is `no_command`, and else where the option holds
/// no flags it is `no_flags`.
pub open spec fn compiler_made(
    lang: Seq<char>,
    info: Result<CompilerInfo, String>,
    flags: Result<Seq<Seq<char>>, ErrorView>,
    r: Result<Compiler, InterpreterError>,
) -> bool {
    match info {
        Err(cause) => r matches Err(e) && e@ == no_command(lang, cause@),
        Ok(i) => match flags {
            Err(f) => r matches Err(e) && e@ == no_flags(lang, f),
            Ok(f) => r matches Ok(c) && c.lang@ == lang && c.command@ == i.bin@
                && string_views(c.flags@) == f + string_views(i.flags@),
        },
    }
}

/// The flags or the error of the option as mathematical values.
pub open spec fn flags_view(flags: Result<Vec<String>, InterpreterError>) -> Result<
    Seq<Seq<char>>,
    ErrorView,
> {
    match flags {
        Ok(f) => Ok(string_views(f@)),
        Err(e) => Err(e@),
    }
}

/// Makes the compiler of what the system knows and of the flags of the
/// option.
pub fn make_compiler(lang: &str, info: Result<CompilerInfo, String>, flags: Result<
    Vec<String>,
    InterpreterError,
>) -> (r: Result<Compiler, InterpreterError>)
    ensures
        compiler_made(lang@, info, flags_view(flags), r),
{
    let found = info.context_runtime(concat("Failed to get compiler for language: ", lang).as_str());
    let i = match found {
        Ok(i) => i,
        Err(e) => {
            return Err(
                InterpreterError::RuntimeError(
                    concat3(
                        concat("Failed to determine compiler command for language: ", lang).as_str(),
                        ": ",
                        e.to_string().as_str(),
                    ),
                ),
            );
        },
    };
    match flags {
        Err(e) => Err(
            InterpreterError::RuntimeError(
                concat3(
                    concat("Failed to determine compiler flags for language: ", lang).as_str(),
                    ": ",
                    e.to_string().as_str(),
                ),
            ),
        ),
        Ok(f) => {
            let mut all = f;
            append_strings(&mut all, &i.flags);
            Ok(Compiler { lang: String::from_str(lang), command: i.bin, flags: all })
        },
    }
}

/// What `meson.get_compiler(lang)` gives, whatever the system knows: a
/// type error where the argument is no string; else a compiler for the
/// language whose flags begin with those of the option `<lang>_args`, or
/// one of the two errors of `compiler_made`.
pub open spec fn compiler_asked_for(
    args: Seq<ValueView>,
    opts: Map<Seq<char>, BuildOption>,
    r: Result<Compiler, InterpreterError>,
) -> bool {
    match first_string(args, "Expected a string as the first argument"@) {
        Err(e) => r matches Err(f) && f@ == e,
        Ok(lang) => match r {
            Ok(c) => c.lang@ == lang && (option_flags(opts, lang) matches Ok(first)
                && first.is_prefix_of(string_views(c.flags@))),
            Err(e) => (exists|cause: Seq<char>| e@ == #[trigger] no_command(lang, cause)) || (
            option_flags(opts, lang) matches Err(f) && e@ == no_flags(lang, f)),
        },
    }
}

/// `meson.get_compiler(lang)`: the compiler for the language.
pub fn get_compiler<O: Os, S: BuildSteps>(args: &Vec<Value>, interp: &Interpreter<O, S>) -> (r:
    Result<Compiler, InterpreterError>)
    ensures
        compiler_asked_for(value_views(args@), interp.opts(), r),
{
    let lang = match take_first_string(args, "Expected a string as the first argument") {
        Ok(s) => s,
        Err(e) => return Err(e),
    };
    let info = interp.os.get_compiler(lang);
    let flags = get_compiler_flags(interp, lang);
    let ghost asked = info;
    let r = make_compiler(lang, info, flags);
    proof {
        if asked is Err {
            assert(r matches Err(e) && e@ == no_command(lang@, asked->Err_0@));
        }
    }
    r
}

} // verus!
