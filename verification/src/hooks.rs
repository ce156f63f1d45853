//! The hooks of the host and the way the engine reaches them.
//!
//! A hook is a function of the host, known here by its address alone; zero
//! stands for a hook that is not installed. This module never calls a hook.
//! It decides whether one is to be called and with which arguments, and it
//! says what the engine gets once the host has replied. The call itself is
//! made by whoever holds the address as a function.

use crate::marshal::{
    c_chars_to_string_lossy, c_int_from, c_int_of, content, content_of, decode_lossy,
    foreign_form, lossy_text, offset_from, offset_of, to_foreign, EncodingError,
};
use crate::split::{candidates_of, split_candidates, views};
use rustyline::completion::Pair;
use rustyline::config::CompletionType;
use vstd::prelude::*;

verus! {

/// The hooks installed on a session, and the one value that the host asked
/// to have passed to each of them.
#[derive(Clone, Copy, Debug)]
pub struct CustomHelper {
    pub completer_cb: usize,
    pub hint_highlighter_cb: usize,
    pub prompt_highlighter_cb: usize,
    pub candidate_highlighter_cb: usize,
    pub k_callback_holder: usize,
}

/// A call of the completion hook that is yet to be made.
#[derive(Debug)]
pub struct CompleterCall {
    pub hook: usize,
    pub holder: usize,
    /// The line in foreign form.
    pub line: Vec<u8>,
    pub pos: i32,
}

/// A call of the hint highlighter that is yet to be made.
#[derive(Debug)]
pub struct HintCall {
    pub hook: usize,
    pub holder: usize,
    /// The hint in foreign form.
    pub hint: Vec<u8>,
}

/// A call of the prompt highlighter that is yet to be made.
#[derive(Debug)]
pub struct PromptCall {
    pub hook: usize,
    pub holder: usize,
    /// The prompt in foreign form.
    pub prompt: Vec<u8>,
    pub is_default: bool,
}

/// A call of the candidate highlighter that is yet to be made.
#[derive(Debug)]
pub struct CandidateCall {
    pub hook: usize,
    pub holder: usize,
    /// The candidate in foreign form.
    pub candidate: Vec<u8>,
    pub completion: i32,
}

/// What a completion request comes to before the host is asked.
pub enum Completion {
    /// No hook is installed: the start offset and the candidates are final.
    Done(usize, Vec<Pair>),
    /// The hook is to be called; `complete_reply` takes what it returns.
    Ask(CompleterCall),
}

/// What a highlighting request comes to before the host is asked.
pub enum Highlight<C> {
    /// The text is shown as it is.
    Keep,
    /// The hook is to be called; `highlight_reply` takes what it returns.
    Ask(C),
}

/// The code by which the host knows a completion type: 1 for a list, 0 for
/// circular completion and for any other.
pub open spec fn completion_code_of(completion: CompletionType) -> i32 {
    if completion == CompletionType::List {
        1
    } else {
        0
    }
}

/// Each candidate becomes a pair that shows and inserts the same text: the
/// lossy decoding of the candidate's bytes.
pub open spec fn pairs_hold(pairs: Seq<Pair>, candidates: Seq<Seq<u8>>) -> bool {
    &&& pairs.len() == candidates.len()
    &&& forall|i: int|
        0 <= i < pairs.len() ==> {
            &&& (#[trigger] pairs[i]).display@ == lossy_text(candidates[i])
            &&& pairs[i].replacement@ == lossy_text(candidates[i])
        }
}

impl Default for CustomHelper {
    /// No hook is installed and the host's value is zero.
    fn default() -> (r: Self)
        ensures
            r.completer_cb == 0,
            r.hint_highlighter_cb == 0,
            r.prompt_highlighter_cb == 0,
            r.candidate_highlighter_cb == 0,
            r.k_callback_holder == 0,
    {
        CustomHelper {
            completer_cb: 0,
            hint_highlighter_cb: 0,
            prompt_highlighter_cb: 0,
            candidate_highlighter_cb: 0,
            k_callback_holder: 0,
        }
    }
}

impl CustomHelper {
    /// No hook is installed; the host's value is kept for later calls.
    pub fn new(k_callback_holder: usize) -> (r: Self)
        ensures
            r.completer_cb == 0,
            r.hint_highlighter_cb == 0,
            r.prompt_highlighter_cb == 0,
            r.candidate_highlighter_cb == 0,
            r.k_callback_holder == k_callback_holder,
    {
        CustomHelper {
            completer_cb: 0,
            hint_highlighter_cb: 0,
            prompt_highlighter_cb: 0,
            candidate_highlighter_cb: 0,
            k_callback_holder,
        }
    }

    /// Starts a completion. Without a hook the answer is final: the cursor
    /// position and no candidates. With a hook, the call to make: the line
    /// in foreign form and the position as the host counts it. A line that
    /// has no foreign form is an error, and the hook is not called.
    pub fn complete(&self, line: &str, pos: usize) -> (r: Result<Completion, EncodingError>)
        ensures
            match r {
                Ok(Completion::Done(start, candidates)) => {
                    &&& self.completer_cb == 0
                    &&& start == pos
                    &&& candidates@.len() == 0
                },
                Ok(Completion::Ask(call)) => {
                    &&& self.completer_cb != 0
                    &&& call.hook == self.completer_cb
                    &&& call.holder == self.k_callback_holder
                    &&& foreign_form(line@) == Ok::<Seq<u8>, EncodingError>(call.line@)
                    &&& call.pos == c_int_of(pos)
                },
                Err(fault) => {
                    &&& self.completer_cb != 0
                    &&& foreign_form(line@) == Err::<Seq<u8>, EncodingError>(fault)
                },
            },
    {
        if self.completer_cb == 0 {
            return Ok(Completion::Done(pos, Vec::new()));
        }
        match to_foreign(line) {
            Ok(bytes) => Ok(
                Completion::Ask(
                    CompleterCall {
                        hook: self.completer_cb,
                        holder: self.k_callback_holder,
                        line: bytes,
                        pos: c_int_from(pos),
                    },
                ),
            ),
            Err(fault) => Err(fault),
        }
    }

    /// Starts the highlighting of a hint. The hint is kept as it is where no
    /// hook is installed or the hint has no foreign form; else the hook is
    /// to be called with the hint in foreign form.
    pub fn highlight_hint(&self, hint: &str) -> (r: Highlight<HintCall>)
        ensures
            match r {
                Highlight::Keep => self.hint_highlighter_cb == 0 || foreign_form(hint@) is Err,
                Highlight::Ask(call) => {
                    &&& self.hint_highlighter_cb != 0
                    &&& call.hook == self.hint_highlighter_cb
                    &&& call.holder == self.k_callback_holder
                    &&& foreign_form(hint@) == Ok::<Seq<u8>, EncodingError>(call.hint@)
                },
            },
    {
        if self.hint_highlighter_cb == 0 {
            return Highlight::Keep;
        }
        match to_foreign(hint) {
            Ok(bytes) => Highlight::Ask(
                HintCall {
                    hook: self.hint_highlighter_cb,
                    holder: self.k_callback_holder,
                    hint: bytes,
                },
            ),
            Err(_) => Highlight::Keep,
        }
    }

    /// Starts the highlighting of a candidate. The candidate is kept as it
    /// is where no hook is installed or the candidate has no foreign form;
    /// else the hook is to be called with the candidate in foreign form and
    /// the code of the completion type.
    pub fn highlight_candidate(&self, candidate: &str, completion: CompletionType) -> (r:
        Highlight<CandidateCall>)
        ensures
            match r {
                Highlight::Keep => self.candidate_highlighter_cb == 0 || foreign_form(candidate@)
                    is Err,
                Highlight::Ask(call) => {
                    &&& self.candidate_highlighter_cb != 0
                    &&& call.hook == self.candidate_highlighter_cb
                    &&& call.holder == self.k_callback_holder
                    &&& foreign_form(candidate@) == Ok::<Seq<u8>, EncodingError>(call.candidate@)
                    &&& call.completion == completion_code_of(completion)
                },
            },
    {
        if self.candidate_highlighter_cb == 0 {
            return Highlight::Keep;
        }
        match to_foreign(candidate) {
            Ok(bytes) => Highlight::Ask(
                CandidateCall {
                    hook: self.candidate_highlighter_cb,
                    holder: self.k_callback_holder,
                    candidate: bytes,
                    completion: completion_code(completion),
                },
            ),
            Err(_) => Highlight::Keep,
        }
    }

    /// Starts the highlighting of a prompt. The prompt is kept as it is
    /// where no hook is installed or the prompt has no foreign form; else
    /// the hook is to be called with the prompt in foreign form and the flag
    /// that tells the first-line prompt from the others.
    pub fn highlight_prompt(&self, prompt: &str, is_default: bool) -> (r: Highlight<PromptCall>)
        ensures
            match r {
                Highlight::Keep => self.prompt_highlighter_cb == 0 || foreign_form(prompt@) is Err,
                Highlight::Ask(call) => {
                    &&& self.prompt_highlighter_cb != 0
                    &&& call.hook == self.prompt_highlighter_cb
                    &&& call.holder == self.k_callback_holder
                    &&& foreign_form(prompt@) == Ok::<Seq<u8>, EncodingError>(call.prompt@)
                    &&& call.is_default == is_default
                },
            },
    {
        if self.prompt_highlighter_cb == 0 {
            return Highlight::Keep;
        }
        match to_foreign(prompt) {
            Ok(bytes) => Highlight::Ask(
                PromptCall {
                    hook: self.prompt_highlighter_cb,
                    holder: self.k_callback_holder,
                    prompt: bytes,
                    is_default,
                },
            ),
            Err(_) => Highlight::Keep,
        }
    }
}

/// The code by which the host knows a completion type.
pub fn completion_code(completion: CompletionType) -> (code: i32)
    ensures
        code == completion_code_of(completion),
{
    match completion {
        CompletionType::Circular => 0,
        CompletionType::List => 1,
        _ => 0,
    }
}

/// Installs the completion hook, or removes it where the address is zero.
/// Nothing else changes.
pub fn editor_set_completer(helper: &mut CustomHelper, cb: usize)
    ensures
        *final(helper) == (CustomHelper { completer_cb: cb, ..*old(helper) }),
{
    helper.completer_cb = cb;
}

/// Installs the hint highlighter, or removes it where the address is zero.
/// Nothing else changes.
pub fn editor_set_hint_highlighter(helper: &mut CustomHelper, cb: usize)
    ensures
        *final(helper) == (CustomHelper { hint_highlighter_cb: cb, ..*old(helper) }),
{
    helper.hint_highlighter_cb = cb;
}

/// Installs the prompt highlighter, or removes it where the address is zero.
/// Nothing else changes.
pub fn editor_set_prompt_highlighter(helper: &mut CustomHelper, cb: usize)
    ensures
        *final(helper) == (CustomHelper { prompt_highlighter_cb: cb, ..*old(helper) }),
{
    helper.prompt_highlighter_cb = cb;
}

/// Installs the candidate highlighter, or removes it where the address is
/// zero. Nothing else changes.
pub fn editor_set_candidate_highlighter(helper: &mut CustomHelper, cb: usize)
    ensures
        *final(helper) == (CustomHelper { candidate_highlighter_cb: cb, ..*old(helper) }),
{
    helper.candidate_highlighter_cb = cb;
}

/// The pair of a candidate: it shows and inserts the same text.
pub fn pair_of(text: String) -> (pair: Pair)
    ensures
        pair.display@ == text@,
        pair.replacement@ == text@,
{
    let display = text.clone();
    Pair { display, replacement: text }
}

/// The candidates that a reply of the host holds, each decoded lossily and
/// made a pair, in the order of the reply.
pub fn candidates(reply: &[u8]) -> (pairs: Vec<Pair>)
    ensures
        pairs_hold(pairs@, candidates_of(content_of(reply@))),
{
    let found = split_candidates(content(reply));
    let mut pairs: Vec<Pair> = Vec::new();
    let mut i: usize = 0;
    while i < found.len()
        invariant
            i <= found.len(),
            views(found@) == candidates_of(content_of(reply@)),
            pairs_hold(pairs@, views(found@).take(i as int)),
        decreases found.len() - i,
    {
        let text = decode_lossy(found[i].as_slice());
        let ghost before = pairs@;
        pairs.push(pair_of(text));
        proof {
            let wanted = views(found@).take(i + 1);
            assert(views(found@)[i as int] == found@[i as int]@);
            assert forall|j: int| 0 <= j < pairs@.len() implies {
                &&& (#[trigger] pairs@[j]).display@ == lossy_text(wanted[j])
                &&& pairs@[j].replacement@ == lossy_text(wanted[j])
            } by {
                if j < i {
                    assert(pairs@[j] == before[j]);
                    assert(wanted[j] == views(found@).take(i as int)[j]);
                }
            }
        }
        i += 1;
    }
    assert(views(found@).take(i as int) =~= views(found@));
    pairs
}

/// Ends a completion with what the hook returned: the start offset that the
/// hook left behind, and the candidates of its reply. No reply means no
/// candidates.
pub fn complete_reply(start: i32, reply: Option<&[u8]>) -> (r: (usize, Vec<Pair>))
    ensures
        r.0 == offset_of(start),
        reply is None ==> r.1@.len() == 0,
        reply matches Some(bytes) ==> pairs_hold(r.1@, candidates_of(content_of(bytes@))),
{
    match reply {
        None => (offset_from(start), Vec::new()),
        Some(bytes) => (offset_from(start), candidates(bytes)),
    }
}

/// Ends a highlighting with what the hook returned: no reply keeps the text
/// as it is, a reply replaces it by its lossy decoding.
pub fn highlight_reply(reply: Option<&[u8]>) -> (r: Option<String>)
    ensures
        reply is None <==> r is None,
        (reply, r) matches (Some(bytes), Some(text)) ==> text@ == lossy_text(content_of(bytes@)),
{
    match reply {
        None => None,
        Some(bytes) => Some(c_chars_to_string_lossy(bytes)),
    }
}

} // verus!
