//! Re-encoding normalized chunks as Vercel AI-SDK UI message chunks.
//!
//! Inclusion policy belongs to the caller: the stream-start chunk, reasoning
//! deltas and the finish chunk are forwarded only when asked for; chunks that
//! carry no meaning under the current policy are dropped, never re-labelled.

use vstd::prelude::*;

verus! {

use vstd::string::StringExecFns;
use crate::chunk::ChunkDelta;

/// One UI message chunk of Vercel's AI-SDK wire vocabulary.
#[derive(Debug, Clone, PartialEq, Eq)]
pub enum VercelUIStream {
    /// Start of a text message.
    TextStart { id: String },
    /// A text fragment.
    TextDelta { id: String, delta: String },
    /// End of a text message.
    TextEnd { id: String },
    /// Start of a reasoning message.
    ReasoningStart { id: String },
    /// A reasoning fragment.
    ReasoningDelta { id: String, delta: String },
    /// End of a reasoning message.
    ReasoningEnd { id: String },
    /// Start of a tool call.
    ToolCallStart { id: String, tool_call_id: String, tool_name: String },
    /// A fragment of a tool call's arguments.
    ToolCallDelta { id: String, tool_call_id: String, delta: String },
    /// End of a tool call.
    ToolCallEnd { id: String, tool_call_id: String },
    /// An error chunk.
    Error { error_text: String },
    /// A chunk this vocabulary cannot express.
    NotSupported { error_text: String },
}

/// Configuration for one UI message stream.
#[derive(Debug, Clone, PartialEq, Eq)]
pub struct VercelUIStreamOptions {
    /// Whether to send reasoning chunks.
    pub send_reasoning: bool,
    /// Whether to send start chunks.
    pub send_start: bool,
    /// Whether to send finish chunks.
    pub send_finish: bool,
    /// The message id to stamp on every chunk; a fresh one is generated when
    /// this is `None`.
    pub message_id: Option<String>,
}

impl Default for VercelUIStreamOptions {
    /// Everything optional switched off, with a generated message id.
    fn default() -> (r: VercelUIStreamOptions)
        ensures
            !r.send_reasoning && !r.send_start && !r.send_finish && r.message_id is None,
    {
        VercelUIStreamOptions {
            send_reasoning: false,
            send_start: false,
            send_finish: false,
            message_id: None,
        }
    }
}

/// A fluent builder around a caller-supplied context (say, a finished
/// streaming response) and the UI stream options.
#[derive(Debug)]
pub struct VercelUIStreamBuilder<C> {
    /// The context handed through to the build step.
    pub context: C,
    /// The options gathered so far.
    pub options: VercelUIStreamOptions,
}

impl<C> VercelUIStreamBuilder<C> {
    /// A builder over the given context, with default options.
    pub fn new(context: C) -> (r: VercelUIStreamBuilder<C>)
        ensures
            r.context == context,
            !r.options.send_reasoning && !r.options.send_start && !r.options.send_finish
                && r.options.message_id is None,
    {
        VercelUIStreamBuilder { context, options: VercelUIStreamOptions::default() }
    }

    /// Enables reasoning chunks.
    pub fn send_reasoning(self) -> (r: VercelUIStreamBuilder<C>)
        ensures
            r.context == self.context,
            r.options == (VercelUIStreamOptions { send_reasoning: true, ..self.options }),
    {
        let mut options = self.options;
        options.send_reasoning = true;
        VercelUIStreamBuilder { context: self.context, options }
    }

    /// Enables start chunks.
    pub fn send_start(self) -> (r: VercelUIStreamBuilder<C>)
        ensures
            r.context == self.context,
            r.options == (VercelUIStreamOptions { send_start: true, ..self.options }),
    {
        let mut options = self.options;
        options.send_start = true;
        VercelUIStreamBuilder { context: self.context, options }
    }

    /// Enables finish chunks.
    pub fn send_finish(self) -> (r: VercelUIStreamBuilder<C>)
        ensures
            r.context == self.context,
            r.options == (VercelUIStreamOptions { send_finish: true, ..self.options }),
    {
        let mut options = self.options;
        options.send_finish = true;
        VercelUIStreamBuilder { context: self.context, options }
    }

    /// Sets a custom message id generator; it is invoked once, here, and its
    /// result stamps every chunk of the stream.
    pub fn with_id_generator<G: FnOnce() -> String>(self, generator: G) -> (r:
        VercelUIStreamBuilder<C>)
        requires
            call_requires(generator, ()),
        ensures
            r.context == self.context,
            r.options.send_reasoning == self.options.send_reasoning,
            r.options.send_start == self.options.send_start,
            r.options.send_finish == self.options.send_finish,
            r.options.message_id matches Some(s) && call_ensures(generator, (), s),
    {
        let id = generator();
        let mut options = self.options;
        options.message_id = Some(id);
        VercelUIStreamBuilder { context: self.context, options }
    }

    /// Builds the final value from the context and the gathered options.
    pub fn build<T, B: FnOnce(C, VercelUIStreamOptions) -> T>(self, build_fn: B) -> (r: T)
        requires
            call_requires(build_fn, (self.context, self.options)),
        ensures
            call_ensures(build_fn, (self.context, self.options), r),
    {
        build_fn(self.context, self.options)
    }
}

/// Relies on uuid::Uuid::new_v4 and its simple form: a fresh id of the shape
/// `msg_` followed by 32 hexadecimal digits; nothing is assumed about which
/// digits come back.
#[verifier::external_body]
pub fn fresh_message_id() -> (r: String)
    ensures
        r@.len() == 36,
        r@.subrange(0, 4) == "msg_"@,
{
    format!("msg_{}", uuid::Uuid::new_v4().simple())
}

/// The message id a stream uses: the configured one, else a fresh one.
pub fn resolve_message_id(options: &VercelUIStreamOptions) -> (r: String)
    ensures
        options.message_id matches Some(s) ==> r == s,
        options.message_id is None ==> r@.len() == 36 && r@.subrange(0, 4) == "msg_"@,
{
    match &options.message_id {
        Some(s) => s.clone(),
        None => fresh_message_id(),
    }
}

/// How one normalized delta renders under the policy: the UI chunk it
/// becomes, or nothing. A tool-call fragment opens a placeholder tool-call
/// chunk; an unsupported chunk is dropped rather than forwarded.
pub open spec fn ui_rel(
    c: ChunkDelta,
    options: VercelUIStreamOptions,
    id: String,
    r: Option<VercelUIStream>,
) -> bool {
    match c {
        ChunkDelta::Start => if options.send_start {
            r == Some(VercelUIStream::TextStart { id })
        } else {
            r is None
        },
        ChunkDelta::Text(delta) => r == Some(VercelUIStream::TextDelta { id, delta }),
        ChunkDelta::Reasoning(delta) => if options.send_reasoning {
            r == Some(VercelUIStream::ReasoningDelta { id, delta })
        } else {
            r is None
        },
        ChunkDelta::ToolCall(_) => {
            &&& r matches Some(VercelUIStream::ToolCallStart { id: i, tool_call_id, tool_name })
            &&& i == id
            &&& tool_call_id@ == "unknown"@
            &&& tool_name@ == "unknown"@
        },
        ChunkDelta::End(_) => if options.send_finish {
            r == Some(VercelUIStream::TextEnd { id })
        } else {
            r is None
        },
        ChunkDelta::Failed(e) => r == Some(VercelUIStream::Error { error_text: e }),
        ChunkDelta::Incomplete(e) => r == Some(VercelUIStream::Error { error_text: e }),
        ChunkDelta::NotSupported(_) => r is None,
    }
}

/// Renders one normalized delta under the policy.
pub fn map_chunk(c: &ChunkDelta, options: &VercelUIStreamOptions, id: &String) -> (r: Option<
    VercelUIStream,
>)
    ensures
        ui_rel(*c, *options, *id, r),
{
    match c {
        ChunkDelta::Start => if options.send_start {
            Some(VercelUIStream::TextStart { id: id.clone() })
        } else {
            None
        },
        ChunkDelta::Text(delta) => Some(
            VercelUIStream::TextDelta { id: id.clone(), delta: delta.clone() },
        ),
        ChunkDelta::Reasoning(delta) => if options.send_reasoning {
            Some(VercelUIStream::ReasoningDelta { id: id.clone(), delta: delta.clone() })
        } else {
            None
        },
        ChunkDelta::ToolCall(_) => Some(
            VercelUIStream::ToolCallStart {
                id: id.clone(),
                tool_call_id: "unknown".to_owned(),
                tool_name: "unknown".to_owned(),
            },
        ),
        ChunkDelta::End(_) => if options.send_finish {
            Some(VercelUIStream::TextEnd { id: id.clone() })
        } else {
            None
        },
        ChunkDelta::Failed(e) => Some(VercelUIStream::Error { error_text: e.clone() }),
        ChunkDelta::Incomplete(e) => Some(VercelUIStream::Error { error_text: e.clone() }),
        ChunkDelta::NotSupported(_) => None,
    }
}

proof fn lemma_ui_rel_reasoning(
    c: ChunkDelta,
    options: VercelUIStreamOptions,
    id: String,
    r: Option<VercelUIStream>,
)
    requires
        ui_rel(c, options, id, r),
    ensures
        (r matches Some(u) && u is ReasoningDelta) <==> (options.send_reasoning
            && c is Reasoning),
{
}

/// Renders a whole normalized delta sequence as UI chunks, in order.
///
/// Law: the rendered sequence contains a reasoning chunk exactly when the
/// caller asked for reasoning output and the normalized sequence carries a
/// reasoning delta — never otherwise, whatever the vendor sent.
pub fn map_chunks(chunks: &Vec<ChunkDelta>, options: &VercelUIStreamOptions, id: &String) -> (r:
    Vec<VercelUIStream>)
    ensures
        (exists|j: int| 0 <= j < r@.len() && (#[trigger] r@[j]) is ReasoningDelta) <==> (
        options.send_reasoning && exists|j: int|
            0 <= j < chunks@.len() && (#[trigger] chunks@[j]) is Reasoning),
{
    let mut r: Vec<VercelUIStream> = Vec::new();
    let mut i: usize = 0;
    while i < chunks.len()
        invariant
            0 <= i <= chunks@.len(),
            (exists|j: int| 0 <= j < r@.len() && (#[trigger] r@[j]) is ReasoningDelta) <==> (
            options.send_reasoning && exists|j: int|
                0 <= j < i && (#[trigger] chunks@[j]) is Reasoning),
        decreases chunks@.len() - i,
    {
        let ghost r0 = r@;
        let mapped = map_chunk(&chunks[i], options, id);
        proof {
            lemma_ui_rel_reasoning(chunks@[i as int], *options, *id, mapped);
        }
        match mapped {
            Some(u) => {
                let ghost uv = u;
                r.push(u);
                proof {
                    assert(r@.len() == r0.len() + 1);
                    assert(r@[r0.len() as int] == uv);
                    assert(forall|j: int| 0 <= j < r0.len() ==> #[trigger] r@[j] == r0[j]);
                    assert((exists|j: int|
                        0 <= j < r@.len() && (#[trigger] r@[j]) is ReasoningDelta) <==> ((exists|
                        j: int,
                    | 0 <= j < r0.len() && (#[trigger] r0[j]) is ReasoningDelta)
                        || uv is ReasoningDelta)) by {
                        if exists|j: int|
                            0 <= j < r@.len() && (#[trigger] r@[j]) is ReasoningDelta {
                            let j0 = choose|j: int|
                                0 <= j < r@.len() && (#[trigger] r@[j]) is ReasoningDelta;
                            if j0 < r0.len() {
                                assert(r0[j0] is ReasoningDelta);
                            } else {
                                assert(r@[j0] == uv);
                            }
                        }
                        if exists|j: int|
                            0 <= j < r0.len() && (#[trigger] r0[j]) is ReasoningDelta {
                            let j0 = choose|j: int|
                                0 <= j < r0.len() && (#[trigger] r0[j]) is ReasoningDelta;
                            assert(r@[j0] == r0[j0]);
                            assert(r@[j0] is ReasoningDelta);
                        }
                        if uv is ReasoningDelta {
                            assert(r@[r0.len() as int] is ReasoningDelta);
                        }
                    }
                    assert((uv is ReasoningDelta) <==> (options.send_reasoning
                        && chunks@[i as int] is Reasoning));
                    assert((exists|j: int|
                        0 <= j < i + 1 && (#[trigger] chunks@[j]) is Reasoning) <==> ((exists|
                        j: int,
                    | 0 <= j < i && (#[trigger] chunks@[j]) is Reasoning)
                        || chunks@[i as int] is Reasoning)) by {
                        if exists|j: int|
                            0 <= j < i + 1 && (#[trigger] chunks@[j]) is Reasoning {
                            let j0 = choose|j: int|
                                0 <= j < i + 1 && (#[trigger] chunks@[j]) is Reasoning;
                            if j0 < i {
                            } else {
                                assert(chunks@[i as int] is Reasoning);
                            }
                        }
                    }
                }
            },
            None => {
                proof {
                    assert(!(options.send_reasoning && chunks@[i as int] is Reasoning));
                    assert((exists|j: int|
                        0 <= j < i + 1 && (#[trigger] chunks@[j]) is Reasoning)
                        && options.send_reasoning ==> (exists|j: int|
                        0 <= j < i && (#[trigger] chunks@[j]) is Reasoning)) by {
                        if options.send_reasoning && exists|j: int|
                            0 <= j < i + 1 && (#[trigger] chunks@[j]) is Reasoning {
                            let j0 = choose|j: int|
                                0 <= j < i + 1 && (#[trigger] chunks@[j]) is Reasoning;
                            assert(j0 != i);
                        }
                    }
                }
            },
        }
        i += 1;
    }
    r
}

} // verus!
