//! The parser handle and the chunked-input feeding state machine.
//!
//! The engine instance itself lives outside this crate; [`Parser`] is the
//! protocol around it. Every engine call is bracketed by a decision before
//! it (may this operation run now?) and an interpretation after it (what
//! does the status code mean for the feeder?). Both halves are verified:
//! the decision functions refuse protocol violations exactly, and the
//! status functions map the engine's code domain exactly. A ghost record
//! keeps the byte stream handed to the engine, which is how the feeder's
//! ordering guarantee — chunks are delivered whole, in order, never
//! reordered or batched — is stated and proved.
//!
//! The script-injection window is an explicit counter rather than a hidden
//! call stack: the bridge's script-completion delivery brackets the
//! client's handler between [`Parser::enter_script_window`] and
//! [`Parser::exit_script_window`], and only inside that bracket does
//! [`Parser::insert_chunk`] accept.

use vstd::prelude::*;

use crate::status::{EngineError, EngineStatus, status_of_code};
use crate::types::{NULL_NODE, NodeDataPtr};

verus! {

/// Where the feeder stands.
#[derive(Clone, Copy, PartialEq, Eq, Structural, Debug)]
pub enum FeederState {
    /// Created; nothing fed yet.
    Idle,
    /// An engine call is on the stack.
    Feeding,
    /// The engine consumed the last chunk and wants the next one.
    NeedsMoreData,
    /// The engine suspended feeding; resumable by the next feed.
    Paused,
    /// End of input was signalled; feeding and inserting are over.
    Completed,
    /// A hard engine failure; the handle is unusable.
    Failed,
}

/// What a successful feed reports back.
#[derive(Clone, Copy, PartialEq, Eq, Structural, Debug)]
pub enum FeedOutcome {
    /// The normal case: supply the next chunk.
    NeedsMoreData,
    /// Feeding is suspended; resume by feeding again.
    Paused,
    /// The engine restarted with a different charset: a restart signal the
    /// client must act on, not an error.
    EncodingChanged,
}

/// The mathematical state of a [`Parser`].
#[verifier::ext_equal]
pub ghost struct ParserModel {
    pub state: FeederState,
    pub installed: bool,
    pub started: bool,
    pub script_depth: int,
    pub completing: bool,
    pub fed: Seq<u8>,
    pub inserted: Seq<u8>,
    pub encoding_hint: Seq<u8>,
    pub fix_encoding: bool,
    pub scripting: bool,
    pub styling: bool,
    pub document_node: NodeDataPtr,
}

/// The state of a parser handle fresh from creation.
pub open spec fn initial_parser(encoding_hint: Seq<u8>, fix_encoding: bool) -> ParserModel {
    ParserModel {
        state: FeederState::Idle,
        installed: false,
        started: false,
        script_depth: 0,
        completing: false,
        fed: Seq::empty(),
        inserted: Seq::empty(),
        encoding_hint,
        fix_encoding,
        scripting: false,
        styling: false,
        document_node: NULL_NODE,
    }
}

/// Whether a feed may begin now: a tree-construction capability is
/// installed, no engine call or callback is on the stack, and the feeder
/// is idle, waiting for data, or paused.
pub open spec fn feed_ready(m: ParserModel) -> bool {
    &&& m.installed
    &&& m.script_depth == 0
    &&& (m.state is Idle || m.state is NeedsMoreData || m.state is Paused)
}

/// The state at the moment a chunk is handed to the engine: the chunk's
/// bytes join the delivered stream, whole and in order.
pub open spec fn after_feed_begin(m: ParserModel, data: Seq<u8>) -> ParserModel {
    ParserModel { state: FeederState::Feeding, started: true, fed: m.fed + data, ..m }
}

/// What a feed status code means for the caller.
pub open spec fn feed_outcome_of_code(code: i32) -> Result<FeedOutcome, EngineError> {
    match status_of_code(code) {
        Some(EngineStatus::Success) => Ok(FeedOutcome::NeedsMoreData),
        Some(EngineStatus::NeedData) => Ok(FeedOutcome::NeedsMoreData),
        Some(EngineStatus::Paused) => Ok(FeedOutcome::Paused),
        Some(EngineStatus::EncodingChange) => Ok(FeedOutcome::EncodingChanged),
        Some(EngineStatus::NoMem) => Err(EngineError::NoMemory),
        Some(EngineStatus::BadParm) => Err(EngineError::BadParameter),
        Some(EngineStatus::Invalid) => Err(EngineError::Invalid),
        Some(EngineStatus::BadEncoding) => Err(EngineError::BadEncoding),
        Some(EngineStatus::Reprocess) => Err(EngineError::Unknown),
        Some(EngineStatus::FileNotFound) => Err(EngineError::Unknown),
        Some(EngineStatus::Unknown) => Err(EngineError::Unknown),
        None => Err(EngineError::Unknown),
    }
}

/// Where the feeder stands after a feed answered with `code`: waiting for
/// data, paused, or failed.
pub open spec fn state_after_feed_code(code: i32) -> FeederState {
    match feed_outcome_of_code(code) {
        Ok(FeedOutcome::Paused) => FeederState::Paused,
        Ok(_) => FeederState::NeedsMoreData,
        Err(_) => FeederState::Failed,
    }
}

/// One whole feed call that the engine answers normally: the decision to
/// feed, the delivery of the chunk, and the engine asking for more data.
/// This is [`Parser::parse_chunk`] followed by
/// [`Parser::parse_chunk_status`] with a success code.
pub open spec fn full_feed(m: ParserModel, data: Seq<u8>) -> ParserModel {
    ParserModel { state: FeederState::NeedsMoreData, ..after_feed_begin(m, data) }
}

/// Law: chunk boundaries do not matter to the adapter. Feeding `first`
/// and then `second` leaves the parser in exactly the state that feeding
/// their concatenation does — in particular the engine receives the same
/// byte stream in the same order, so an engine that is deterministic in
/// its input builds the same tree either way.
pub proof fn lemma_chunk_boundary_independence(m: ParserModel, first: Seq<u8>, second: Seq<u8>)
    requires
        feed_ready(m),
    ensures
        feed_ready(full_feed(m, first)),
        full_feed(full_feed(m, first), second) == full_feed(m, first + second),
{
    assert((m.fed + first) + second =~= m.fed + (first + second));
    assert(full_feed(full_feed(m, first), second) =~~= full_feed(m, first + second));
}

/// The byte stream a sequence of chunks carries, in order.
pub open spec fn concat_chunks(chunks: Seq<Seq<u8>>) -> Seq<u8>
    decreases chunks.len(),
{
    if chunks.len() == 0 {
        Seq::empty()
    } else {
        chunks[0] + concat_chunks(chunks.drop_first())
    }
}

/// The state after feeding a sequence of chunks, one whole feed call per
/// chunk, each answered normally.
pub open spec fn full_feed_all(m: ParserModel, chunks: Seq<Seq<u8>>) -> ParserModel
    decreases chunks.len(),
{
    if chunks.len() == 0 {
        m
    } else {
        full_feed_all(full_feed(m, chunks[0]), chunks.drop_first())
    }
}

/// Law: any number of feed calls equals one. Feeding a sequence of chunks
/// call by call leaves the parser exactly where one feed of their
/// concatenation does: the engine sees one and the same byte stream.
pub proof fn lemma_many_feeds_one_stream(m: ParserModel, chunks: Seq<Seq<u8>>)
    requires
        feed_ready(m),
        chunks.len() > 0,
    ensures
        feed_ready(full_feed_all(m, chunks)),
        full_feed_all(m, chunks) == full_feed(m, concat_chunks(chunks)),
    decreases chunks.len(),
{
    let rest = chunks.drop_first();
    let first_fed = full_feed(m, chunks[0]);
    lemma_chunk_boundary_independence(m, chunks[0], concat_chunks(rest));
    assert(full_feed_all(m, chunks) == full_feed_all(first_fed, rest));
    assert(concat_chunks(chunks) == chunks[0] + concat_chunks(rest));
    if chunks.len() == 1 {
        assert(full_feed_all(first_fed, rest) == first_fed);
        assert(concat_chunks(rest) =~= Seq::<u8>::empty());
        assert(chunks[0] + Seq::<u8>::empty() =~= chunks[0]);
        assert(full_feed(m, concat_chunks(chunks)) =~~= first_fed);
    } else {
        lemma_many_feeds_one_stream(first_fed, rest);
    }
}

/// The open-window count of a handle never goes negative: it mirrors a
/// machine counter.
pub proof fn lemma_script_depth_nonnegative(parser: &Parser)
    ensures
        parser@.script_depth >= 0,
{
}

/// The parser handle: owns the protocol state of one engine instance.
///
/// The unsafe engine itself is driven by the embedder; this handle decides,
/// before each engine call, whether the protocol allows it, and interprets
/// the status code afterwards. An embedder that consults the handle first
/// and reports every status back therefore never makes a call the protocol
/// forbids.
pub struct Parser {
    state: FeederState,
    installed: bool,
    started: bool,
    script_depth: usize,
    completing: bool,
    fed: Ghost<Seq<u8>>,
    inserted: Ghost<Seq<u8>>,
    encoding_hint: Vec<u8>,
    fix_encoding: bool,
    scripting: bool,
    styling: bool,
    document_node: NodeDataPtr,
}

impl View for Parser {
    type V = ParserModel;

    closed spec fn view(&self) -> ParserModel {
        ParserModel {
            state: self.state,
            installed: self.installed,
            started: self.started,
            script_depth: self.script_depth as int,
            completing: self.completing,
            fed: self.fed@,
            inserted: self.inserted@,
            encoding_hint: self.encoding_hint@,
            fix_encoding: self.fix_encoding,
            scripting: self.scripting,
            styling: self.styling,
            document_node: self.document_node,
        }
    }
}

impl Parser {
    /// A handle for an engine created with this charset hint;
    /// `fix_encoding` forbids the engine from overriding the hint by
    /// sniffing. The engine's own answer to creation is interpreted by
    /// [`crate::status::creation_status`].
    pub fn new(encoding_hint: Vec<u8>, fix_encoding: bool) -> (parser: Parser)
        ensures
            parser@ == initial_parser(encoding_hint@, fix_encoding),
    {
        let parser = Parser {
            state: FeederState::Idle,
            installed: false,
            started: false,
            script_depth: 0,
            completing: false,
            fed: Ghost(Seq::empty()),
            inserted: Ghost(Seq::empty()),
            encoding_hint,
            fix_encoding,
            scripting: false,
            styling: false,
            document_node: NULL_NODE,
        };
        proof {
            assert(parser@ =~~= initial_parser(parser.encoding_hint@, fix_encoding));
        }
        parser
    }

    /// Binds a tree-construction capability to this handle; binding twice
    /// replaces the prior binding. Must happen before the first feed
    /// operation: afterwards it is a protocol violation and is refused.
    pub fn set_tree_handler(&mut self) -> (outcome: Result<(), EngineError>)
        ensures
            !old(self)@.started ==> outcome == Result::<(), EngineError>::Ok(()) && final(self)@
                == (ParserModel { installed: true, ..old(self)@ }),
            old(self)@.started ==> outcome == Result::<(), EngineError>::Err(
                EngineError::ProtocolViolation,
            ) && final(self)@ == old(self)@,
    {
        if self.started {
            Err(EngineError::ProtocolViolation)
        } else {
            self.installed = true;
            proof {
                assert(self@ =~~= (ParserModel { installed: true, ..old(self)@ }));
            }
            Ok(())
        }
    }

    /// Records the client node that stands for the document root, to be
    /// applied to the engine through the option-set protocol. One-shot
    /// configuration: refused once feeding has started.
    pub fn set_document_node(&mut self, node: NodeDataPtr) -> (outcome: Result<(), EngineError>)
        ensures
            !old(self)@.started ==> outcome == Result::<(), EngineError>::Ok(()) && final(self)@
                == (ParserModel { document_node: node, ..old(self)@ }),
            old(self)@.started ==> outcome == Result::<(), EngineError>::Err(
                EngineError::ProtocolViolation,
            ) && final(self)@ == old(self)@,
    {
        if self.started {
            Err(EngineError::ProtocolViolation)
        } else {
            self.document_node = node;
            proof {
                assert(self@ =~~= (ParserModel { document_node: node, ..old(self)@ }));
            }
            Ok(())
        }
    }

    /// Records whether scripting is enabled. One-shot configuration:
    /// refused once feeding has started.
    pub fn enable_scripting(&mut self, enable: bool) -> (outcome: Result<(), EngineError>)
        ensures
            !old(self)@.started ==> outcome == Result::<(), EngineError>::Ok(()) && final(self)@
                == (ParserModel { scripting: enable, ..old(self)@ }),
            old(self)@.started ==> outcome == Result::<(), EngineError>::Err(
                EngineError::ProtocolViolation,
            ) && final(self)@ == old(self)@,
    {
        if self.started {
            Err(EngineError::ProtocolViolation)
        } else {
            self.scripting = enable;
            proof {
                assert(self@ =~~= (ParserModel { scripting: enable, ..old(self)@ }));
            }
            Ok(())
        }
    }

    /// Records whether styling is enabled. One-shot configuration:
    /// refused once feeding has started.
    pub fn enable_styling(&mut self, enable: bool) -> (outcome: Result<(), EngineError>)
        ensures
            !old(self)@.started ==> outcome == Result::<(), EngineError>::Ok(()) && final(self)@
                == (ParserModel { styling: enable, ..old(self)@ }),
            old(self)@.started ==> outcome == Result::<(), EngineError>::Err(
                EngineError::ProtocolViolation,
            ) && final(self)@ == old(self)@,
    {
        if self.started {
            Err(EngineError::ProtocolViolation)
        } else {
            self.styling = enable;
            proof {
                assert(self@ =~~= (ParserModel { styling: enable, ..old(self)@ }));
            }
            Ok(())
        }
    }

    /// The decision to feed a chunk. On acceptance the chunk counts as
    /// delivered to the engine, whole and in order, and an engine call is
    /// on the stack until [`Parser::parse_chunk_status`] reports how it
    /// ended. Feeding from within a callback, before a capability is
    /// installed, or after completion is a protocol violation and is
    /// refused without any effect.
    pub fn parse_chunk(&mut self, data: &Vec<u8>) -> (outcome: Result<(), EngineError>)
        ensures
            feed_ready(old(self)@) ==> outcome == Result::<(), EngineError>::Ok(()) && final(self)@ == after_feed_begin(old(self)@, data@),
            !feed_ready(old(self)@) ==> outcome == Result::<(), EngineError>::Err(
                EngineError::ProtocolViolation,
            ) && final(self)@ == old(self)@,
    {
        let ready = self.installed && self.script_depth == 0 && (match self.state {
            FeederState::Idle => true,
            FeederState::NeedsMoreData => true,
            FeederState::Paused => true,
            _ => false,
        });
        if !ready {
            return Err(EngineError::ProtocolViolation);
        }
        self.state = FeederState::Feeding;
        self.started = true;
        self.fed = Ghost(self.fed@ + data@);
        proof {
            assert(self@ =~~= after_feed_begin(old(self)@, data@));
        }
        Ok(())
    }

    /// Interprets the status code the engine answered a feed with:
    /// data-dependent signals become outcomes, failures become errors and
    /// mark the handle failed. Refused unless a feed call is on the stack.
    pub fn parse_chunk_status(&mut self, code: i32) -> (outcome: Result<FeedOutcome, EngineError>)
        ensures
            old(self)@.state is Feeding && !old(self)@.completing ==> outcome
                == feed_outcome_of_code(code) && final(self)@ == (ParserModel {
                state: state_after_feed_code(code),
                ..old(self)@
            }),
            !(old(self)@.state is Feeding && !old(self)@.completing) ==> outcome
                == Result::<FeedOutcome, EngineError>::Err(EngineError::ProtocolViolation)
                && final(self)@ == old(self)@,
    {
        let on_stack = match self.state {
            FeederState::Feeding => !self.completing,
            _ => false,
        };
        if !on_stack {
            return Err(EngineError::ProtocolViolation);
        }
        let outcome = self.interpret_feed_code(code);
        self.state = match outcome {
            Ok(FeedOutcome::Paused) => FeederState::Paused,
            Ok(_) => FeederState::NeedsMoreData,
            Err(_) => FeederState::Failed,
        };
        proof {
            assert(self@ =~~= (ParserModel { state: state_after_feed_code(code), ..old(self)@ }));
        }
        outcome
    }

    /// Opens the script-injection window: the bridge calls this when it
    /// delivers a script-completion notification, before the client's
    /// handler runs. Refused when no engine call is on the stack, since
    /// callbacks only happen inside one.
    pub fn enter_script_window(&mut self) -> (outcome: Result<(), EngineError>)
        ensures
            old(self)@.state is Feeding && old(self)@.script_depth < usize::MAX ==> outcome
                == Result::<(), EngineError>::Ok(()) && final(self)@ == (ParserModel {
                script_depth: old(self)@.script_depth + 1,
                ..old(self)@
            }),
            !(old(self)@.state is Feeding && old(self)@.script_depth < usize::MAX) ==> outcome
                == Result::<(), EngineError>::Err(EngineError::ProtocolViolation) && final(self)@
                == old(self)@,
    {
        let feeding = match self.state {
            FeederState::Feeding => true,
            _ => false,
        };
        if feeding && self.script_depth < usize::MAX {
            self.script_depth = self.script_depth + 1;
            proof {
                assert(self@ =~~= (ParserModel {
                    script_depth: old(self)@.script_depth + 1,
                    ..old(self)@
                }));
            }
            Ok(())
        } else {
            Err(EngineError::ProtocolViolation)
        }
    }

    /// Closes the script-injection window when the client's handler
    /// returns. Refused when no window is open.
    pub fn exit_script_window(&mut self) -> (outcome: Result<(), EngineError>)
        ensures
            old(self)@.script_depth > 0 ==> outcome == Result::<(), EngineError>::Ok(()) && final(self)@ == (ParserModel { script_depth: old(self)@.script_depth - 1, ..old(self)@ }),
            old(self)@.script_depth == 0 ==> outcome == Result::<(), EngineError>::Err(
                EngineError::ProtocolViolation,
            ) && final(self)@ == old(self)@,
    {
        if self.script_depth > 0 {
            self.script_depth = self.script_depth - 1;
            proof {
                assert(self@ =~~= (ParserModel {
                    script_depth: old(self)@.script_depth - 1,
                    ..old(self)@
                }));
            }
            Ok(())
        } else {
            Err(EngineError::ProtocolViolation)
        }
    }

    /// The decision to insert a chunk ahead of the buffered remainder.
    /// Valid only inside the synchronous extent of a script-completion
    /// notification; anywhere else it is a protocol violation and is
    /// refused without any effect — never silently accepted.
    pub fn insert_chunk(&mut self, data: &Vec<u8>) -> (outcome: Result<(), EngineError>)
        ensures
            old(self)@.script_depth > 0 && old(self)@.state is Feeding ==> outcome
                == Result::<(), EngineError>::Ok(()) && final(self)@ == (ParserModel {
                inserted: old(self)@.inserted + data@,
                ..old(self)@
            }),
            !(old(self)@.script_depth > 0 && old(self)@.state is Feeding) ==> outcome
                == Result::<(), EngineError>::Err(EngineError::ProtocolViolation) && final(self)@
                == old(self)@,
            old(self)@.script_depth == 0 ==> outcome == Result::<(), EngineError>::Err(
                EngineError::ProtocolViolation,
            ),
    {
        let feeding = match self.state {
            FeederState::Feeding => true,
            _ => false,
        };
        if self.script_depth > 0 && feeding {
            self.inserted = Ghost(self.inserted@ + data@);
            proof {
                assert(self@ =~~= (ParserModel {
                    inserted: old(self)@.inserted + data@,
                    ..old(self)@
                }));
            }
            Ok(())
        } else {
            Err(EngineError::ProtocolViolation)
        }
    }

    /// Interprets the status code the engine answered an insert with. The
    /// outer feed call stays on the stack on success; a failure marks the
    /// handle failed. Refused outside the script-injection window.
    pub fn insert_chunk_status(&mut self, code: i32) -> (outcome: Result<
        FeedOutcome,
        EngineError,
    >)
        ensures
            old(self)@.script_depth > 0 && old(self)@.state is Feeding ==> outcome
                == feed_outcome_of_code(code) && final(self)@ == (ParserModel {
                state: if feed_outcome_of_code(code) is Err {
                    FeederState::Failed
                } else {
                    FeederState::Feeding
                },
                ..old(self)@
            }),
            !(old(self)@.script_depth > 0 && old(self)@.state is Feeding) ==> outcome
                == Result::<FeedOutcome, EngineError>::Err(EngineError::ProtocolViolation)
                && final(self)@ == old(self)@,
    {
        let feeding = match self.state {
            FeederState::Feeding => true,
            _ => false,
        };
        if !(self.script_depth > 0 && feeding) {
            return Err(EngineError::ProtocolViolation);
        }
        let outcome = self.interpret_feed_code(code);
        if outcome.is_err() {
            self.state = FeederState::Failed;
        }
        proof {
            assert(self@ =~~= (ParserModel {
                state: if feed_outcome_of_code(code) is Err {
                    FeederState::Failed
                } else {
                    FeederState::Feeding
                },
                ..old(self)@
            }));
        }
        outcome
    }

    /// The decision to signal end of input. The engine call that runs the
    /// final tree-construction steps is on the stack until
    /// [`Parser::completed_status`] reports how it ended. Afterwards
    /// feeding and inserting are over. Refused in the same situations a
    /// feed would be.
    pub fn completed(&mut self) -> (outcome: Result<(), EngineError>)
        ensures
            feed_ready(old(self)@) ==> outcome == Result::<(), EngineError>::Ok(()) && final(self)@ == (ParserModel {
                state: FeederState::Feeding,
                started: true,
                completing: true,
                ..old(self)@
            }),
            !feed_ready(old(self)@) ==> outcome == Result::<(), EngineError>::Err(
                EngineError::ProtocolViolation,
            ) && final(self)@ == old(self)@,
    {
        let ready = self.installed && self.script_depth == 0 && (match self.state {
            FeederState::Idle => true,
            FeederState::NeedsMoreData => true,
            FeederState::Paused => true,
            _ => false,
        });
        if !ready {
            return Err(EngineError::ProtocolViolation);
        }
        self.state = FeederState::Feeding;
        self.started = true;
        self.completing = true;
        proof {
            assert(self@ =~~= (ParserModel {
                state: FeederState::Feeding,
                started: true,
                completing: true,
                ..old(self)@
            }));
        }
        Ok(())
    }

    /// Interprets the status code the engine answered the completion call
    /// with: success completes the document; anything else — the final
    /// tree-construction steps admit no pause or data request — fails the
    /// handle. Refused unless a completion call is on the stack.
    pub fn completed_status(&mut self, code: i32) -> (outcome: Result<(), EngineError>)
        ensures
            old(self)@.state is Feeding && old(self)@.completing ==> final(self)@ == (ParserModel {
                state: if code == 0 {
                    FeederState::Completed
                } else {
                    FeederState::Failed
                },
                completing: false,
                ..old(self)@
            }) && outcome == (if code == 0 {
                Result::<(), EngineError>::Ok(())
            } else {
                match feed_outcome_of_code(code) {
                    Ok(_) => Result::<(), EngineError>::Err(EngineError::Unknown),
                    Err(e) => Result::<(), EngineError>::Err(e),
                }
            }),
            !(old(self)@.state is Feeding && old(self)@.completing) ==> outcome
                == Result::<(), EngineError>::Err(EngineError::ProtocolViolation) && final(self)@
                == old(self)@,
    {
        let on_stack = match self.state {
            FeederState::Feeding => self.completing,
            _ => false,
        };
        if !on_stack {
            return Err(EngineError::ProtocolViolation);
        }
        self.completing = false;
        if code == 0 {
            self.state = FeederState::Completed;
            proof {
                assert(self@ =~~= (ParserModel {
                    state: FeederState::Completed,
                    completing: false,
                    ..old(self)@
                }));
            }
            Ok(())
        } else {
            self.state = FeederState::Failed;
            proof {
                assert(self@ =~~= (ParserModel {
                    state: FeederState::Failed,
                    completing: false,
                    ..old(self)@
                }));
            }
            match self.interpret_feed_code(code) {
                Ok(_) => Err(EngineError::Unknown),
                Err(e) => Err(e),
            }
        }
    }

    /// Whether the engine may be destroyed now: only once no engine call
    /// is on the stack and no callback is being delivered.
    pub fn can_destroy(&self) -> (allowed: bool)
        ensures
            allowed == (!(self@.state is Feeding) && self@.script_depth == 0),
    {
        let feeding = match self.state {
            FeederState::Feeding => true,
            _ => false,
        };
        !feeding && self.script_depth == 0
    }

    /// Where the feeder stands.
    pub fn state(&self) -> (state: FeederState)
        ensures
            state == self@.state,
    {
        self.state
    }

    /// Whether a tree-construction capability is installed.
    pub fn is_installed(&self) -> (installed: bool)
        ensures
            installed == self@.installed,
    {
        self.installed
    }

    /// How many script-injection windows are open.
    pub fn open_script_windows(&self) -> (depth: usize)
        ensures
            depth == self@.script_depth,
    {
        self.script_depth
    }

    /// The charset hint the handle was created with.
    pub fn encoding_hint(&self) -> (hint: &Vec<u8>)
        ensures
            hint@ == self@.encoding_hint,
    {
        &self.encoding_hint
    }

    /// Whether the engine may override the charset hint by sniffing.
    pub fn encoding_fixed(&self) -> (fixed: bool)
        ensures
            fixed == self@.fix_encoding,
    {
        self.fix_encoding
    }

    /// The recorded configuration: scripting, styling, document root.
    pub fn scripting_enabled(&self) -> (enabled: bool)
        ensures
            enabled == self@.scripting,
    {
        self.scripting
    }

    /// Whether styling is recorded as enabled.
    pub fn styling_enabled(&self) -> (enabled: bool)
        ensures
            enabled == self@.styling,
    {
        self.styling
    }

    /// The recorded document root node.
    pub fn document_node(&self) -> (node: NodeDataPtr)
        ensures
            node == self@.document_node,
    {
        self.document_node
    }

    /// Decodes a feed status code into its outcome; shared by the feed,
    /// insert and completion paths.
    fn interpret_feed_code(&self, code: i32) -> (outcome: Result<FeedOutcome, EngineError>)
        ensures
            outcome == feed_outcome_of_code(code),
    {
        match crate::status::status_from_code(code) {
            Some(EngineStatus::Success) => Ok(FeedOutcome::NeedsMoreData),
            Some(EngineStatus::NeedData) => Ok(FeedOutcome::NeedsMoreData),
            Some(EngineStatus::Paused) => Ok(FeedOutcome::Paused),
            Some(EngineStatus::EncodingChange) => Ok(FeedOutcome::EncodingChanged),
            Some(EngineStatus::NoMem) => Err(EngineError::NoMemory),
            Some(EngineStatus::BadParm) => Err(EngineError::BadParameter),
            Some(EngineStatus::Invalid) => Err(EngineError::Invalid),
            Some(EngineStatus::BadEncoding) => Err(EngineError::BadEncoding),
            Some(EngineStatus::Reprocess) => Err(EngineError::Unknown),
            Some(EngineStatus::FileNotFound) => Err(EngineError::Unknown),
            Some(EngineStatus::Unknown) => Err(EngineError::Unknown),
            None => Err(EngineError::Unknown),
        }
    }
}

} // verus!
