//! The draft session and its proposals.

use crate::context::{
    kv_cache_range, DecodeError, KvCacheConversionError, KvCacheRange, LlamaContextInfo,
    LlamaContextType,
};
use crate::float_bits::F32Bits;
use crate::mtp::config::MtpSessionConfig;
use crate::mtp::contexts::{check_config, validate_contexts};
use crate::mtp::error::MtpSessionError;
use crate::speculative::{SpeculativeContextCapacity, SpeculativeStateError};
use crate::token::LlamaToken;
use vstd::prelude::*;

verus! {

/// A draft session's configuration and its pending proposals.
///
/// A sequence has a pending proposal from a draft that yielded tokens until
/// it was accepted.
#[derive(Debug)]
pub struct MtpSession {
    config: MtpSessionConfig,
    pending_proposals: Vec<Option<usize>>,
}

/// Model of an [`MtpSession`].
pub struct Session {
    /// The configuration passed at construction.
    pub config: MtpSessionConfig,
    /// For each sequence, the length of the proposal that awaits acceptance.
    pub pending: Seq<Option<usize>>,
}

impl View for MtpSession {
    type V = Session;

    closed spec fn view(&self) -> Session {
        Session { config: self.config, pending: self.pending_proposals@ }
    }
}

/// The native draft call that a session asks for.
#[derive(Debug, Clone, Copy, PartialEq, Eq, Structural)]
pub struct DraftCall {
    /// The sequence to draft for.
    pub seq_id: i32,
    /// Tokens already in the target's KV cache for the sequence.
    pub n_past: i32,
    /// Id of the last token accepted on the target.
    pub id_last: i32,
    /// Length of the token buffer, and the most tokens that may be drafted.
    pub capacity: i32,
}

/// What a native draft call came back with.
#[derive(Debug)]
pub struct DraftReply {
    /// The call succeeded.
    pub ok: bool,
    /// The token buffer, as long as the call's capacity.
    pub tokens: Vec<i32>,
    /// The number of tokens drafted, as the call reports it.
    pub count: i32,
}

/// The first sequence with a pending proposal.
pub open spec fn first_pending(pending: Seq<Option<usize>>) -> Option<int>
    decreases pending.len(),
{
    if pending.len() == 0 {
        None
    } else {
        match first_pending(pending.drop_last()) {
            Some(i) => Some(i),
            None => if pending.last() is Some {
                Some(pending.len() - 1)
            } else {
                None
            },
        }
    }
}

/// The error that a native call's failure is reported as.
pub open spec fn failure(ok: bool, error: MtpSessionError) -> Option<MtpSessionError> {
    if ok {
        None
    } else {
        Some(error)
    }
}

/// How many tokens a draft hands out that reported `count`: a negative count
/// is none, and no count exceeds the configured maximum.
pub open spec fn handed_out(config: MtpSessionConfig, count: i32) -> int {
    if count <= 0 {
        0
    } else if count <= config.n_draft_max {
        count as int
    } else {
        config.n_draft_max as int
    }
}

impl Session {
    /// Each sequence has its place, proposals are neither empty nor longer than
    /// the configured maximum, and only sequences that a caller can name have
    /// one.
    pub open spec fn wf(self) -> bool {
        &&& self.pending.len() == self.config.n_seq
        &&& self.config.n_draft_max > 0
        &&& forall|i: int|
            0 <= i < self.pending.len() ==> (#[trigger] self.pending[i] matches Some(n) ==> 0 < n
                <= self.config.n_draft_max && i <= i32::MAX)
    }

    /// A session in which nothing has been drafted.
    pub open spec fn fresh(config: MtpSessionConfig) -> Session {
        Session { config, pending: Seq::new(config.n_seq as nat, |i: int| None) }
    }

    /// `seq_id` names a sequence of the session.
    pub open spec fn has_seq(self, seq_id: i32) -> bool {
        0 <= seq_id < self.config.n_seq
    }

    /// No proposal is pending.
    pub open spec fn settled(self) -> bool {
        forall|i: int| 0 <= i < self.pending.len() ==> (#[trigger] self.pending[i]) is None
    }

    /// The error for a sequence id out of range.
    pub open spec fn seq_error(self, seq_id: i32) -> Option<MtpSessionError> {
        if self.has_seq(seq_id) {
            None
        } else {
            Some(MtpSessionError::BadSeqId { seq_id, n_seq: self.config.n_seq })
        }
    }

    /// The error for work in flight: a pending proposal first, then what the
    /// native session says of itself.
    pub open spec fn busy_error(self, native_quiescent: bool) -> Option<MtpSessionError> {
        match first_pending(self.pending) {
            Some(i) => Some(MtpSessionError::ProposalPending { seq_id: i as i32 }),
            None => if native_quiescent {
                None
            } else {
                Some(MtpSessionError::State(SpeculativeStateError::NotQuiescent))
            },
        }
    }

    /// The error for reading or writing a sequence's continuation state.
    pub open spec fn state_error(self, seq_id: i32, native_quiescent: bool) -> Option<
        MtpSessionError,
    > {
        if self.seq_error(seq_id) is Some {
            self.seq_error(seq_id)
        } else {
            self.busy_error(native_quiescent)
        }
    }

    /// The error for beginning a generation.
    pub open spec fn begin_error(
        self,
        seq_id: i32,
        prompt_tokens: usize,
        max_prompt_tokens: usize,
        native_quiescent: bool,
    ) -> Option<MtpSessionError> {
        if self.state_error(seq_id, native_quiescent) is Some {
            self.state_error(seq_id, native_quiescent)
        } else if prompt_tokens > max_prompt_tokens {
            Some(
                MtpSessionError::PromptTooLong {
                    size: prompt_tokens,
                    maximum: max_prompt_tokens,
                },
            )
        } else {
            None
        }
    }

    /// The error for drafting.
    pub open spec fn draft_error(self, seq_id: i32) -> Option<MtpSessionError> {
        if self.seq_error(seq_id) is Some {
            self.seq_error(seq_id)
        } else if self.pending[seq_id as int] is Some {
            Some(MtpSessionError::ProposalPending { seq_id })
        } else {
            None
        }
    }

    /// The native draft call.
    pub open spec fn draft_call(self, seq_id: i32, n_past: i32, id_last: LlamaToken) -> DraftCall {
        DraftCall { seq_id, n_past, id_last: id_last.0, capacity: self.config.n_draft_max }
    }

    /// The session after a successful draft that reported `count` tokens: the
    /// tokens handed out, if any, are the sequence's pending proposal.
    pub open spec fn after_draft(self, seq_id: i32, count: i32) -> Session {
        let n = handed_out(self.config, count);
        if n > 0 {
            Session { pending: self.pending.update(seq_id as int, Some(n as usize)), ..self }
        } else {
            self
        }
    }

    /// The tokens of a successful draft: as many of the buffer's first as were
    /// reported, up to the configured maximum.
    pub open spec fn drafted(self, tokens: Seq<i32>, count: i32) -> Seq<LlamaToken> {
        tokens.take(handed_out(self.config, count)).map_values(|id: i32| LlamaToken(id))
    }

    /// The error for accepting `n_accepted` tokens of a proposal.
    pub open spec fn accept_error(self, seq_id: i32, n_accepted: u16) -> Option<MtpSessionError> {
        if self.seq_error(seq_id) is Some {
            self.seq_error(seq_id)
        } else {
            match self.pending[seq_id as int] {
                None => Some(MtpSessionError::NoPendingProposal { seq_id }),
                Some(proposed) => if n_accepted > proposed {
                    Some(MtpSessionError::AcceptedTooMany { accepted: n_accepted, proposed })
                } else {
                    None
                },
            }
        }
    }

    /// The session after a proposal was accepted.
    pub open spec fn after_accept(self, seq_id: i32) -> Session {
        Session { pending: self.pending.update(seq_id as int, None), ..self }
    }
}

/// What [`first_pending`] finds is the least index of a proposal.
proof fn lemma_first_pending(pending: Seq<Option<usize>>)
    ensures
        first_pending(pending) matches Some(i) ==> 0 <= i < pending.len() && pending[i] is Some
            && forall|j: int| 0 <= j < i ==> (#[trigger] pending[j]) is None,
        first_pending(pending) is None ==> forall|j: int|
            0 <= j < pending.len() ==> (#[trigger] pending[j]) is None,
    decreases pending.len(),
{
    if pending.len() > 0 {
        let front = pending.drop_last();
        lemma_first_pending(front);
        assert forall|j: int| 0 <= j < front.len() implies front[j] == #[trigger] pending[j] by {}
    }
}

/// The shared configuration rules have passed `config`.
pub open spec fn config_passed<V>(config: MtpSessionConfig, config_rules: V) -> bool where
    V: FnOnce(u32, i32, i32, F32Bits) -> Result<(), &'static str>,
 {
    exists|ruling: Result<(), &'static str>|
        #[trigger]
        call_ensures(
            config_rules,
            (config.n_seq, config.n_draft_max, config.n_min, config.p_min),
            ruling,
        ) && crate::mtp::contexts::config_error(config, ruling) is None
}

/// The capacity rules have passed the contexts for the draft length of
/// `config`.
pub open spec fn capacity_passed<C>(
    target: LlamaContextInfo,
    draft: LlamaContextInfo,
    config: MtpSessionConfig,
    capacity_rules: C,
) -> bool where
    C: FnOnce(SpeculativeContextCapacity, SpeculativeContextCapacity, u32) -> Result<
        (),
        &'static str,
    >,
 {
    exists|fit: Result<(), &'static str>|
        #[trigger]
        call_ensures(
            capacity_rules,
            (
                crate::mtp::contexts::capacity(target),
                crate::mtp::contexts::capacity(draft),
                config.n_draft_max as u32,
            ),
            fit,
        ) && crate::mtp::contexts::capacity_error(target, draft, fit) is None
}

/// Configuration and contexts have passed every check. Only then may the
/// native session be opened.
pub open spec fn passed<V, C>(
    target: LlamaContextInfo,
    draft: LlamaContextInfo,
    config: MtpSessionConfig,
    config_rules: V,
    capacity_rules: C,
) -> bool where
    V: FnOnce(u32, i32, i32, F32Bits) -> Result<(), &'static str>,
    C: FnOnce(SpeculativeContextCapacity, SpeculativeContextCapacity, u32) -> Result<
        (),
        &'static str,
    >,
 {
    &&& config_passed(config, config_rules)
    &&& crate::mtp::contexts::role_error(target, draft, config) is None
    &&& capacity_passed(target, draft, config, capacity_rules)
}

/// What a constructor returns: the error of the shared configuration rules if
/// they have one, else that of the contexts' roles, else that of the capacity
/// rules, and otherwise a session or [`MtpSessionError::Init`], as opening the
/// native session with this configuration worked or not.
pub open spec fn session_outcome<V, C, O>(
    target: LlamaContextInfo,
    draft: LlamaContextInfo,
    config: MtpSessionConfig,
    config_rules: V,
    capacity_rules: C,
    create: O,
    session: Result<MtpSession, MtpSessionError>,
) -> bool where
    V: FnOnce(u32, i32, i32, F32Bits) -> Result<(), &'static str>,
    C: FnOnce(SpeculativeContextCapacity, SpeculativeContextCapacity, u32) -> Result<
        (),
        &'static str,
    >,
    O: FnOnce(MtpSessionConfig) -> bool,
 {
    exists|ruling: Result<(), &'static str>|
        #[trigger]
        call_ensures(
            config_rules,
            (config.n_seq, config.n_draft_max, config.n_min, config.p_min),
            ruling,
        ) && {
            if crate::mtp::contexts::config_error(config, ruling) is Some {
                crate::mtp::error::reports(
                    session,
                    crate::mtp::contexts::config_error(config, ruling),
                )
            } else if crate::mtp::contexts::role_error(target, draft, config) is Some {
                crate::mtp::error::reports(
                    session,
                    crate::mtp::contexts::role_error(target, draft, config),
                )
            } else {
                exists|fit: Result<(), &'static str>|
                    #[trigger]
                    call_ensures(
                        capacity_rules,
                        (
                            crate::mtp::contexts::capacity(target),
                            crate::mtp::contexts::capacity(draft),
                            config.n_draft_max as u32,
                        ),
                        fit,
                    ) && {
                        if crate::mtp::contexts::capacity_error(target, draft, fit) is Some {
                            crate::mtp::error::reports(
                                session,
                                crate::mtp::contexts::capacity_error(target, draft, fit),
                            )
                        } else {
                            exists|opened: bool|
                                #[trigger]
                                call_ensures(create, (config,), opened)
                                    && crate::mtp::error::reports(
                                    session,
                                    failure(opened, MtpSessionError::Init),
                                )
                        }
                    }
            }
        }
}

/// Turns the success of a native call into a result.
pub fn outcome(ok: bool, error: MtpSessionError) -> (result: Result<(), MtpSessionError>)
    ensures
        crate::mtp::error::reports(result, failure(ok, error)),
{
    if ok {
        Ok(())
    } else {
        Err(error)
    }
}

impl MtpSession {
    /// A session over a native session that was asked for with `config`.
    ///
    /// # Errors
    ///
    /// [`MtpSessionError::Init`] where the native session was not opened.
    pub fn opened(config: MtpSessionConfig, opened: bool) -> (session: Result<
        Self,
        MtpSessionError,
    >)
        requires
            config.n_draft_max > 0,
        ensures
            crate::mtp::error::reports(session, failure(opened, MtpSessionError::Init)),
            session matches Ok(session) ==> session@ == Session::fresh(config) && session@.wf(),
    {
        if !opened {
            return Err(MtpSessionError::Init);
        }
        let session = MtpSession {
            config,
            pending_proposals: vec![None; config.n_seq as usize],
        };
        assert(session@.pending =~= Session::fresh(config).pending);
        Ok(session)
    }

    /// Construct a draft session with upstream defaults for `n_min` and
    /// `p_min`.
    ///
    /// # Errors
    ///
    /// As [`Self::new_with_config`].
    pub fn new<V, C, O>(
        target: &LlamaContextInfo,
        draft: &LlamaContextInfo,
        n_seq: u32,
        n_draft_max: i32,
        config_rules: V,
        capacity_rules: C,
        create: O,
    ) -> (session: Result<Self, MtpSessionError>) where
        V: FnOnce(u32, i32, i32, F32Bits) -> Result<(), &'static str>,
        C: FnOnce(SpeculativeContextCapacity, SpeculativeContextCapacity, u32) -> Result<
            (),
            &'static str,
        >,
        O: FnOnce(MtpSessionConfig) -> bool,

        requires
            call_requires(config_rules, (n_seq, n_draft_max, 0i32, F32Bits(0))),
            config_passed(
                (MtpSessionConfig { n_seq, n_draft_max, n_min: 0, p_min: F32Bits(0) }),
                config_rules,
            ) && crate::mtp::contexts::role_error(
                *target,
                *draft,
                (MtpSessionConfig { n_seq, n_draft_max, n_min: 0, p_min: F32Bits(0) }),
            ) is None ==> call_requires(
                capacity_rules,
                (
                    crate::mtp::contexts::capacity(*target),
                    crate::mtp::contexts::capacity(*draft),
                    n_draft_max as u32,
                ),
            ),
            passed(
                *target,
                *draft,
                (MtpSessionConfig { n_seq, n_draft_max, n_min: 0, p_min: F32Bits(0) }),
                config_rules,
                capacity_rules,
            ) ==> call_requires(
                create,
                (MtpSessionConfig { n_seq, n_draft_max, n_min: 0, p_min: F32Bits(0) },),
            ),
        ensures
            session_outcome(
                *target,
                *draft,
                (MtpSessionConfig { n_seq, n_draft_max, n_min: 0, p_min: F32Bits(0) }),
                config_rules,
                capacity_rules,
                create,
                session,
            ),
            session matches Ok(session) ==> session@ == Session::fresh(
                (MtpSessionConfig { n_seq, n_draft_max, n_min: 0, p_min: F32Bits(0) }),
            ) && session@.wf(),
            session is Ok ==> {
                &&& target.context_type == LlamaContextType::Default
                &&& draft.context_type == LlamaContextType::Mtp
                &&& target.n_seq_max >= n_seq
                &&& draft.n_seq_max == n_seq
                &&& target.n_embd_out == draft.n_embd_out
                &&& n_draft_max > 0
            },
    {
        Self::new_with_config(
            target,
            draft,
            MtpSessionConfig::new(n_seq, n_draft_max),
            config_rules,
            capacity_rules,
            create,
        )
    }

    /// Construct a draft session with full speculative draft parameters.
    ///
    /// `target` must be a default context and `draft` a multi-token-prediction
    /// context of the same model. `config_rules` and `capacity_rules` are the
    /// rules that all speculative sessions share; `create` opens the native
    /// session and tells whether that worked. It is called only where both
    /// rules have passed and the contexts are in order.
    ///
    /// # Errors
    ///
    /// [`MtpSessionError::InvalidConfig`],
    /// [`MtpSessionError::IncompatibleContexts`] or [`MtpSessionError::Init`].
    pub fn new_with_config<V, C, O>(
        target: &LlamaContextInfo,
        draft: &LlamaContextInfo,
        config: MtpSessionConfig,
        config_rules: V,
        capacity_rules: C,
        create: O,
    ) -> (session: Result<Self, MtpSessionError>) where
        V: FnOnce(u32, i32, i32, F32Bits) -> Result<(), &'static str>,
        C: FnOnce(SpeculativeContextCapacity, SpeculativeContextCapacity, u32) -> Result<
            (),
            &'static str,
        >,
        O: FnOnce(MtpSessionConfig) -> bool,

        requires
            call_requires(
                config_rules,
                (config.n_seq, config.n_draft_max, config.n_min, config.p_min),
            ),
            config_passed(config, config_rules) && crate::mtp::contexts::role_error(
                *target,
                *draft,
                config,
            ) is None ==> call_requires(
                capacity_rules,
                (
                    crate::mtp::contexts::capacity(*target),
                    crate::mtp::contexts::capacity(*draft),
                    config.n_draft_max as u32,
                ),
            ),
            passed(*target, *draft, config, config_rules, capacity_rules) ==> call_requires(
                create,
                (config,),
            ),
        ensures
            session_outcome(
                *target,
                *draft,
                config,
                config_rules,
                capacity_rules,
                create,
                session,
            ),
            session matches Ok(session) ==> session@ == Session::fresh(config) && session@.wf(),
            session is Ok ==> {
                &&& target.context_type == LlamaContextType::Default
                &&& draft.context_type == LlamaContextType::Mtp
                &&& target.n_seq_max >= config.n_seq
                &&& draft.n_seq_max == config.n_seq
                &&& target.n_embd_out == draft.n_embd_out
                &&& config.n_draft_max > 0
            },
    {
        let ruling = config_rules(config.n_seq, config.n_draft_max, config.n_min, config.p_min);
        match check_config(&config, ruling) {
            Ok(_) => {},
            Err(error) => return Err(error),
        }
        match validate_contexts(target, draft, &config, capacity_rules) {
            Ok(_) => {},
            Err(error) => return Err(error),
        }
        let opened = create(config);
        Self::opened(config, opened)
    }

    /// Session configuration passed at construction.
    #[must_use]
    pub fn config(&self) -> (config: MtpSessionConfig)
        ensures
            config == self@.config,
    {
        self.config
    }

    /// Configured maximum number of tokens drafted per [`draft`](Self::draft)
    /// call.
    #[must_use]
    pub fn n_draft_max(&self) -> (n: i32)
        ensures
            n == self@.config.n_draft_max,
    {
        self.config.n_draft_max
    }

    /// Configured minimum draft tokens (`n_min`).
    #[must_use]
    pub fn n_min(&self) -> (n: i32)
        ensures
            n == self@.config.n_min,
    {
        self.config.n_min
    }

    /// Configured draft probability floor (`p_min`).
    #[must_use]
    pub fn p_min(&self) -> (p: F32Bits)
        ensures
            p == self@.config.p_min,
    {
        self.config.p_min
    }

    /// Configured number of sequences.
    #[must_use]
    pub fn n_seq(&self) -> (n: u32)
        ensures
            n == self@.config.n_seq,
    {
        self.config.n_seq
    }

    fn check_seq(&self, seq_id: i32) -> (checked: Result<(), MtpSessionError>)
        ensures
            crate::mtp::error::reports(checked, self@.seq_error(seq_id)),
    {
        if seq_id < 0 || seq_id as u32 >= self.config.n_seq {
            return Err(MtpSessionError::BadSeqId { seq_id, n_seq: self.config.n_seq });
        }
        Ok(())
    }

    fn sequence_index(&self, seq_id: i32) -> (index: Result<usize, MtpSessionError>)
        ensures
            crate::mtp::error::reports(index, self@.seq_error(seq_id)),
            index matches Ok(i) ==> i == seq_id,
    {
        match self.check_seq(seq_id) {
            Ok(_) => Ok(seq_id as usize),
            Err(error) => Err(error),
        }
    }

    /// Position of the first pending proposal.
    fn find_pending(&self) -> (found: Option<usize>)
        ensures
            match found {
                Some(i) => first_pending(self@.pending) == Some(i as int) && i
                    < self@.pending.len(),
                None => first_pending(self@.pending) is None,
            },
    {
        let mut i: usize = 0;
        while i < self.pending_proposals.len()
            invariant
                i <= self.pending_proposals.len(),
                self@.pending == self.pending_proposals@,
                forall|j: int| 0 <= j < i ==> (#[trigger] self@.pending[j]) is None,
            decreases self.pending_proposals.len() - i,
        {
            if self.pending_proposals[i].is_some() {
                proof {
                    assert(self@.pending[i as int] is Some);
                    lemma_first_pending(self@.pending);
                }
                return Some(i);
            }
            i += 1;
        }
        proof {
            lemma_first_pending(self@.pending);
        }
        None
    }

    fn require_quiescent(&self, native_quiescent: bool) -> (checked: Result<(), MtpSessionError>)
        requires
            self@.wf(),
        ensures
            crate::mtp::error::reports(checked, self@.busy_error(native_quiescent)),
    {
        match self.find_pending() {
            Some(index) => {
                proof {
                    lemma_first_pending(self@.pending);
                }
                let seq_id: i32 = if index <= i32::MAX as usize {
                    index as i32
                } else {
                    i32::MAX
                };
                return Err(MtpSessionError::ProposalPending { seq_id });
            },
            None => {},
        }
        if !native_quiescent {
            return Err(MtpSessionError::State(SpeculativeStateError::NotQuiescent));
        }
        Ok(())
    }

    /// Returns `true` when every draft proposal has been completed, on the
    /// session's side and on the native one.
    #[must_use]
    pub fn is_quiescent(&self, native_quiescent: bool) -> (quiescent: bool)
        ensures
            quiescent == (self@.settled() && native_quiescent),
            quiescent <==> native_quiescent && forall|i: int|
                0 <= i < self@.pending.len() ==> (#[trigger] self@.pending[i]) is None,
    {
        proof {
            lemma_first_pending(self@.pending);
        }
        self.find_pending().is_none() && native_quiescent
    }

    /// Checks that a generation may begin on a sequence.
    ///
    /// # Errors
    ///
    /// A sequence id out of range, work in flight, or a prompt longer than
    /// `max_prompt_tokens`.
    pub fn check_begin(
        &self,
        seq_id: i32,
        prompt_tokens: usize,
        max_prompt_tokens: usize,
        native_quiescent: bool,
    ) -> (checked: Result<(), MtpSessionError>)
        requires
            self@.wf(),
        ensures
            crate::mtp::error::reports(
                checked,
                self@.begin_error(seq_id, prompt_tokens, max_prompt_tokens, native_quiescent),
            ),
    {
        match self.check_state_access(seq_id, native_quiescent) {
            Ok(_) => {},
            Err(error) => return Err(error),
        }
        if prompt_tokens > max_prompt_tokens {
            return Err(
                MtpSessionError::PromptTooLong { size: prompt_tokens, maximum: max_prompt_tokens },
            );
        }
        Ok(())
    }

    /// Call once at the start of a fresh generation with the prompt tokens that
    /// were just decoded into the target context.
    ///
    /// `max_prompt_tokens` is the safe prompt bound, `native_quiescent` what
    /// the native session says of itself, and `begin` the native call.
    ///
    /// # Errors
    ///
    /// As [`Self::check_begin`], or [`MtpSessionError::Begin`] where the native
    /// call failed.
    pub fn begin<F: FnOnce(i32, &[LlamaToken]) -> bool>(
        &mut self,
        seq_id: i32,
        prompt: &[LlamaToken],
        max_prompt_tokens: usize,
        native_quiescent: bool,
        begin: F,
    ) -> (result: Result<(), MtpSessionError>)
        requires
            old(self)@.wf(),
            old(self)@.begin_error(
                seq_id,
                prompt@.len() as usize,
                max_prompt_tokens,
                native_quiescent,
            ) is None ==> call_requires(begin, (seq_id, prompt)),
        ensures
            final(self)@ == old(self)@,
            ({
                let refused = old(self)@.begin_error(
                    seq_id,
                    prompt@.len() as usize,
                    max_prompt_tokens,
                    native_quiescent,
                );
                if refused is Some {
                    crate::mtp::error::reports(result, refused)
                } else {
                    exists|ok: bool| #[trigger]
                        call_ensures(begin, (seq_id, prompt), ok) && crate::mtp::error::reports(
                            result,
                            failure(ok, MtpSessionError::Begin),
                        )
                }
            }),
    {
        match self.check_begin(seq_id, prompt.len(), max_prompt_tokens, native_quiescent) {
            Ok(_) => {},
            Err(error) => return Err(error),
        }
        let ok = begin(seq_id, prompt);
        outcome(ok, MtpSessionError::Begin)
    }

    /// Hand the session a batch that was just decoded on the target context.
    ///
    /// Call this after every successful decode on the target so that the draft
    /// state stays in step with the target's KV cache.
    ///
    /// # Errors
    ///
    /// Returns [`MtpSessionError::Process`] when the native session rejects the
    /// batch.
    pub fn process<B, F: FnOnce(B) -> bool>(&mut self, batch: B, process: F) -> (result: Result<
        (),
        MtpSessionError,
    >)
        requires
            call_requires(process, (batch,)),
        ensures
            final(self)@ == old(self)@,
            exists|ok: bool| #[trigger]
                call_ensures(process, (batch,), ok) && crate::mtp::error::reports(
                    result,
                    failure(ok, MtpSessionError::Process),
                ),
    {
        let ok = process(batch);
        outcome(ok, MtpSessionError::Process)
    }

    /// Decodes one batch on the target context.
    ///
    /// This remains available while a draft proposal is pending, because that
    /// is the target verification phase.
    ///
    /// # Errors
    ///
    /// Returns the target's [`DecodeError`].
    pub fn decode_target<B, F: FnOnce(B) -> Result<(), DecodeError>>(
        &mut self,
        batch: B,
        decode: F,
    ) -> (result: Result<(), MtpSessionError>)
        requires
            call_requires(decode, (batch,)),
        ensures
            final(self)@ == old(self)@,
            exists|decoded: Result<(), DecodeError>| #[trigger]
                call_ensures(decode, (batch,), decoded) && crate::mtp::error::reports(
                    result,
                    match decoded {
                        Ok(_) => None,
                        Err(error) => Some(MtpSessionError::Decode(error)),
                    },
                ),
    {
        match decode(batch) {
            Ok(_) => Ok(()),
            Err(error) => Err(MtpSessionError::Decode(error)),
        }
    }

    /// Decodes on the target and immediately harvests the same batch into the
    /// session.
    ///
    /// A failed decode is never passed to `process`. A successful one hands the
    /// batch back, and that batch is processed.
    ///
    /// # Errors
    ///
    /// Returns the target's [`DecodeError`] or a native process failure.
    pub fn decode_target_and_process<
        B,
        D: FnOnce(B) -> Result<B, DecodeError>,
        P: FnOnce(B) -> bool,
    >(&mut self, batch: B, decode: D, process: P) -> (result: Result<(), MtpSessionError>)
        requires
            call_requires(decode, (batch,)),
            forall|decoded: B| #[trigger]
                call_ensures(decode, (batch,), Ok::<B, DecodeError>(decoded)) ==> call_requires(
                    process,
                    (decoded,),
                ),
        ensures
            final(self)@ == old(self)@,
            match result {
                Err(MtpSessionError::Decode(error)) => call_ensures(
                    decode,
                    (batch,),
                    Err::<B, DecodeError>(error),
                ),
                _ => exists|decoded: B, ok: bool|
                    #![trigger call_ensures(process, (decoded,), ok)]
                    call_ensures(decode, (batch,), Ok::<B, DecodeError>(decoded)) && call_ensures(
                        process,
                        (decoded,),
                        ok,
                    ) && crate::mtp::error::reports(result, failure(ok, MtpSessionError::Process)),
            },
    {
        match decode(batch) {
            Ok(decoded) => self.process(decoded, process),
            Err(error) => Err(MtpSessionError::Decode(error)),
        }
    }

    /// Checks that a draft may be asked for, and says which native call to
    /// make.
    ///
    /// # Errors
    ///
    /// A sequence id out of range, or a proposal that is still pending.
    pub fn plan_draft(&self, seq_id: i32, n_past: i32, id_last: LlamaToken) -> (call: Result<
        DraftCall,
        MtpSessionError,
    >)
        requires
            self@.wf(),
        ensures
            crate::mtp::error::reports(call, self@.draft_error(seq_id)),
            call matches Ok(call) ==> call == self@.draft_call(seq_id, n_past, id_last),
    {
        let sequence_index = match self.sequence_index(seq_id) {
            Ok(index) => index,
            Err(error) => return Err(error),
        };
        if self.pending_proposals[sequence_index].is_some() {
            return Err(MtpSessionError::ProposalPending { seq_id });
        }
        let capacity: i32 = if self.config.n_draft_max > 0 {
            self.config.n_draft_max
        } else {
            0
        };
        Ok(DraftCall { seq_id, n_past, id_last: id_last.0, capacity })
    }

    /// Takes in what the native draft call came back with: the tokens become
    /// the sequence's pending proposal, unless there are none.
    ///
    /// # Errors
    ///
    /// [`MtpSessionError::Draft`] where the native call failed.
    pub fn finish_draft(&mut self, seq_id: i32, reply: DraftReply) -> (drafts: Result<
        Vec<LlamaToken>,
        MtpSessionError,
    >)
        requires
            old(self)@.wf(),
            old(self)@.draft_error(seq_id) is None,
            reply.tokens@.len() == old(self)@.config.n_draft_max,
        ensures
            crate::mtp::error::reports(drafts, failure(reply.ok, MtpSessionError::Draft)),
            final(self)@ == (if reply.ok {
                old(self)@.after_draft(seq_id, reply.count)
            } else {
                old(self)@
            }),
            final(self)@.wf(),
            drafts matches Ok(tokens) ==> tokens@ == old(self)@.drafted(reply.tokens@, reply.count)
                && tokens.len() <= old(self)@.config.n_draft_max,
            drafts matches Ok(tokens) ==> tokens.len() == vstd::math::min(
                vstd::math::max(reply.count as int, 0),
                old(self)@.config.n_draft_max as int,
            ),
            drafts matches Ok(tokens) ==> forall|i: int|
                0 <= i < tokens.len() ==> (#[trigger] tokens@[i]).0 == reply.tokens@[i],
    {
        if !reply.ok {
            return Err(MtpSessionError::Draft);
        }
        let n: usize = if reply.count <= 0 {
            0
        } else if reply.count <= self.config.n_draft_max {
            reply.count as usize
        } else {
            self.config.n_draft_max as usize
        };
        let mut tokens: Vec<LlamaToken> = Vec::new();
        let mut i: usize = 0;
        while i < n
            invariant
                i <= n <= reply.tokens.len(),
                tokens.len() == i,
                forall|j: int| 0 <= j < i ==> tokens@[j] == LlamaToken(reply.tokens@[j]),
            decreases n - i,
        {
            tokens.push(LlamaToken(reply.tokens[i]));
            i += 1;
        }
        assert(tokens@ =~= old(self)@.drafted(reply.tokens@, reply.count));
        if n > 0 {
            self.pending_proposals.set(seq_id as usize, Some(n));
        }
        Ok(tokens)
    }

    /// Generate up to [`n_draft_max`](Self::n_draft_max) speculative tokens.
    ///
    /// `n_past` is the number of tokens already in the target KV cache for
    /// `seq_id`. `id_last` is the last token accepted on the target. `draft` is
    /// the native call; its reply holds the buffer of the length that was asked
    /// for.
    ///
    /// # Errors
    ///
    /// As [`Self::plan_draft`], or [`MtpSessionError::Draft`] where the native
    /// call failed.
    pub fn draft<F: FnOnce(DraftCall) -> DraftReply>(
        &mut self,
        seq_id: i32,
        n_past: i32,
        id_last: LlamaToken,
        draft: F,
    ) -> (drafts: Result<Vec<LlamaToken>, MtpSessionError>)
        requires
            old(self)@.wf(),
            old(self)@.draft_error(seq_id) is None ==> call_requires(
                draft,
                (old(self)@.draft_call(seq_id, n_past, id_last),),
            ),
            old(self)@.draft_error(seq_id) is None ==> forall|reply: DraftReply| #[trigger]
                call_ensures(
                    draft,
                    (old(self)@.draft_call(seq_id, n_past, id_last),),
                    reply,
                ) ==> reply.tokens@.len() == old(self)@.config.n_draft_max,
        ensures
            final(self)@.wf(),
            old(self)@.draft_error(seq_id) is Some ==> final(self)@ == old(self)@
                && crate::mtp::error::reports(drafts, old(self)@.draft_error(seq_id)),
            old(self)@.draft_error(seq_id) is None ==> exists|reply: DraftReply|
                {
                    &&& #[trigger] call_ensures(
                        draft,
                        (old(self)@.draft_call(seq_id, n_past, id_last),),
                        reply,
                    )
                    &&& crate::mtp::error::reports(
                        drafts,
                        failure(reply.ok, MtpSessionError::Draft),
                    )
                    &&& final(self)@ == (if reply.ok {
                        old(self)@.after_draft(seq_id, reply.count)
                    } else {
                        old(self)@
                    })
                    &&& drafts matches Ok(tokens) ==> tokens@ == old(self)@.drafted(
                        reply.tokens@,
                        reply.count,
                    )
                    &&& drafts matches Ok(tokens) ==> tokens.len() == vstd::math::min(
                        vstd::math::max(reply.count as int, 0),
                        old(self)@.config.n_draft_max as int,
                    )
                },
            drafts matches Ok(tokens) ==> tokens.len() <= old(self)@.config.n_draft_max,
    {
        let call = match self.plan_draft(seq_id, n_past, id_last) {
            Ok(call) => call,
            Err(error) => return Err(error),
        };
        let reply = draft(call);
        self.finish_draft(seq_id, reply)
    }

    /// Checks that a prefix of a sequence's proposal may be accepted.
    ///
    /// # Errors
    ///
    /// A sequence id out of range, no proposal, or more tokens accepted than
    /// were proposed.
    pub fn check_accept(&self, seq_id: i32, n_accepted: u16) -> (checked: Result<
        (),
        MtpSessionError,
    >)
        requires
            self@.wf(),
        ensures
            crate::mtp::error::reports(checked, self@.accept_error(seq_id, n_accepted)),
    {
        let sequence_index = match self.sequence_index(seq_id) {
            Ok(index) => index,
            Err(error) => return Err(error),
        };
        let proposed: usize = match self.pending_proposals[sequence_index] {
            Some(proposed) => proposed,
            None => return Err(MtpSessionError::NoPendingProposal { seq_id }),
        };
        if n_accepted as usize > proposed {
            return Err(MtpSessionError::AcceptedTooMany { accepted: n_accepted, proposed });
        }
        Ok(())
    }

    /// Takes in whether the native session went along with an acceptance: if
    /// so, the proposal is settled.
    ///
    /// # Errors
    ///
    /// [`MtpSessionError::Accept`] where the native call failed.
    pub fn finish_accept(&mut self, seq_id: i32, ok: bool) -> (result: Result<(), MtpSessionError>)
        requires
            old(self)@.wf(),
            old(self)@.has_seq(seq_id),
        ensures
            crate::mtp::error::reports(result, failure(ok, MtpSessionError::Accept)),
            final(self)@ == (if ok {
                old(self)@.after_accept(seq_id)
            } else {
                old(self)@
            }),
            final(self)@.wf(),
    {
        if !ok {
            return Err(MtpSessionError::Accept);
        }
        self.pending_proposals.set(seq_id as usize, None);
        Ok(())
    }

    /// Inform the session how many draft tokens the target verifier accepted.
    ///
    /// Pass `0` when every draft was rejected. `accept` is the native call.
    ///
    /// # Errors
    ///
    /// As [`Self::check_accept`], or [`MtpSessionError::Accept`] where the
    /// native call failed.
    pub fn accept<F: FnOnce(i32, u16) -> bool>(
        &mut self,
        seq_id: i32,
        n_accepted: u16,
        accept: F,
    ) -> (result: Result<(), MtpSessionError>)
        requires
            old(self)@.wf(),
            old(self)@.accept_error(seq_id, n_accepted) is None ==> call_requires(
                accept,
                (seq_id, n_accepted),
            ),
        ensures
            final(self)@.wf(),
            old(self)@.accept_error(seq_id, n_accepted) is Some ==> final(self)@ == old(self)@
                && crate::mtp::error::reports(
                result,
                old(self)@.accept_error(seq_id, n_accepted),
            ),
            old(self)@.accept_error(seq_id, n_accepted) is None ==> exists|ok: bool|
                {
                    &&& #[trigger] call_ensures(accept, (seq_id, n_accepted), ok)
                    &&& crate::mtp::error::reports(result, failure(ok, MtpSessionError::Accept))
                    &&& final(self)@ == (if ok {
                        old(self)@.after_accept(seq_id)
                    } else {
                        old(self)@
                    })
                },
    {
        match self.check_accept(seq_id, n_accepted) {
            Ok(_) => {},
            Err(error) => return Err(error),
        }
        let ok = accept(seq_id, n_accepted);
        self.finish_accept(seq_id, ok)
    }

    /// Checks that a sequence's continuation state may be read or written.
    ///
    /// # Errors
    ///
    /// A sequence id out of range, or work in flight.
    pub fn check_state_access(&self, seq_id: i32, native_quiescent: bool) -> (checked: Result<
        (),
        MtpSessionError,
    >)
        requires
            self@.wf(),
        ensures
            crate::mtp::error::reports(checked, self@.state_error(seq_id, native_quiescent)),
    {
        match self.check_seq(seq_id) {
            Ok(_) => self.require_quiescent(native_quiescent),
            Err(error) => Err(error),
        }
    }

    /// Captures versioned per-sequence speculative continuation state.
    ///
    /// Target and draft context bytes are separate and must be checkpointed at
    /// the same quiescent boundary. `capture` is the native call.
    ///
    /// # Errors
    ///
    /// As [`Self::check_state_access`], or what the native call reports.
    pub fn speculative_state<F: FnOnce(i32) -> Result<Vec<u8>, SpeculativeStateError>>(
        &self,
        seq_id: i32,
        native_quiescent: bool,
        capture: F,
    ) -> (state: Result<Vec<u8>, MtpSessionError>)
        requires
            self@.wf(),
            self@.state_error(seq_id, native_quiescent) is None ==> call_requires(
                capture,
                (seq_id,),
            ),
        ensures
            self@.state_error(seq_id, native_quiescent) is Some ==> crate::mtp::error::reports(
                state,
                self@.state_error(seq_id, native_quiescent),
            ),
            self@.state_error(seq_id, native_quiescent) is None ==> match state {
                Ok(bytes) => call_ensures(
                    capture,
                    (seq_id,),
                    Ok::<Vec<u8>, SpeculativeStateError>(bytes),
                ),
                Err(MtpSessionError::State(error)) => call_ensures(
                    capture,
                    (seq_id,),
                    Err::<Vec<u8>, SpeculativeStateError>(error),
                ),
                _ => false,
            },
    {
        match self.check_state_access(seq_id, native_quiescent) {
            Ok(_) => {},
            Err(error) => return Err(error),
        }
        match capture(seq_id) {
            Ok(bytes) => Ok(bytes),
            Err(error) => Err(MtpSessionError::State(error)),
        }
    }

    /// Restores versioned per-sequence speculative continuation state.
    ///
    /// Restore the corresponding target and draft context bytes before calling
    /// this method. `restore` is the native call.
    ///
    /// # Errors
    ///
    /// As [`Self::check_state_access`], or what the native call reports.
    pub fn restore_speculative_state<
        F: FnOnce(i32, &[u8]) -> Result<(), SpeculativeStateError>,
    >(&mut self, seq_id: i32, state: &[u8], native_quiescent: bool, restore: F) -> (result: Result<
        (),
        MtpSessionError,
    >)
        requires
            old(self)@.wf(),
            old(self)@.state_error(seq_id, native_quiescent) is None ==> call_requires(
                restore,
                (seq_id, state),
            ),
        ensures
            final(self)@ == old(self)@,
            old(self)@.state_error(seq_id, native_quiescent) is Some
                ==> crate::mtp::error::reports(
                result,
                old(self)@.state_error(seq_id, native_quiescent),
            ),
            old(self)@.state_error(seq_id, native_quiescent) is None ==> exists|
                restored: Result<(), SpeculativeStateError>,
            | #[trigger]
                call_ensures(restore, (seq_id, state), restored) && crate::mtp::error::reports(
                    result,
                    match restored {
                        Ok(_) => None,
                        Err(error) => Some(MtpSessionError::State(error)),
                    },
                ),
    {
        match self.check_state_access(seq_id, native_quiescent) {
            Ok(_) => {},
            Err(error) => return Err(error),
        }
        match restore(seq_id, state) {
            Ok(_) => Ok(()),
            Err(error) => Err(MtpSessionError::State(error)),
        }
    }

    /// Removes a target-context KV range. `clear` is the target's own removal,
    /// and its answer is handed back.
    ///
    /// # Errors
    ///
    /// Returns a conversion error when an identifier or position exceeds
    /// native `i32` bounds.
    pub fn clear_target_kv_cache_seq<F: FnOnce(KvCacheRange) -> bool>(
        &mut self,
        seq_id: Option<u32>,
        p0: Option<u32>,
        p1: Option<u32>,
        clear: F,
    ) -> (cleared: Result<bool, KvCacheConversionError>)
        requires
            crate::context::kv_range(seq_id, p0, p1) matches Ok(range) ==> call_requires(
                clear,
                (range,),
            ),
        ensures
            final(self)@ == old(self)@,
            match crate::context::kv_range(seq_id, p0, p1) {
                Ok(range) => cleared matches Ok(answer) && call_ensures(clear, (range,), answer),
                Err(error) => cleared == Err::<bool, KvCacheConversionError>(error),
            },
    {
        match kv_cache_range(seq_id, p0, p1) {
            Ok(range) => Ok(clear(range)),
            Err(error) => Err(error),
        }
    }

    /// Removes a draft-context KV range. `clear` is the draft's own removal,
    /// and its answer is handed back.
    ///
    /// # Errors
    ///
    /// Returns a conversion error when an identifier or position exceeds
    /// native `i32` bounds.
    pub fn clear_draft_kv_cache_seq<F: FnOnce(KvCacheRange) -> bool>(
        &mut self,
        seq_id: Option<u32>,
        p0: Option<u32>,
        p1: Option<u32>,
        clear: F,
    ) -> (cleared: Result<bool, KvCacheConversionError>)
        requires
            crate::context::kv_range(seq_id, p0, p1) matches Ok(range) ==> call_requires(
                clear,
                (range,),
            ),
        ensures
            final(self)@ == old(self)@,
            match crate::context::kv_range(seq_id, p0, p1) {
                Ok(range) => cleared matches Ok(answer) && call_ensures(clear, (range,), answer),
                Err(error) => cleared == Err::<bool, KvCacheConversionError>(error),
            },
    {
        match kv_cache_range(seq_id, p0, p1) {
            Ok(range) => Ok(clear(range)),
            Err(error) => Err(error),
        }
    }
}

/// A fresh session is well formed and settled, and each of its sequences can
/// be drafted for.
pub proof fn law_fresh_session(config: MtpSessionConfig, seq_id: i32)
    requires
        config.n_draft_max > 0,
    ensures
        Session::fresh(config).wf(),
        Session::fresh(config).settled(),
        Session::fresh(config).busy_error(true) is None,
        Session::fresh(config).draft_error(seq_id) is None <==> 0 <= seq_id < config.n_seq,
{
    lemma_first_pending(Session::fresh(config).pending);
}

/// A session is free for `begin` and for state access exactly when it is
/// quiescent on both sides.
pub proof fn law_free_exactly_when_quiescent(session: Session, native_quiescent: bool)
    ensures
        session.busy_error(native_quiescent) is None <==> session.settled() && native_quiescent,
{
    lemma_first_pending(session.pending);
}

/// The pending proposal that is reported is the first one.
pub proof fn law_first_proposal_reported(session: Session, native_quiescent: bool, i: int)
    requires
        session.wf(),
        0 <= i < session.pending.len(),
        session.pending[i] is Some,
        forall|j: int| 0 <= j < i ==> (#[trigger] session.pending[j]) is None,
    ensures
        session.busy_error(native_quiescent) == Some(
            MtpSessionError::ProposalPending { seq_id: i as i32 },
        ),
{
    lemma_first_pending(session.pending);
}

/// Every step keeps a session well formed.
pub proof fn law_steps_keep_well_formed(session: Session, seq_id: i32, count: i32)
    requires
        session.wf(),
        session.has_seq(seq_id),
    ensures
        session.after_draft(seq_id, count).wf(),
        session.after_accept(seq_id).wf(),
{
}

/// A draft that yields tokens blocks its sequence until it is accepted: no
/// second draft, no `begin`, no state access on any sequence.
pub proof fn law_proposal_blocks(
    session: Session,
    seq_id: i32,
    count: i32,
    other: i32,
    prompt_tokens: usize,
    max_prompt_tokens: usize,
    native_quiescent: bool,
)
    requires
        session.wf(),
        session.draft_error(seq_id) is None,
        count > 0,
        session.has_seq(other),
    ensures
        ({
            let after = session.after_draft(seq_id, count);
            &&& after.draft_error(seq_id) == Some(MtpSessionError::ProposalPending { seq_id })
            &&& after.state_error(other, native_quiescent) matches Some(
                MtpSessionError::ProposalPending { .. },
            )
            &&& after.begin_error(other, prompt_tokens, max_prompt_tokens, native_quiescent)
                == after.state_error(other, native_quiescent)
        }),
{
    let after = session.after_draft(seq_id, count);
    assert(after.pending[seq_id as int] is Some);
    lemma_first_pending(after.pending);
}

/// A draft that yields nothing leaves no proposal behind.
pub proof fn law_empty_draft_leaves_no_proposal(
    session: Session,
    seq_id: i32,
    tokens: Seq<i32>,
    count: i32,
)
    requires
        session.wf(),
        count <= 0,
    ensures
        session.after_draft(seq_id, count) == session,
        session.drafted(tokens, count).len() == 0,
{
}

/// After a draft any prefix of the tokens that were handed out can be accepted
/// and no longer one, and accepting it puts the session back where it was
/// before the draft.
pub proof fn law_accept_undoes_draft(session: Session, seq_id: i32, count: i32, n_accepted: u16)
    requires
        session.wf(),
        session.draft_error(seq_id) is None,
        count > 0,
    ensures
        session.after_draft(seq_id, count).accept_error(seq_id, n_accepted) is None <==> n_accepted
            <= handed_out(session.config, count),
        session.after_draft(seq_id, count).after_accept(seq_id) == session,
{
    assert(session.after_draft(seq_id, count).after_accept(seq_id).pending =~= session.pending);
}

/// A proposal is accepted once: after that, there is none left to accept,
/// and the sequence can be drafted for again.
pub proof fn law_accept_once(session: Session, seq_id: i32, n_accepted: u16)
    requires
        session.wf(),
        session.has_seq(seq_id),
    ensures
        session.after_accept(seq_id).accept_error(seq_id, n_accepted) == Some(
            MtpSessionError::NoPendingProposal { seq_id },
        ),
        session.after_accept(seq_id).draft_error(seq_id) is None,
{
}

/// Drafting and accepting on one sequence leaves the others alone.
pub proof fn law_sequences_are_independent(
    session: Session,
    seq_id: i32,
    count: i32,
    other: i32,
    n_accepted: u16,
)
    requires
        session.wf(),
        session.has_seq(seq_id),
        other != seq_id,
    ensures
        session.after_draft(seq_id, count).draft_error(other) == session.draft_error(other),
        session.after_draft(seq_id, count).accept_error(other, n_accepted)
            == session.accept_error(other, n_accepted),
        session.after_accept(seq_id).draft_error(other) == session.draft_error(other),
        session.after_accept(seq_id).accept_error(other, n_accepted) == session.accept_error(
            other,
            n_accepted,
        ),
{
}

/// A draft never hands out more tokens than the configured maximum or than
/// were reported, and those it hands out are the buffer's first.
pub proof fn law_draft_bounded(session: Session, tokens: Seq<i32>, count: i32)
    requires
        session.wf(),
        tokens.len() == session.config.n_draft_max,
    ensures
        session.drafted(tokens, count).len() == handed_out(session.config, count),
        session.drafted(tokens, count).len() <= session.config.n_draft_max,
        count >= 0 ==> session.drafted(tokens, count).len() <= count,
        forall|i: int|
            0 <= i < session.drafted(tokens, count).len() ==> #[trigger] session.drafted(
                tokens,
                count,
            )[i] == LlamaToken(tokens[i]),
{
}

/// A pending proposal is exactly as long as the tokens that were handed out.
pub proof fn law_proposal_is_what_was_handed_out(
    session: Session,
    seq_id: i32,
    tokens: Seq<i32>,
    count: i32,
)
    requires
        session.wf(),
        session.draft_error(seq_id) is None,
        tokens.len() == session.config.n_draft_max,
    ensures
        match session.after_draft(seq_id, count).pending[seq_id as int] {
            Some(proposed) => proposed == session.drafted(tokens, count).len(),
            None => session.drafted(tokens, count).len() == 0,
        },
{
}

/// A step that changes a session: a draft that the native side carried out, or
/// an acceptance that it went along with.
pub enum Step {
    /// A draft that reported `count` tokens.
    Draft { seq_id: i32, count: i32 },
    /// An acceptance of `n_accepted` tokens.
    Accept { seq_id: i32, n_accepted: u16 },
}

impl Step {
    /// The session lets the step through.
    pub open spec fn allowed(self, session: Session) -> bool {
        match self {
            Step::Draft { seq_id, .. } => session.draft_error(seq_id) is None,
            Step::Accept { seq_id, n_accepted } => session.accept_error(seq_id, n_accepted) is None,
        }
    }

    /// The session after the step.
    pub open spec fn after(self, session: Session) -> Session {
        match self {
            Step::Draft { seq_id, count } => session.after_draft(seq_id, count),
            Step::Accept { seq_id, .. } => session.after_accept(seq_id),
        }
    }
}

/// The session after a run of steps.
pub open spec fn run(session: Session, steps: Seq<Step>) -> Session
    decreases steps.len(),
{
    if steps.len() == 0 {
        session
    } else {
        steps.last().after(run(session, steps.drop_last()))
    }
}

/// The session lets every step of the run through.
pub open spec fn allowed_run(session: Session, steps: Seq<Step>) -> bool
    decreases steps.len(),
{
    steps.len() > 0 ==> allowed_run(session, steps.drop_last()) && steps.last().allowed(
        run(session, steps.drop_last()),
    )
}

/// The proposal of a sequence that a run leaves open: that of its last draft
/// with tokens, unless an acceptance came after it.
pub open spec fn open_proposal(config: MtpSessionConfig, steps: Seq<Step>, seq: int) -> Option<
    usize,
>
    decreases steps.len(),
{
    if steps.len() == 0 {
        None
    } else {
        match steps.last() {
            Step::Draft { seq_id, count } => if seq_id == seq && handed_out(config, count) > 0 {
                Some(handed_out(config, count) as usize)
            } else {
                open_proposal(config, steps.drop_last(), seq)
            },
            Step::Accept { seq_id, .. } => if seq_id == seq {
                None
            } else {
                open_proposal(config, steps.drop_last(), seq)
            },
        }
    }
}

/// Whatever a session goes through, it stays well formed under its
/// configuration, and each sequence has pending exactly the proposal that the
/// steps on that sequence leave open.
pub proof fn law_history(config: MtpSessionConfig, steps: Seq<Step>)
    requires
        config.n_draft_max > 0,
        allowed_run(Session::fresh(config), steps),
    ensures
        run(Session::fresh(config), steps).wf(),
        run(Session::fresh(config), steps).config == config,
        forall|seq: int|
            0 <= seq < config.n_seq ==> #[trigger] run(Session::fresh(config), steps).pending[seq]
                == open_proposal(config, steps, seq),
    decreases steps.len(),
{
    if steps.len() > 0 {
        law_history(config, steps.drop_last());
    }
}

/// A draft hands out `min(max(count, 0), n_draft_max)` tokens: all that were
/// reported, up to the configured maximum and that many included.
pub proof fn law_draft_token_count(session: Session, tokens: Seq<i32>, count: i32)
    requires
        session.wf(),
        tokens.len() == session.config.n_draft_max,
    ensures
        session.drafted(tokens, count).len() == vstd::math::min(
            vstd::math::max(count as int, 0),
            session.config.n_draft_max as int,
        ),
        handed_out(session.config, count) == vstd::math::min(
            vstd::math::max(count as int, 0),
            session.config.n_draft_max as int,
        ),
        forall|i: int|
            0 <= i < vstd::math::min(count as int, session.config.n_draft_max as int)
                ==> (#[trigger] session.drafted(tokens, count)[i]).0 == tokens[i],
{
}

/// A draft changes one thing at most: its sequence's proposal becomes
/// `min(count, n_draft_max)` tokens long where that is positive.
pub proof fn law_draft_sets_one_proposal(session: Session, seq_id: i32, count: i32, other: int)
    requires
        session.wf(),
        0 <= seq_id < session.config.n_seq,
    ensures
        session.after_draft(seq_id, count).config == session.config,
        session.after_draft(seq_id, count).pending.len() == session.config.n_seq,
        count > 0 ==> session.after_draft(seq_id, count).pending[seq_id as int] == Some(
            vstd::math::min(count as int, session.config.n_draft_max as int) as usize,
        ),
        count <= 0 ==> session.after_draft(seq_id, count).pending[seq_id as int]
            == session.pending[seq_id as int],
        0 <= other < session.config.n_seq && other != seq_id ==> session.after_draft(
            seq_id,
            count,
        ).pending[other] == session.pending[other],
{
}

/// An acceptance changes one thing: its sequence has no proposal any more.
pub proof fn law_accept_clears_one_proposal(session: Session, seq_id: i32, other: int)
    requires
        session.wf(),
        0 <= seq_id < session.config.n_seq,
    ensures
        session.after_accept(seq_id).config == session.config,
        session.after_accept(seq_id).pending.len() == session.config.n_seq,
        session.after_accept(seq_id).pending[seq_id as int] is None,
        0 <= other < session.config.n_seq && other != seq_id ==> session.after_accept(
            seq_id,
        ).pending[other] == session.pending[other],
{
}

/// A fresh session has the configuration that it was made with, and a place
/// without a proposal for each sequence.
pub proof fn law_fresh_session_is_empty(config: MtpSessionConfig, i: int)
    ensures
        Session::fresh(config).config == config,
        Session::fresh(config).pending.len() == config.n_seq,
        0 <= i < config.n_seq ==> Session::fresh(config).pending[i] is None,
{
}

/// What a well-formed session is: one place for each sequence, a positive draft
/// length, and proposals between one token and the draft length on sequences
/// that an `i32` can name.
pub proof fn law_well_formed(session: Session)
    ensures
        session.wf() <==> {
            &&& session.pending.len() == session.config.n_seq
            &&& session.config.n_draft_max > 0
            &&& forall|i: int|
                0 <= i < session.pending.len() && (#[trigger] session.pending[i]) is Some ==> {
                    &&& 1 <= session.pending[i]->0 <= session.config.n_draft_max
                    &&& i < 0x8000_0000
                }
        },
{
}

/// A native call's failure is reported, and nothing else.
pub proof fn law_failure(error: MtpSessionError)
    ensures
        failure(true, error) is None,
        failure(false, error) == Some(error),
{
}

/// A sequence id is refused exactly when it is negative or not below the
/// number of sequences, and that is refused before anything else is looked at.
pub proof fn law_sequence_out_of_range(
    session: Session,
    seq_id: i32,
    n_accepted: u16,
    prompt_tokens: usize,
    max_prompt_tokens: usize,
    native_quiescent: bool,
)
    requires
        !(0 <= seq_id < session.config.n_seq),
    ensures
        ({
            let refusal = Some(
                MtpSessionError::BadSeqId { seq_id, n_seq: session.config.n_seq },
            );
            &&& session.seq_error(seq_id) == refusal
            &&& session.draft_error(seq_id) == refusal
            &&& session.accept_error(seq_id, n_accepted) == refusal
            &&& session.state_error(seq_id, native_quiescent) == refusal
            &&& session.begin_error(seq_id, prompt_tokens, max_prompt_tokens, native_quiescent)
                == refusal
        }),
{
}

/// A sequence of the session can be drafted for exactly when it has no
/// proposal; the refusal names the sequence.
pub proof fn law_draft_refused(session: Session, seq_id: i32)
    requires
        0 <= seq_id < session.config.n_seq,
    ensures
        session.has_seq(seq_id),
        session.seq_error(seq_id) is None,
        session.pending[seq_id as int] is None ==> session.draft_error(seq_id) is None,
        session.pending[seq_id as int] is Some ==> session.draft_error(seq_id) == Some(
            MtpSessionError::ProposalPending { seq_id },
        ),
{
}

/// On a sequence of the session an acceptance needs a proposal, and no more
/// tokens can be accepted than it has; the refusals say which.
pub proof fn law_accept_refused(session: Session, seq_id: i32, n_accepted: u16)
    requires
        0 <= seq_id < session.config.n_seq,
    ensures
        session.pending[seq_id as int] is None ==> session.accept_error(seq_id, n_accepted)
            == Some(MtpSessionError::NoPendingProposal { seq_id }),
        session.pending[seq_id as int] matches Some(proposed) ==> {
            &&& n_accepted <= proposed ==> session.accept_error(seq_id, n_accepted) is None
            &&& n_accepted > proposed ==> session.accept_error(seq_id, n_accepted) == Some(
                MtpSessionError::AcceptedTooMany { accepted: n_accepted, proposed },
            )
        },
{
}

/// On a sequence of the session, state access and `begin` need every sequence
/// to be without a proposal and the native side to be quiescent, and `begin`
/// needs a prompt that is not too long; they are refused in this order.
pub proof fn law_work_in_flight_refused(
    session: Session,
    seq_id: i32,
    prompt_tokens: usize,
    max_prompt_tokens: usize,
    native_quiescent: bool,
)
    requires
        0 <= seq_id < session.config.n_seq,
    ensures
        ({
            let settled = forall|i: int|
                0 <= i < session.pending.len() ==> (#[trigger] session.pending[i]) is None;
            let state = session.state_error(seq_id, native_quiescent);
            let begin = session.begin_error(
                seq_id,
                prompt_tokens,
                max_prompt_tokens,
                native_quiescent,
            );
            &&& session.settled() <==> settled
            &&& state is None <==> settled && native_quiescent
            &&& settled && !native_quiescent ==> state == Some(
                MtpSessionError::State(SpeculativeStateError::NotQuiescent),
            )
            &&& !settled ==> (state matches Some(MtpSessionError::ProposalPending { .. }))
            &&& state == session.busy_error(native_quiescent)
            &&& state is Some ==> begin == state
            &&& state is None && prompt_tokens <= max_prompt_tokens ==> begin is None
            &&& state is None && prompt_tokens > max_prompt_tokens ==> begin == Some(
                MtpSessionError::PromptTooLong { size: prompt_tokens, maximum: max_prompt_tokens },
            )
        }),
{
    lemma_first_pending(session.pending);
}

/// The native draft call is for the sequence, position and last token that the
/// caller gave, with room for the configured maximum.
pub proof fn law_draft_call(session: Session, seq_id: i32, n_past: i32, id_last: LlamaToken)
    ensures
        session.draft_call(seq_id, n_past, id_last).seq_id == seq_id,
        session.draft_call(seq_id, n_past, id_last).n_past == n_past,
        session.draft_call(seq_id, n_past, id_last).id_last == id_last.0,
        session.draft_call(seq_id, n_past, id_last).capacity == session.config.n_draft_max,
{
}

/// The shared rules pass a configuration by accepting its sequence count,
/// draft length, minimum and probability floor, and the draft length is
/// positive.
pub proof fn law_configuration_passes<V>(
    config: MtpSessionConfig,
    config_rules: V,
) where V: FnOnce(u32, i32, i32, F32Bits) -> Result<(), &'static str>
    ensures
        config_passed(config, config_rules) <==> config.n_draft_max > 0 && exists|
            ruling: Result<(), &'static str>,
        |
            #[trigger]
            call_ensures(
                config_rules,
                (config.n_seq, config.n_draft_max, config.n_min, config.p_min),
                ruling,
            ) && ruling is Ok,
{
}

/// The capacity rules pass a pair of contexts by accepting what the two offer,
/// the target first, for the draft length, and their output widths are equal.
pub proof fn law_capacities_pass<C>(
    target: LlamaContextInfo,
    draft: LlamaContextInfo,
    config: MtpSessionConfig,
    capacity_rules: C,
    target_offers: SpeculativeContextCapacity,
    draft_offers: SpeculativeContextCapacity,
) where
    C: FnOnce(SpeculativeContextCapacity, SpeculativeContextCapacity, u32) -> Result<
        (),
        &'static str,
    >,

    requires
        target_offers == (SpeculativeContextCapacity {
            batch: target.n_batch,
            micro_batch: target.n_ubatch,
            recurrent_slots: target.n_rs_seq,
            recurrent_or_hybrid: target.is_recurrent || target.is_hybrid,
        }),
        draft_offers == (SpeculativeContextCapacity {
            batch: draft.n_batch,
            micro_batch: draft.n_ubatch,
            recurrent_slots: draft.n_rs_seq,
            recurrent_or_hybrid: draft.is_recurrent || draft.is_hybrid,
        }),
    ensures
        capacity_passed(target, draft, config, capacity_rules) <==> target.n_embd_out
            == draft.n_embd_out && exists|fit: Result<(), &'static str>|
            #[trigger]
            call_ensures(
                capacity_rules,
                (target_offers, draft_offers, config.n_draft_max as u32),
                fit,
            ) && fit is Ok,
{
}

/// The native session is opened exactly for a default target and a
/// multi-token-prediction draft with fitting sequence counts, where both sets
/// of rules pass.
pub proof fn law_opened_only_in_order<V, C>(
    target: LlamaContextInfo,
    draft: LlamaContextInfo,
    config: MtpSessionConfig,
    config_rules: V,
    capacity_rules: C,
) where
    V: FnOnce(u32, i32, i32, F32Bits) -> Result<(), &'static str>,
    C: FnOnce(SpeculativeContextCapacity, SpeculativeContextCapacity, u32) -> Result<
        (),
        &'static str,
    >,

    ensures
        passed(target, draft, config, config_rules, capacity_rules) <==> {
            &&& target.context_type == LlamaContextType::Default
            &&& draft.context_type == LlamaContextType::Mtp
            &&& target.n_seq_max >= config.n_seq
            &&& draft.n_seq_max == config.n_seq
            &&& config_passed(config, config_rules)
            &&& capacity_passed(target, draft, config, capacity_rules)
        },
{
}

/// A session is constructed only over a default target and a
/// multi-token-prediction draft with fitting sequence counts and equal output
/// widths, for a positive draft length, and only where the native session was
/// opened with this configuration; [`MtpSessionError::Init`] comes only where
/// opening it failed.
pub proof fn law_constructed_only_in_order<V, C, O>(
    target: LlamaContextInfo,
    draft: LlamaContextInfo,
    config: MtpSessionConfig,
    config_rules: V,
    capacity_rules: C,
    create: O,
    session: Result<MtpSession, MtpSessionError>,
) where
    V: FnOnce(u32, i32, i32, F32Bits) -> Result<(), &'static str>,
    C: FnOnce(SpeculativeContextCapacity, SpeculativeContextCapacity, u32) -> Result<
        (),
        &'static str,
    >,
    O: FnOnce(MtpSessionConfig) -> bool,

    requires
        session_outcome(
            target,
            draft,
            config,
            config_rules,
            capacity_rules,
            create,
            session,
        ),
    ensures
        session is Ok || session->Err_0 == MtpSessionError::Init ==> {
            &&& target.context_type == LlamaContextType::Default
            &&& draft.context_type == LlamaContextType::Mtp
            &&& target.n_seq_max >= config.n_seq
            &&& draft.n_seq_max == config.n_seq
            &&& target.n_embd_out == draft.n_embd_out
            &&& config.n_draft_max > 0
            &&& config_passed(config, config_rules)
            &&& capacity_passed(target, draft, config, capacity_rules)
            &&& call_ensures(create, (config,), session is Ok)
        },
{
}

/// What a constructor returns where each rule and the native side give one
/// answer: the first objection of the shared configuration rules, the draft
/// length, the roles, the sequence counts, the capacity rules, the output
/// widths and the native side, in this order, and a session where there is
/// none.
pub proof fn law_constructor_answers<V, C, O>(
    target: LlamaContextInfo,
    draft: LlamaContextInfo,
    config: MtpSessionConfig,
    config_rules: V,
    capacity_rules: C,
    create: O,
    session: Result<MtpSession, MtpSessionError>,
    target_offers: SpeculativeContextCapacity,
    draft_offers: SpeculativeContextCapacity,
    ruling: Option<&'static str>,
    fit: Option<&'static str>,
    opened: bool,
) where
    V: FnOnce(u32, i32, i32, F32Bits) -> Result<(), &'static str>,
    C: FnOnce(SpeculativeContextCapacity, SpeculativeContextCapacity, u32) -> Result<
        (),
        &'static str,
    >,
    O: FnOnce(MtpSessionConfig) -> bool,

    requires
        target_offers == (SpeculativeContextCapacity {
            batch: target.n_batch,
            micro_batch: target.n_ubatch,
            recurrent_slots: target.n_rs_seq,
            recurrent_or_hybrid: target.is_recurrent || target.is_hybrid,
        }),
        draft_offers == (SpeculativeContextCapacity {
            batch: draft.n_batch,
            micro_batch: draft.n_ubatch,
            recurrent_slots: draft.n_rs_seq,
            recurrent_or_hybrid: draft.is_recurrent || draft.is_hybrid,
        }),
        session_outcome(
            target,
            draft,
            config,
            config_rules,
            capacity_rules,
            create,
            session,
        ),
        forall|answer: Result<(), &'static str>| #[trigger]
            call_ensures(
                config_rules,
                (config.n_seq, config.n_draft_max, config.n_min, config.p_min),
                answer,
            ) ==> answer.err() == ruling,
        forall|answer: Result<(), &'static str>| #[trigger]
            call_ensures(
                capacity_rules,
                (target_offers, draft_offers, config.n_draft_max as u32),
                answer,
            ) ==> answer.err() == fit,
        forall|answer: bool| #[trigger]
            call_ensures(create, (config,), answer) ==> answer == opened,
    ensures
        ({
            let roles = target.context_type == LlamaContextType::Default && draft.context_type
                == LlamaContextType::Mtp;
            let counts = target.n_seq_max >= config.n_seq && draft.n_seq_max == config.n_seq;
            let widths = target.n_embd_out == draft.n_embd_out;
            if ruling is Some {
                session == Err::<MtpSession, MtpSessionError>(
                    MtpSessionError::InvalidConfig(ruling->0),
                )
            } else if config.n_draft_max <= 0 {
                session == Err::<MtpSession, MtpSessionError>(
                    MtpSessionError::InvalidConfig("n_draft_max must be positive"),
                )
            } else if !roles {
                session == Err::<MtpSession, MtpSessionError>(
                    MtpSessionError::IncompatibleContexts(
                        "target must be Default and draft must be Mtp",
                    ),
                )
            } else if !counts {
                session == Err::<MtpSession, MtpSessionError>(
                    MtpSessionError::IncompatibleContexts(
                        "target sequence capacity is too small or draft capacity differs from n_seq",
                    ),
                )
            } else if fit is Some {
                session == Err::<MtpSession, MtpSessionError>(
                    MtpSessionError::IncompatibleContexts(fit->0),
                )
            } else if !widths {
                session == Err::<MtpSession, MtpSessionError>(
                    MtpSessionError::IncompatibleContexts(
                        "draft output width differs from target output width",
                    ),
                )
            } else if !opened {
                session == Err::<MtpSession, MtpSessionError>(MtpSessionError::Init)
            } else {
                session is Ok
            }
        }),
{
}

} // verus!
