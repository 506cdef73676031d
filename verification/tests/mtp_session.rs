use std::cell::Cell;

use llama_cpp_4::context::{
    kv_cache_range, DecodeError, KvCacheConversionError, KvCacheRange, LlamaContextInfo,
    LlamaContextType,
};
use llama_cpp_4::float_bits::F32Bits;
use llama_cpp_4::mtp::contexts::{check_capacities, check_config, check_roles, validate_contexts};
use llama_cpp_4::mtp::session::outcome;
use llama_cpp_4::mtp::{DraftCall, DraftReply, MtpSession, MtpSessionConfig, MtpSessionError};
use llama_cpp_4::speculative::{SpeculativeContextCapacity, SpeculativeStateError};
use llama_cpp_4::token::LlamaToken;

fn info(context_type: LlamaContextType, n_seq_max: u32) -> LlamaContextInfo {
    LlamaContextInfo {
        context_type,
        n_seq_max,
        n_batch: 512,
        n_ubatch: 128,
        n_rs_seq: 4,
        is_recurrent: false,
        is_hybrid: true,
        n_embd_out: 4096,
    }
}

fn target() -> LlamaContextInfo {
    info(LlamaContextType::Default, 3)
}

fn draft_context(n_seq: u32) -> LlamaContextInfo {
    info(LlamaContextType::Mtp, n_seq)
}

fn session(n_seq: u32, n_draft_max: i32) -> MtpSession {
    MtpSession::new(
        &target(),
        &draft_context(n_seq),
        n_seq,
        n_draft_max,
        |_, _, _, _| Ok(()),
        |_, _, _| Ok(()),
        |_| true,
    )
    .unwrap()
}

fn reply(tokens: &[i32], count: i32) -> DraftReply {
    DraftReply { ok: true, tokens: tokens.to_vec(), count }
}

#[test]
fn config_defaults_and_setters() {
    let config = MtpSessionConfig::new(1, 3);
    assert_eq!(config.n_seq, 1);
    assert_eq!(config.n_draft_max, 3);
    assert_eq!(config.n_min, 0);
    assert_eq!(config.p_min, F32Bits(0.0f32.to_bits()));
    let config = config.with_n_min(2).with_p_min(F32Bits(0.1f32.to_bits()));
    assert_eq!(config.n_min, 2);
    assert_eq!(f32::from_bits(config.p_min.0), 0.1f32);
    assert_eq!(config.n_draft_max, 3);
}

#[test]
fn new_session_reports_its_config() {
    let config = MtpSessionConfig::new(2, 3).with_n_min(1).with_p_min(F32Bits(7));
    let asked = Cell::new(None);
    let session = MtpSession::new_with_config(
        &target(),
        &draft_context(2),
        config,
        |n_seq, n_draft_max, n_min, p_min| {
            assert_eq!((n_seq, n_draft_max, n_min, p_min), (2, 3, 1, F32Bits(7)));
            Ok(())
        },
        |target: SpeculativeContextCapacity, draft: SpeculativeContextCapacity, required| {
            assert_eq!(required, 3);
            assert_eq!(target, draft);
            assert_eq!(
                target,
                SpeculativeContextCapacity {
                    batch: 512,
                    micro_batch: 128,
                    recurrent_slots: 4,
                    recurrent_or_hybrid: true,
                }
            );
            Ok(())
        },
        |config| {
            asked.set(Some(config));
            true
        },
    )
    .unwrap();
    assert_eq!(asked.get(), Some(config));
    assert_eq!(session.config(), config);
    assert_eq!(session.n_seq(), 2);
    assert_eq!(session.n_draft_max(), 3);
    assert_eq!(session.n_min(), 1);
    assert_eq!(session.p_min(), F32Bits(7));
    assert!(session.is_quiescent(true));
    assert!(!session.is_quiescent(false));
}

#[test]
fn new_is_new_with_default_floor() {
    assert_eq!(session(1, 3).config(), MtpSessionConfig::new(1, 3));
}

fn refused(
    target: LlamaContextInfo,
    draft: LlamaContextInfo,
    config: MtpSessionConfig,
    config_ruling: Result<(), &'static str>,
    capacity_ruling: Result<(), &'static str>,
    created: bool,
) -> MtpSessionError {
    MtpSession::new_with_config(
        &target,
        &draft,
        config,
        move |_, _, _, _| config_ruling,
        move |_, _, _| capacity_ruling,
        move |_| created,
    )
    .unwrap_err()
}

#[test]
fn configuration_rules_come_first() {
    let error = refused(
        draft_context(1),
        target(),
        MtpSessionConfig::new(1, 3),
        Err("p_min must be finite"),
        Ok(()),
        true,
    );
    assert_eq!(error, MtpSessionError::InvalidConfig("p_min must be finite"));
}

#[test]
fn draft_length_must_be_positive() {
    for n in [0, -1, i32::MIN] {
        let error = refused(
            target(),
            draft_context(1),
            MtpSessionConfig::new(1, n),
            Ok(()),
            Ok(()),
            true,
        );
        assert!(matches!(error, MtpSessionError::InvalidConfig(_)));
    }
    assert!(check_config(&MtpSessionConfig::new(1, 0), Ok(())).is_err());
    assert!(check_config(&MtpSessionConfig::new(1, 1), Ok(())).is_ok());
}

#[test]
fn context_roles() {
    let expected =
        MtpSessionError::IncompatibleContexts("target must be Default and draft must be Mtp");
    let config = MtpSessionConfig::new(1, 3);
    assert_eq!(
        refused(draft_context(1), draft_context(1), config, Ok(()), Ok(()), true),
        expected
    );
    assert_eq!(refused(target(), target(), config, Ok(()), Ok(()), true), expected);
}

#[test]
fn context_sequence_counts() {
    let expected = MtpSessionError::IncompatibleContexts(
        "target sequence capacity is too small or draft capacity differs from n_seq",
    );
    assert_eq!(
        refused(target(), draft_context(4), MtpSessionConfig::new(4, 3), Ok(()), Ok(()), true),
        expected
    );
    assert_eq!(
        refused(target(), draft_context(2), MtpSessionConfig::new(1, 3), Ok(()), Ok(()), true),
        expected
    );
}

#[test]
fn negative_draft_length_of_contexts() {
    let error = check_roles(&target(), &draft_context(1), &MtpSessionConfig::new(1, -1));
    assert_eq!(error, Err(MtpSessionError::InvalidConfig("n_draft_max exceeds u32")));
    assert_eq!(check_roles(&target(), &draft_context(1), &MtpSessionConfig::new(1, 9)), Ok(9));
}

#[test]
fn context_capacities_and_widths() {
    let config = MtpSessionConfig::new(1, 3);
    assert_eq!(
        refused(target(), draft_context(1), config, Ok(()), Err("batch too small"), true),
        MtpSessionError::IncompatibleContexts("batch too small")
    );
    let narrow = LlamaContextInfo { n_embd_out: 1024, ..draft_context(1) };
    let expected = MtpSessionError::IncompatibleContexts(
        "draft output width differs from target output width",
    );
    assert_eq!(refused(target(), narrow, config, Ok(()), Ok(()), true), expected);
    assert_eq!(check_capacities(&target(), &narrow, Ok(())), Err(expected));
    assert_eq!(
        check_capacities(&target(), &narrow, Err("batch too small")),
        Err(MtpSessionError::IncompatibleContexts("batch too small"))
    );
}

#[test]
fn capacity_rules_are_asked_only_about_sound_contexts() {
    let asked = Cell::new(false);
    let config = MtpSessionConfig::new(1, 3);
    let result = validate_contexts(&draft_context(1), &draft_context(1), &config, |_, _, _| {
        asked.set(true);
        Ok(())
    });
    assert!(result.is_err());
    assert!(!asked.get());
    assert!(validate_contexts(&target(), &draft_context(1), &config, |_, _, _| Ok(())).is_ok());
}

fn opens(
    target: LlamaContextInfo,
    draft: LlamaContextInfo,
    config_ruling: Result<(), &'static str>,
    capacity_ruling: Result<(), &'static str>,
) -> (bool, bool, bool) {
    let sized = Cell::new(false);
    let by_config = Cell::new(false);
    let result = MtpSession::new_with_config(
        &target,
        &draft,
        MtpSessionConfig::new(1, 3),
        move |_, _, _, _| config_ruling,
        |_, _, _| {
            sized.set(true);
            capacity_ruling
        },
        |_| {
            by_config.set(true);
            true
        },
    );
    let by_new = Cell::new(false);
    let second = MtpSession::new(
        &target,
        &draft,
        1,
        3,
        move |_, _, _, _| config_ruling,
        move |_, _, _| capacity_ruling,
        |_| {
            by_new.set(true);
            true
        },
    );
    assert_eq!(by_config.get(), by_new.get());
    assert_eq!(result.is_ok(), second.is_ok());
    (result.is_ok(), sized.get(), by_config.get())
}

#[test]
fn native_session_is_opened_only_after_every_check() {
    let draft = draft_context(1);
    assert_eq!(opens(target(), draft, Ok(()), Ok(())), (true, true, true));
    assert_eq!(opens(target(), draft, Err("refused"), Ok(())), (false, false, false));
    assert_eq!(opens(target(), draft, Ok(()), Err("refused")), (false, true, false));
    assert_eq!(opens(draft, draft, Ok(()), Ok(())), (false, false, false));
    let narrow = LlamaContextInfo { n_embd_out: 1024, ..draft };
    assert_eq!(opens(target(), narrow, Ok(()), Ok(())), (false, true, false));
}

#[test]
fn native_session_not_created() {
    let error = refused(
        target(),
        draft_context(1),
        MtpSessionConfig::new(1, 3),
        Ok(()),
        Ok(()),
        false,
    );
    assert_eq!(error, MtpSessionError::Init);
}

#[test]
fn draft_hands_on_its_arguments_and_takes_the_tokens() {
    let mut session = session(2, 3);
    let drafts = session.draft(1, 17, LlamaToken(42), |call| {
        assert_eq!(call, DraftCall { seq_id: 1, n_past: 17, id_last: 42, capacity: 3 });
        reply(&[7, 8, 0], 2)
    });
    assert_eq!(drafts, Ok(vec![LlamaToken(7), LlamaToken(8)]));
    assert!(!session.is_quiescent(true));
}

#[test]
fn draft_takes_no_more_than_the_buffer() {
    let mut session = session(1, 3);
    let drafts = session.draft(0, 0, LlamaToken(1), |_| reply(&[7, 8, 9], 5)).unwrap();
    assert_eq!(drafts, vec![LlamaToken(7), LlamaToken(8), LlamaToken(9)]);
    for accepted in [4, 5] {
        assert_eq!(
            session.accept(0, accepted, |_, _| true),
            Err(MtpSessionError::AcceptedTooMany { accepted, proposed: 3 })
        );
    }
    assert_eq!(session.accept(0, 3, |_, _| true), Ok(()));
    assert!(session.is_quiescent(true));
}

#[test]
fn empty_draft_leaves_no_proposal() {
    let mut session = session(1, 3);
    assert_eq!(session.draft(0, 0, LlamaToken(1), |_| reply(&[0, 0, 0], 0)), Ok(vec![]));
    assert_eq!(session.draft(0, 0, LlamaToken(1), |_| reply(&[0, 0, 0], -4)), Ok(vec![]));
    assert!(session.is_quiescent(true));
    assert_eq!(
        session.accept(0, 0, |_, _| true),
        Err(MtpSessionError::NoPendingProposal { seq_id: 0 })
    );
}

#[test]
fn failed_draft_leaves_no_proposal() {
    let mut session = session(1, 3);
    let failed = session.draft(0, 0, LlamaToken(1), |_| DraftReply {
        ok: false,
        tokens: vec![1, 2, 3],
        count: 3,
    });
    assert_eq!(failed, Err(MtpSessionError::Draft));
    assert!(session.is_quiescent(true));
}

#[test]
fn sequence_ids_out_of_range() {
    let mut session = session(2, 3);
    let called = Cell::new(false);
    for seq_id in [-1, 2, i32::MIN, i32::MAX] {
        let expected = MtpSessionError::BadSeqId { seq_id, n_seq: 2 };
        let drafts = session.draft(seq_id, 0, LlamaToken(1), |_| {
            called.set(true);
            reply(&[0, 0, 0], 0)
        });
        assert_eq!(drafts, Err(expected));
        assert_eq!(session.accept(seq_id, 0, |_, _| true), Err(expected));
        assert_eq!(session.begin(seq_id, &[], 8, true, |_, _| true), Err(expected));
        assert_eq!(session.speculative_state(seq_id, true, |_| Ok(vec![])), Err(expected));
        assert_eq!(
            session.restore_speculative_state(seq_id, &[], true, |_, _| Ok(())),
            Err(expected)
        );
    }
    assert!(!called.get());
}

#[test]
fn proposal_blocks_until_it_is_accepted() {
    let mut session = session(3, 3);
    session.draft(2, 0, LlamaToken(1), |_| reply(&[5, 0, 0], 1)).unwrap();
    session.draft(1, 0, LlamaToken(1), |_| reply(&[5, 6, 0], 2)).unwrap();
    assert_eq!(
        session.draft(2, 0, LlamaToken(1), |_| reply(&[0, 0, 0], 0)),
        Err(MtpSessionError::ProposalPending { seq_id: 2 })
    );
    let first = MtpSessionError::ProposalPending { seq_id: 1 };
    assert_eq!(session.begin(0, &[], 8, true, |_, _| true), Err(first));
    assert_eq!(session.speculative_state(0, false, |_| Ok(vec![])), Err(first));
    assert_eq!(session.restore_speculative_state(0, &[], true, |_, _| Ok(())), Err(first));
    assert_eq!(session.decode_target((), |_| Ok(())), Ok(()));

    assert_eq!(session.accept(1, 2, |seq_id, n| (seq_id, n) == (1, 2)), Ok(()));
    assert_eq!(
        session.begin(0, &[], 8, true, |_, _| true),
        Err(MtpSessionError::ProposalPending { seq_id: 2 })
    );
    assert_eq!(session.accept(2, 0, |_, _| true), Ok(()));
    assert!(session.is_quiescent(true));
    assert_eq!(session.begin(0, &[], 8, true, |_, _| true), Ok(()));
}

#[test]
fn accept_checks_the_proposal() {
    let mut session = session(1, 3);
    session.draft(0, 0, LlamaToken(1), |_| reply(&[5, 6, 0], 2)).unwrap();
    assert_eq!(
        session.accept(0, 3, |_, _| true),
        Err(MtpSessionError::AcceptedTooMany { accepted: 3, proposed: 2 })
    );
    assert_eq!(session.accept(0, 2, |_, _| false), Err(MtpSessionError::Accept));
    assert!(!session.is_quiescent(true));
    assert_eq!(session.accept(0, 2, |_, _| true), Ok(()));
    assert_eq!(
        session.accept(0, 2, |_, _| true),
        Err(MtpSessionError::NoPendingProposal { seq_id: 0 })
    );
}

#[test]
fn begin_hands_on_the_prompt() {
    let mut session = session(2, 3);
    let prompt = [LlamaToken(3), LlamaToken(4)];
    let result = session.begin(1, &prompt, 2, true, |seq_id, tokens: &[LlamaToken]| {
        assert_eq!(seq_id, 1);
        assert_eq!(tokens, &[LlamaToken(3), LlamaToken(4)]);
        true
    });
    assert_eq!(result, Ok(()));
    assert_eq!(session.begin(1, &prompt, 2, true, |_, _| false), Err(MtpSessionError::Begin));
    assert_eq!(
        session.begin(1, &prompt, 1, true, |_, _| true),
        Err(MtpSessionError::PromptTooLong { size: 2, maximum: 1 })
    );
    let busy = MtpSessionError::State(SpeculativeStateError::NotQuiescent);
    assert_eq!(session.begin(1, &prompt, 1, false, |_, _| true), Err(busy));
}

#[test]
fn failed_decode_is_never_processed() {
    let mut session = session(1, 3);
    let processed = Cell::new(false);
    let failed = DecodeError { status: 1 };
    let result = session.decode_target_and_process(
        7,
        |_: i32| Err(failed),
        |_| {
            processed.set(true);
            true
        },
    );
    assert_eq!(result, Err(MtpSessionError::Decode(failed)));
    assert!(!processed.get());
    assert_eq!(
        session.decode_target(7, |_| Err(failed)),
        Err(MtpSessionError::Decode(failed))
    );
}

#[test]
fn decoded_batch_is_processed() {
    let mut session = session(1, 3);
    let result = session.decode_target_and_process(
        7,
        |batch: i32| Ok(batch + 1),
        |batch| {
            assert_eq!(batch, 8);
            true
        },
    );
    assert_eq!(result, Ok(()));
    assert_eq!(
        session.decode_target_and_process(7, |batch: i32| Ok(batch), |_| false),
        Err(MtpSessionError::Process)
    );
    assert_eq!(session.process(7, |batch| batch == 7), Ok(()));
    assert_eq!(session.process(7, |_| false), Err(MtpSessionError::Process));
}

#[test]
fn speculative_state_of_a_quiescent_session() {
    let mut session = session(2, 3);
    let state = session.speculative_state(1, true, |seq_id| Ok(vec![seq_id as u8, 9]));
    assert_eq!(state, Ok(vec![1, 9]));
    let large = SpeculativeStateError::TooLarge { size: 10, maximum: 5 };
    assert_eq!(
        session.speculative_state(1, true, |_| Err(large)),
        Err(MtpSessionError::State(large))
    );
    let busy = MtpSessionError::State(SpeculativeStateError::NotQuiescent);
    assert_eq!(session.speculative_state(1, false, |_| Ok(vec![])), Err(busy));
    let restored = session.restore_speculative_state(1, &[1, 9], true, |seq_id, bytes: &[u8]| {
        assert_eq!((seq_id, bytes), (1, &[1u8, 9][..]));
        Ok(())
    });
    assert_eq!(restored, Ok(()));
    assert_eq!(
        session.restore_speculative_state(1, &[], true, |_, _| Err(
            SpeculativeStateError::Mismatch
        )),
        Err(MtpSessionError::State(SpeculativeStateError::Mismatch))
    );
}

#[test]
fn kv_cache_ranges() {
    assert_eq!(
        kv_cache_range(Some(1), None, Some(i32::MAX as u32)),
        Ok(KvCacheRange { seq_id: Some(1), p0: None, p1: Some(i32::MAX) })
    );
    let large = i32::MAX as u32 + 1;
    assert_eq!(
        kv_cache_range(Some(large), Some(large), None),
        Err(KvCacheConversionError::SeqIdTooLarge(large))
    );
    assert_eq!(
        kv_cache_range(None, Some(large), Some(large)),
        Err(KvCacheConversionError::P0TooLarge(large))
    );
    assert_eq!(
        kv_cache_range(None, None, Some(u32::MAX)),
        Err(KvCacheConversionError::P1TooLarge(u32::MAX))
    );
}

#[test]
fn clearing_kv_ranges() {
    let mut session = session(1, 3);
    let range = KvCacheRange { seq_id: Some(0), p0: Some(4), p1: None };
    assert_eq!(
        session.clear_target_kv_cache_seq(Some(0), Some(4), None, |asked| asked == range),
        Ok(true)
    );
    assert_eq!(session.clear_draft_kv_cache_seq(Some(0), Some(4), None, |_| false), Ok(false));
    assert_eq!(
        session.clear_draft_kv_cache_seq(None, Some(u32::MAX), None, |_| true),
        Err(KvCacheConversionError::P0TooLarge(u32::MAX))
    );
}

#[test]
fn outcomes_of_native_calls() {
    assert_eq!(outcome(true, MtpSessionError::Begin), Ok(()));
    assert_eq!(outcome(false, MtpSessionError::Accept), Err(MtpSessionError::Accept));
}
