use ton_pool::checkpoint::{patch_checkpoint, Checkpoint};
use ton_pool::error::{maybe_error_code, retry_condition, ClientError, TRANSIENT_ERROR_CODE};
use ton_pool::keystore::{decimal_string, slot_keystore_path};
use ton_pool::pool::{plan_slots, random_slot_index, ConnectionParams};
use ton_pool::retry::{decide_retry, RetryDecision, RetryStrategy};
use ton_pool::slot::{complete_establishment, SlotDecision, SlotState};

fn base_params(keystore_dir: Option<String>) -> ConnectionParams {
    ConnectionParams {
        config: String::from("{\"liteservers\":[]}"),
        keystore_dir,
        update_init_block: true,
    }
}

#[test]
fn selection_stays_in_bounds_and_is_roughly_uniform() {
    let pool_size: usize = 4;
    let mut counts = [0usize; 4];
    for _ in 0..8000 {
        let i = random_slot_index(pool_size);
        assert!(i < pool_size);
        counts[i] += 1;
    }
    for &c in counts.iter() {
        assert!(c > 1600, "slot chosen far too rarely: {}", c);
        assert!(c < 2400, "slot chosen far too often: {}", c);
    }
}

#[test]
fn selection_of_single_slot_pool_is_slot_zero() {
    for _ in 0..100 {
        assert_eq!(random_slot_index(1), 0);
    }
}

#[test]
fn empty_slot_establishes_exactly_once() {
    let mut state: SlotState<u32, u8> = SlotState::Empty;
    let mut establishments = 0usize;
    let mut observed = Vec::new();
    for _ in 0..5 {
        match state.decide_request(false) {
            SlotDecision::Establish => {
                establishments += 1;
                let (next, res) = complete_establishment(Ok((7u32, 1u8)));
                assert!(res.is_ok());
                state = next;
                observed.push(*state.stored_handle().unwrap());
            }
            SlotDecision::ReuseHandle { warn_dead } => {
                assert!(!warn_dead);
                observed.push(*state.stored_handle().unwrap());
            }
        }
    }
    assert_eq!(establishments, 1);
    assert_eq!(observed, vec![7u32; 5]);
}

#[test]
fn failed_establishment_leaves_slot_empty_and_surfaces_the_failure() {
    let outcome: Result<(u32, u8), ClientError> = Err(ClientError::Remote {
        code: 404,
        message: String::from("no such node"),
    });
    let (state, res) = complete_establishment(outcome);
    assert!(matches!(state, SlotState::Empty));
    assert!(matches!(res, Err(ClientError::Remote { code: 404, .. })));
    assert!(state.stored_handle().is_none());
    assert_eq!(state.decide_request(false), SlotDecision::Establish);
}

#[test]
fn dead_ready_slot_warns_but_returns_the_stored_handle() {
    let state: SlotState<u32, u8> = SlotState::Ready {
        handle: 42,
        watcher: 9,
    };
    let d = state.decide_request(true);
    assert_eq!(d, SlotDecision::ReuseHandle { warn_dead: true });
    assert_eq!(state.stored_handle(), Some(&42));

    let d = state.decide_request(false);
    assert_eq!(d, SlotDecision::ReuseHandle { warn_dead: false });
    assert_eq!(state.stored_handle(), Some(&42));
}

fn run_retry_loop(strategy: &RetryStrategy, error: &ClientError) -> usize {
    let mut attempts: usize = 1;
    loop {
        match decide_retry(strategy, attempts, error) {
            RetryDecision::RetryAfterMs { interval_ms } => {
                assert_eq!(interval_ms, strategy.interval_ms);
                attempts += 1;
            }
            RetryDecision::GiveUp => return attempts,
        }
    }
}

#[test]
fn transient_failure_is_attempted_max_retries_plus_one_times() {
    let strategy = RetryStrategy {
        interval_ms: 5,
        max_retries: 3,
    };
    let busy = ClientError::Remote {
        code: TRANSIENT_ERROR_CODE,
        message: String::from("server busy"),
    };
    assert_eq!(run_retry_loop(&strategy, &busy), 4);

    let none_left = RetryStrategy {
        interval_ms: 5,
        max_retries: 0,
    };
    assert_eq!(run_retry_loop(&none_left, &busy), 1);
}

#[test]
fn non_transient_failure_is_attempted_exactly_once() {
    let strategy = RetryStrategy {
        interval_ms: 5,
        max_retries: 3,
    };
    let not_found = ClientError::Remote {
        code: 404,
        message: String::from("no such method"),
    };
    assert_eq!(run_retry_loop(&strategy, &not_found), 1);

    let config = ClientError::Configuration {
        message: String::from("bad document"),
    };
    assert_eq!(run_retry_loop(&strategy, &config), 1);

    let internal = ClientError::Internal {
        message: String::from("invariant broken"),
    };
    assert_eq!(run_retry_loop(&strategy, &internal), 1);
}

#[test]
fn retry_condition_holds_only_for_the_transient_code() {
    let busy = ClientError::Remote {
        code: 500,
        message: String::from("busy"),
    };
    assert!(retry_condition(&busy));
    let other = ClientError::Remote {
        code: 501,
        message: String::from("odd"),
    };
    assert!(!retry_condition(&other));
    assert!(!retry_condition(&ClientError::CheckpointUnavailable));
    assert!(!retry_condition(&ClientError::Filesystem {
        message: String::from("denied"),
    }));
}

#[test]
fn error_code_is_extracted_from_remote_failures_only() {
    let busy = ClientError::Remote {
        code: 500,
        message: String::from("busy"),
    };
    assert_eq!(maybe_error_code(&busy), Some(500));
    assert_eq!(maybe_error_code(&ClientError::CheckpointUnavailable), None);
    assert_eq!(
        maybe_error_code(&ClientError::Configuration {
            message: String::from("bad"),
        }),
        None
    );
    assert_eq!(
        maybe_error_code(&ClientError::Internal {
            message: String::from("bug"),
        }),
        None
    );
}

#[test]
fn stale_fetched_checkpoint_leaves_configuration_unchanged() {
    let embedded = Checkpoint {
        seqno: 100,
        block_id: String::from("embedded-block"),
    };
    let fetched = Checkpoint {
        seqno: 80,
        block_id: String::from("older-block"),
    };
    let patched = patch_checkpoint(embedded, Some(fetched)).unwrap();
    assert_eq!(patched.seqno, 100);
    assert_eq!(patched.block_id, "embedded-block");
}

#[test]
fn equal_fetched_checkpoint_leaves_configuration_unchanged() {
    let embedded = Checkpoint {
        seqno: 100,
        block_id: String::from("embedded-block"),
    };
    let fetched = Checkpoint {
        seqno: 100,
        block_id: String::from("same-height-block"),
    };
    let patched = patch_checkpoint(embedded, Some(fetched)).unwrap();
    assert_eq!(patched.seqno, 100);
    assert_eq!(patched.block_id, "embedded-block");
}

#[test]
fn newer_fetched_checkpoint_updates_configuration() {
    let embedded = Checkpoint {
        seqno: 100,
        block_id: String::from("embedded-block"),
    };
    let fetched = Checkpoint {
        seqno: 150,
        block_id: String::from("newer-block"),
    };
    let patched = patch_checkpoint(embedded, Some(fetched)).unwrap();
    assert_eq!(patched.seqno, 150);
    assert_eq!(patched.block_id, "newer-block");
}

#[test]
fn missing_checkpoint_fails_construction() {
    let embedded = Checkpoint {
        seqno: 100,
        block_id: String::from("embedded-block"),
    };
    let r = patch_checkpoint(embedded, None);
    assert!(matches!(r, Err(ClientError::CheckpointUnavailable)));
}

#[test]
fn three_slots_get_the_three_indexed_keystore_directories() {
    let params = base_params(Some(String::from("R")));
    let slots = plan_slots(&params, 3);
    assert_eq!(slots.len(), 3);
    let dirs: Vec<&str> = slots
        .iter()
        .map(|s| s.keystore_dir.as_deref().unwrap())
        .collect();
    assert_eq!(dirs, vec!["R/0", "R/1", "R/2"]);
    for s in slots.iter() {
        assert_eq!(s.config, params.config);
        assert!(s.update_init_block);
    }
}

#[test]
fn slots_without_keystore_root_get_no_keystore_directory() {
    let params = base_params(None);
    let slots = plan_slots(&params, 2);
    assert_eq!(slots.len(), 2);
    assert!(slots.iter().all(|s| s.keystore_dir.is_none()));
}

#[test]
fn decimal_formatting_matches_expected_strings() {
    assert_eq!(decimal_string(0), "0");
    assert_eq!(decimal_string(7), "7");
    assert_eq!(decimal_string(10), "10");
    assert_eq!(decimal_string(105), "105");
    assert_eq!(decimal_string(98765), "98765");
}

#[test]
fn keystore_paths_join_root_separator_and_index() {
    assert_eq!(slot_keystore_path("R", 0), "R/0");
    assert_eq!(slot_keystore_path("/var/keys", 12), "/var/keys/12");
    assert_eq!(slot_keystore_path("", 3), "/3");
}
