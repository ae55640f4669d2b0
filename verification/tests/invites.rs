use buzz::invite::{DEFAULT_INVITE_TTL_SECS, MAX_INVITE_TTL_SECS, MIN_INVITE_TTL_SECS};
use buzz::relay_invite::{
    claim_relay_invite, hash_invite_code, look_up_claim, mint_relay_invite, prepare_invite,
    settle_claim, ClaimLookup, ClaimOutcome, ClaimPlan, ClaimWrite, InviteError, InviteRecord,
    UtcTime, MAX_INVITE_USES,
};

const NOW: i64 = 1_700_000_000_000_000;

const CLOCK: UtcTime = UtcTime {
    secs: 1_700_000_000,
    nanos: 123_456_789,
};

fn record(max_uses: Option<i32>, use_count: i32) -> InviteRecord {
    InviteRecord {
        id: 1,
        max_uses,
        use_count,
        expires_at: NOW + 1,
    }
}

#[test]
fn lifetimes_are_bounded() {
    assert_eq!(MIN_INVITE_TTL_SECS, 60);
    assert_eq!(DEFAULT_INVITE_TTL_SECS, 259_200);
    assert_eq!(MAX_INVITE_TTL_SECS, 2_592_000);
    for (ttl, expected) in [
        (0, 60),
        (59, 60),
        (3_600, 3_600),
        (2_592_000, 2_592_000),
        (u64::MAX, 2_592_000),
    ] {
        let Ok(invite) = prepare_invite(&[0; 32], CLOCK, 1, "owner", ttl, None) else {
            panic!("expected an invite");
        };
        assert_eq!(invite.row.expires_at, NOW + expected * 1_000_000 + 123_456);
        let minted = invite.inserted(5);
        assert_eq!(minted.expires_at.secs, CLOCK.secs + expected);
        assert_eq!(minted.expires_at.nanos, 123_456_789);
        assert_eq!(minted.invite_id, 5);
    }
}

#[test]
fn codes_are_hashed_with_sha256() {
    let hash: String = hash_invite_code("abc")
        .iter()
        .map(|byte| format!("{byte:02x}"))
        .collect();
    assert_eq!(
        hash,
        "ba7816bf8f01cfea414140de5dae2223b00361a396177a9cb410ff61f20015ad"
    );
}

#[test]
fn codes_are_url_safe_base64() {
    let mut secret = [0u8; 32];
    for (i, byte) in secret.iter_mut().enumerate() {
        *byte = (i as u8) * 8 + 7;
    }
    let Ok(invite) = prepare_invite(&secret, CLOCK, 9, "owner", 60, Some(3)) else {
        panic!("expected an invite");
    };
    assert_eq!(invite.code, "v2.Bw8XHycvNz9HT1dfZ293f4ePl5-nr7e_x8_X3-fv9_8");
    assert_eq!(invite.row.community, 9);
    assert_eq!(invite.row.created_by, "owner");
    assert_eq!(invite.row.token_hash, hash_invite_code(&invite.code));
    let minted = invite.inserted(77);
    assert_eq!(minted.invite_id, 77);
    assert_eq!(minted.max_uses, Some(3));
    assert_eq!(minted.uses_remaining, Some(3));
}

#[test]
fn use_budgets_are_checked() {
    assert_eq!(MAX_INVITE_USES, 10_000);
    for bad in [i32::MIN, -1, 0, 10_001] {
        match mint_relay_invite(1, "owner", 60, Some(bad)) {
            Ok(_) => panic!("{bad} is no budget"),
            Err(error) => assert_eq!(
                error,
                InviteError::InvalidData("max_uses must be between 1 and 10000".to_string())
            ),
        }
    }
    for good in [None, Some(1), Some(10_000)] {
        assert!(mint_relay_invite(1, "owner", 60, good).is_ok());
    }
}

#[test]
fn every_code_is_new() {
    let (Ok(first), Ok(second)) = (
        mint_relay_invite(1, "owner", 60, None),
        mint_relay_invite(1, "owner", 60, None),
    ) else {
        panic!("expected invites");
    };
    assert_ne!(first.code, second.code);
    assert!(first.code.starts_with("v2."));
    assert_eq!(first.code.len(), 46);
    assert!(first.row.expires_at > NOW);
}

#[test]
fn claims_need_a_live_invite() {
    assert_eq!(
        look_up_claim(None, NOW),
        ClaimLookup::Refused(ClaimOutcome::Invalid)
    );
    let live = record(None, 0);
    assert_eq!(
        look_up_claim(Some(live), NOW),
        ClaimLookup::CheckMembership(live)
    );
    for late in [NOW + 1, NOW + 2] {
        assert_eq!(
            look_up_claim(Some(live), late),
            ClaimLookup::Refused(ClaimOutcome::Expired)
        );
    }
    assert_eq!(
        claim_relay_invite(None),
        ClaimLookup::Refused(ClaimOutcome::Invalid)
    );
    assert_eq!(
        claim_relay_invite(Some(live)),
        ClaimLookup::Refused(ClaimOutcome::Expired)
    );
    let endless = InviteRecord {
        expires_at: i64::MAX,
        ..live
    };
    assert_eq!(
        claim_relay_invite(Some(endless)),
        ClaimLookup::CheckMembership(endless)
    );
}

#[test]
fn joining_takes_one_slot() {
    assert_eq!(
        settle_claim(&record(Some(3), 1), false, true),
        ClaimPlan {
            writes: vec![
                ClaimWrite::InsertMember,
                ClaimWrite::InsertAcceptance,
                ClaimWrite::SetUseCount(2)
            ],
            commit: true,
            outcome: ClaimOutcome::Joined {
                use_count: 2,
                uses_remaining: Some(1)
            },
        }
    );
    assert_eq!(
        settle_claim(&record(None, 41), false, false),
        ClaimPlan {
            writes: vec![ClaimWrite::InsertMember, ClaimWrite::SetUseCount(42)],
            commit: true,
            outcome: ClaimOutcome::Joined {
                use_count: 42,
                uses_remaining: None
            },
        }
    );
}

#[test]
fn members_are_not_counted_again() {
    for (policy, writes) in [(false, vec![]), (true, vec![ClaimWrite::InsertAcceptance])] {
        assert_eq!(
            settle_claim(&record(Some(2), 2), true, policy),
            ClaimPlan {
                writes,
                commit: true,
                outcome: ClaimOutcome::AlreadyMember {
                    use_count: 2,
                    uses_remaining: Some(0)
                },
            }
        );
    }
}

#[test]
fn exhausted_invites_change_nothing() {
    assert_eq!(
        settle_claim(&record(Some(2), 2), false, true),
        ClaimPlan {
            writes: vec![],
            commit: false,
            outcome: ClaimOutcome::Exhausted,
        }
    );
}

#[test]
fn the_last_slot_is_taken_once() {
    let plan = settle_claim(&record(Some(2), 1), false, false);
    assert_eq!(
        plan.outcome,
        ClaimOutcome::Joined {
            use_count: 2,
            uses_remaining: Some(0)
        }
    );
    assert_eq!(
        settle_claim(&record(Some(2), 2), false, false).outcome,
        ClaimOutcome::Exhausted
    );
}

#[test]
fn a_run_of_claims_fills_an_invite_exactly() {
    let mut invite = record(Some(3), 0);
    let mut members: Vec<&str> = vec!["member"];
    let mut joined = 0;
    let mut last_slots = 0;
    for claimer in ["a", "member", "b", "a", "c", "d", "b", "e"] {
        let ClaimLookup::CheckMembership(found) = look_up_claim(Some(invite), NOW) else {
            panic!("the invite is live");
        };
        let plan = settle_claim(&found, members.contains(&claimer), false);
        match plan.outcome {
            ClaimOutcome::Joined {
                use_count,
                uses_remaining,
            } => {
                joined += 1;
                assert_eq!(use_count, joined);
                if uses_remaining == Some(0) {
                    last_slots += 1;
                }
                members.push(claimer);
                invite.use_count = use_count;
            }
            ClaimOutcome::AlreadyMember { use_count, .. } => {
                assert!(members.contains(&claimer));
                assert_eq!(use_count, joined);
            }
            other => {
                assert_eq!(other, ClaimOutcome::Exhausted);
                assert!(["d", "e"].contains(&claimer));
                assert!(!plan.commit);
            }
        }
    }
    assert_eq!((joined, last_slots, invite.use_count), (3, 1, 3));
    assert_eq!(members, vec!["member", "a", "b", "c"]);
}
