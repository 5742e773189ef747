use encrypted_ixs::domain::{ClientShared, ExecutionDomain};
use encrypted_ixs::revealed::reveal_counts;
use encrypted_ixs::tally::{apply_vote, can_apply, init_stats, sum, InputValues, UserVote, VoteStats};
use encrypted_ixs::transcoder::{decrypt, encrypt, EncryptedValue, PlaintextInBoundary};

fn opened<T: Copy>(content: T) -> PlaintextInBoundary<T> {
    decrypt(&EncryptedValue::new(ClientShared { key: 1u8 }, content))
}

#[test]
fn decrypt_opens_the_whole_content() {
    let value = EncryptedValue::new(ClientShared { key: 9u32 }, InputValues { v1: 12, v2: 34 });
    let plain = decrypt(&value);
    assert_eq!(plain.expose().v1, 12);
    assert_eq!(plain.expose().v2, 34);
}

#[test]
fn decrypt_leaves_the_encrypted_value_in_place() {
    let value = EncryptedValue::new(ExecutionDomain { key: 1u8 }, VoteStats { yes: 5, no: 6 });
    let first = decrypt(&value);
    let second = decrypt(&value);
    assert_eq!((first.expose().yes, first.expose().no), (5, 6));
    assert_eq!((second.expose().yes, second.expose().no), (5, 6));
}

#[test]
fn encrypt_binds_the_value_to_the_chosen_domain() {
    let for_client = encrypt(opened(300u16), ClientShared { key: 42u64 });
    assert_eq!(for_client.owner().key, 42);
    assert_eq!(*decrypt(&for_client).expose(), 300);
    let for_domain = encrypt(opened(VoteStats { yes: 1, no: 2 }), ExecutionDomain { key: 8u8 });
    assert_eq!(for_domain.owner().key, 8);
    let kept = decrypt(&for_domain);
    assert_eq!((kept.expose().yes, kept.expose().no), (1, 2));
}

#[test]
fn a_value_can_pass_from_one_domain_to_the_other() {
    let from_client = EncryptedValue::new(ClientShared { key: 3u64 }, UserVote { vote: true });
    let in_domain = encrypt(decrypt(&from_client), ExecutionDomain { key: 8u8 });
    assert!(decrypt(&in_domain).expose().vote);
}

#[test]
fn sum_widens_before_it_adds() {
    assert_eq!(*sum(opened(InputValues { v1: 255, v2: 1 })).expose(), 256);
    assert_eq!(*sum(opened(InputValues { v1: 128, v2: 128 })).expose(), 256);
    assert_eq!(*sum(opened(InputValues { v1: 255, v2: 255 })).expose(), 510);
    assert_eq!(*sum(opened(InputValues { v1: 0, v2: 0 })).expose(), 0);
}

#[test]
fn sum_does_not_depend_on_the_order_of_the_bytes() {
    assert_eq!(*sum(opened(InputValues { v1: 17, v2: 200 })).expose(), 217);
    assert_eq!(*sum(opened(InputValues { v1: 200, v2: 17 })).expose(), 217);
}

#[test]
fn init_stats_starts_at_zero() {
    let stats = init_stats();
    assert_eq!((stats.expose().yes, stats.expose().no), (0, 0));
}

#[test]
fn apply_vote_adds_one_to_the_chosen_counter() {
    let next = apply_vote(opened(UserVote { vote: true }), opened(VoteStats { yes: 7, no: 8 }));
    assert_eq!((next.expose().yes, next.expose().no), (8, 8));
    let next = apply_vote(opened(UserVote { vote: false }), opened(VoteStats { yes: 7, no: 8 }));
    assert_eq!((next.expose().yes, next.expose().no), (7, 9));
}

#[test]
fn apply_vote_counts_toward_the_limit_of_one_counter_only() {
    let full_yes = VoteStats { yes: u64::MAX, no: 0 };
    let next = apply_vote(opened(UserVote { vote: false }), opened(full_yes));
    assert_eq!((next.expose().yes, next.expose().no), (u64::MAX, 1));
}

#[test]
fn can_apply_refuses_a_counter_at_its_limit() {
    let full_yes = VoteStats { yes: u64::MAX, no: 0 };
    assert!(!can_apply(&UserVote { vote: true }, &full_yes));
    assert!(can_apply(&UserVote { vote: false }, &full_yes));
    let full_no = VoteStats { yes: 3, no: u64::MAX };
    assert!(can_apply(&UserVote { vote: true }, &full_no));
    assert!(!can_apply(&UserVote { vote: false }, &full_no));
}

#[test]
fn can_apply_accepts_every_vote_below_the_limit() {
    let nearly = VoteStats { yes: u64::MAX - 1, no: u64::MAX - 1 };
    assert!(can_apply(&UserVote { vote: true }, &nearly));
    assert!(can_apply(&UserVote { vote: false }, &nearly));
    let empty = VoteStats { yes: 0, no: 0 };
    assert!(can_apply(&UserVote { vote: true }, &empty));
    assert!(can_apply(&UserVote { vote: false }, &empty));
}

#[test]
fn reveal_counts_gives_yes_first() {
    let stats = opened(VoteStats { yes: 21, no: 4 });
    let (yes, no) = reveal_counts(&stats);
    assert_eq!(yes.into_inner(), 21);
    assert_eq!(no.into_inner(), 4);
}

#[test]
fn reveal_counts_does_not_change_the_tally() {
    let stats = opened(VoteStats { yes: 21, no: 4 });
    let (first_yes, first_no) = reveal_counts(&stats);
    let (second_yes, second_no) = reveal_counts(&stats);
    assert_eq!(first_yes.into_inner(), second_yes.into_inner());
    assert_eq!(first_no.into_inner(), second_no.into_inner());
    assert_eq!((stats.expose().yes, stats.expose().no), (21, 4));
}
