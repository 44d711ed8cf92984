use blockchain_sim::block::Block;
use blockchain_sim::chain::{total_reward, Blockchain};
use blockchain_sim::clock::{current_timestamp, elapsed_seconds, ClockError};
use blockchain_sim::digest::digest;
use blockchain_sim::miner::MineOutcome;
use std::time::{Duration, UNIX_EPOCH};

#[test]
fn the_clock_gives_a_time_after_the_epoch() {
    let now = current_timestamp().unwrap();
    assert!(now > 1_000_000_000);
}

#[test]
fn new_block_is_unmined_and_stamped_by_the_clock() {
    let before = current_timestamp().unwrap();
    let b = Block::new(3, String::from("prev"), String::from("data")).unwrap();
    assert_eq!(b.index, 3);
    assert_eq!(b.previous_hash, "prev");
    assert_eq!(b.data, "data");
    assert_eq!(b.nonce, 0);
    assert_eq!(b.hash, "");
    assert!(b.timestamp > 1_000_000_000);
    assert!(b.timestamp + 3600 > before);
}

#[test]
fn freshly_initialized_chain_has_the_genesis_block() {
    let chain = Blockchain::new().unwrap();
    assert_eq!(chain.get_total_blocks(), 1);
    assert_eq!(chain.difficulty(), 4);
    let genesis = chain.block(0).unwrap();
    assert_eq!(genesis.index, 0);
    assert_eq!(genesis.previous_hash, "0");
    assert_eq!(genesis.data, "Genesis Block");
    assert_eq!(genesis.nonce, 0);
    assert_eq!(genesis.hash, "");
}

#[test]
fn initialize_then_eight_appends() {
    let mut chain = Blockchain::new().unwrap();
    let mut sizes = vec![chain.get_total_blocks()];
    let mut i: u32 = 1;
    while i <= 8 {
        let report = chain.append(i, format!("trade {}", i)).unwrap();
        assert!(report.attempts >= 1 && report.attempts <= 101);
        sizes.push(chain.get_total_blocks());
        i += 1;
    }
    assert_eq!(sizes, vec![1, 2, 3, 4, 5, 6, 7, 8, 9]);
    assert_eq!(chain.get_total_blocks(), 9);
    assert_eq!(total_reward(chain.get_total_blocks()), Some(1233));
    assert_eq!(9 * 137, 1233);
    assert_eq!(chain.block(1).unwrap().previous_hash, "");
    let mut k: usize = 1;
    while k < 9 {
        let b = chain.block(k).unwrap();
        assert_eq!(b.index, u32::try_from(k).unwrap());
        assert_eq!(b.data, format!("trade {}", k));
        assert_eq!(b.previous_hash, chain.block(k - 1).unwrap().hash);
        assert_eq!(b.hash, digest(&b.previous_hash, b.timestamp, b.index, &b.data, b.nonce));
        k += 1;
    }
}

#[test]
fn appended_block_reports_how_its_search_ended() {
    let mut chain = Blockchain::new().unwrap();
    let report = chain.append(1, String::from("trade")).unwrap();
    let b = chain.block(1).unwrap();
    assert_eq!(b.nonce + 1, report.attempts);
    let qualifies = b.hash.starts_with("0000");
    assert_eq!(report.outcome == MineOutcome::Found, qualifies);
    if !qualifies {
        assert_eq!(b.nonce, 100);
    }
}

#[test]
fn a_clock_before_the_epoch_is_unavailable() {
    let later = UNIX_EPOCH + Duration::from_secs(10);
    let backwards = UNIX_EPOCH.duration_since(later);
    assert!(backwards.is_err());
    assert_eq!(elapsed_seconds(backwards), Err(ClockError::Unavailable));
}

#[test]
fn elapsed_seconds_are_whole_seconds() {
    assert_eq!(elapsed_seconds(Ok(Duration::from_millis(5999))), Ok(5));
    assert_eq!(elapsed_seconds(Ok(Duration::from_secs(0))), Ok(0));
    let later = UNIX_EPOCH + Duration::from_secs(1700000000);
    assert_eq!(elapsed_seconds(later.duration_since(UNIX_EPOCH)), Ok(1700000000));
}
