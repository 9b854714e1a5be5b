use trasim::error::ErrorCode;
use trasim::settlement::split_cost;

#[test]
fn split_follows_the_shares() {
    assert_eq!(split_cost(100_000, 7000, 2000, 1000), Ok((70_000, 20_000, 10_000)));
    assert_eq!(split_cost(100_000, 10_000, 0, 0), Ok((100_000, 0, 0)));
    assert_eq!(split_cost(100_000, 0, 10_000, 0), Ok((0, 100_000, 0)));
    assert_eq!(split_cost(100_000, 0, 0, 10_000), Ok((0, 0, 100_000)));
}

#[test]
fn creator_receives_the_remainder() {
    assert_eq!(split_cost(1_001, 7000, 2000, 1000), Ok((700, 200, 101)));
    assert_eq!(split_cost(9, 3333, 3333, 3334), Ok((2, 2, 5)));
    assert_eq!(split_cost(1, 5000, 5000, 0), Ok((0, 0, 1)));
    assert_eq!(split_cost(0, 7000, 2000, 1000), Ok((0, 0, 0)));
}

#[test]
fn split_loses_nothing_to_rounding() {
    let costs = [0u64, 1, 2, 3, 7, 99, 1_001, 123_456_789, u64::MAX - 1, u64::MAX];
    let shares = [(7000u16, 2000u16, 1000u16), (3333, 3333, 3334), (1, 1, 9998), (0, 0, 10_000), (9999, 1, 0)];
    for cost in costs {
        for (r, p, c) in shares {
            let (to_reserve, to_treasury, to_creator) = split_cost(cost, r, p, c).unwrap();
            assert_eq!(to_reserve as u128 + to_treasury as u128 + to_creator as u128, cost as u128);
            assert_eq!(to_reserve as u128, cost as u128 * r as u128 / 10_000);
            assert_eq!(to_treasury as u128, cost as u128 * p as u128 / 10_000);
        }
    }
}

#[test]
fn shares_that_do_not_add_up_are_refused() {
    assert_eq!(split_cost(100, 7000, 2000, 999), Err(ErrorCode::BadBps));
    assert_eq!(split_cost(100, 7000, 2000, 1001), Err(ErrorCode::BadBps));
    assert_eq!(split_cost(100, 0, 0, 0), Err(ErrorCode::BadBps));
    assert_eq!(split_cost(100, u16::MAX, u16::MAX, u16::MAX), Err(ErrorCode::BadBps));
    assert_eq!(split_cost(0, 1, 1, 1), Err(ErrorCode::BadBps));
}
