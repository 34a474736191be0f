use swap_engine::error::ErrorCode;
use swap_engine::lamports::{
    close_sandwich, close_sandwiches_and_topup_tipper, fast_path_tip_dynamic, fast_path_tip_static,
    move_lamports, tip_dynamic, topup_tipper,
};

#[test]
fn moving_lamports_debits_and_credits() {
    assert_eq!(
        move_lamports(100, 5, 30, ErrorCode::InsufficientFunds, ErrorCode::ArithmeticOverflow),
        Ok((70, 35))
    );
}

#[test]
fn moving_more_than_the_balance_is_refused() {
    assert_eq!(
        move_lamports(10, 0, 30, ErrorCode::InsufficientFunds, ErrorCode::ArithmeticOverflow),
        Err(ErrorCode::InsufficientFunds)
    );
    assert_eq!(
        move_lamports(100, u64::MAX, 1, ErrorCode::InsufficientFunds, ErrorCode::ArithmeticOverflow),
        Err(ErrorCode::ArithmeticOverflow)
    );
}

#[test]
fn moving_back_restores_the_balances() {
    let (from, to) = move_lamports(500, 20, 120, ErrorCode::Overflow, ErrorCode::Overflow).unwrap();
    assert_eq!(from + to, 520);
    assert_eq!(move_lamports(to, from, 120, ErrorCode::Overflow, ErrorCode::Overflow), Ok((20, 500)));
}

#[test]
fn dynamic_tip_moves_the_base_amount() {
    assert_eq!(tip_dynamic(100, 0, 40), Ok((60, 40)));
    assert_eq!(tip_dynamic(10, 0, 40), Err(ErrorCode::Overflow));
    assert_eq!(tip_dynamic(u64::MAX, 0, u64::MAX / 1000), Err(ErrorCode::Overflow));
}

#[test]
fn fast_path_tips_agree() {
    for amount in [0u64, 1, 40, 99, 100, 101] {
        assert_eq!(fast_path_tip_dynamic(100, 7, amount), tip_dynamic(100, 7, amount));
        assert_eq!(fast_path_tip_dynamic(100, 7, amount), fast_path_tip_static(100, 7, amount));
    }
    assert_eq!(fast_path_tip_static(100, 0, 40), Ok((60, 40)));
    assert_eq!(fast_path_tip_static(100, u64::MAX, 1), Err(ErrorCode::Overflow));
}

#[test]
fn topup_moves_from_payer_to_tipper() {
    assert_eq!(topup_tipper(10, 3, 4), Ok((6, 7)));
    assert_eq!(topup_tipper(10, 0, 11), Err(ErrorCode::Overflow));
}

#[test]
fn closing_a_sandwich_hands_over_its_lamports() {
    assert_eq!(close_sandwich(0, 50, 10), Ok((50, 10)));
    assert_eq!(close_sandwich(5, 50, 10), Ok((0, 60)));
    assert_eq!(close_sandwich(5, 1, u64::MAX), Err(ErrorCode::Overflow));
}

#[test]
fn sweep_closes_the_accounts_with_data() {
    match close_sandwiches_and_topup_tipper(3, &[false, true, false, false], 7) {
        Ok(sweep) => {
            assert_eq!(sweep.closed, vec![0usize, 2]);
            assert_eq!(sweep.total_rent, 14);
        }
        Err(_) => panic!("the sweep was refused"),
    }
}

#[test]
fn sweep_of_too_many_accounts_closes_none() {
    match close_sandwiches_and_topup_tipper(11, &[false; 12], 7) {
        Ok(sweep) => {
            assert!(sweep.closed.is_empty());
            assert_eq!(sweep.total_rent, 0);
        }
        Err(_) => panic!("the sweep was refused"),
    }
}

#[test]
fn sweep_stops_at_the_listed_accounts() {
    match close_sandwiches_and_topup_tipper(10, &[false, false], 1) {
        Ok(sweep) => {
            assert_eq!(sweep.closed, vec![0usize, 1]);
            assert_eq!(sweep.total_rent, 2);
        }
        Err(_) => panic!("the sweep was refused"),
    }
}

#[test]
fn sweep_refuses_overflowing_rent() {
    assert!(matches!(
        close_sandwiches_and_topup_tipper(2, &[false, false], u64::MAX),
        Err(ErrorCode::Overflow)
    ));
}
