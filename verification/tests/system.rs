use swap_engine::error::ErrorCode;
use swap_engine::system::{create_tipper, tip_dynamic, tip_static, TipperState, TIP_PARAM_KEY};

fn params(p: [u64; 4], flag: u8) -> Vec<u8> {
    let mut v = Vec::new();
    for x in p {
        v.extend_from_slice(&(x ^ TIP_PARAM_KEY).to_le_bytes());
    }
    v.push(flag);
    v
}

#[test]
fn new_tipper_is_marked_and_empty() {
    assert_eq!(
        create_tipper(),
        TipperState { magic: 0xfc74a147ce401273, tip_amount: 0, tip_flag: 0, static_tip_amount: 0 }
    );
}

#[test]
fn static_tip_pays_and_records_the_amount() {
    let data = 25u64.to_le_bytes();
    match tip_static(&data, 100, 0, create_tipper()) {
        Ok(o) => {
            assert_eq!(o.payer, 75);
            assert_eq!(o.recipient, 25);
            assert_eq!(o.state.static_tip_amount, 25);
            assert_eq!(o.state.tip_amount, 0);
        }
        Err(e) => panic!("{:?}", e),
    }
}

#[test]
fn static_tip_refuses_a_short_payer_and_an_overflow() {
    let data = 25u64.to_le_bytes();
    assert!(matches!(tip_static(&data, 10, 0, create_tipper()), Err(ErrorCode::InsufficientFunds)));
    assert!(matches!(
        tip_static(&data, 100, u64::MAX, create_tipper()),
        Err(ErrorCode::ArithmeticOverflow)
    ));
}

#[test]
fn dynamic_tip_before_the_deadline_takes_the_third_share() {
    let data = params([400, 33, 2000, 1000], 7);
    match tip_dynamic(&data, 500, 1000, 0, create_tipper()) {
        Ok(o) => {
            assert_eq!(o.payer, 900);
            assert_eq!(o.recipient, 100);
            assert_eq!(o.state.tip_amount, 100);
            assert_eq!(o.state.tip_flag, 7);
        }
        Err(e) => panic!("{:?}", e),
    }
}

#[test]
fn dynamic_tip_after_the_deadline_takes_the_fixed_tip() {
    let data = params([400, 33, 2000, 100], 1);
    match tip_dynamic(&data, 500, 1000, 0, create_tipper()) {
        Ok(o) => assert_eq!(o.state.tip_amount, 33),
        Err(e) => panic!("{:?}", e),
    }
}

#[test]
fn dynamic_tip_after_the_deadline_without_a_fixed_tip_takes_the_first_share() {
    let data = params([400, 0, 2000, 500], 1);
    match tip_dynamic(&data, 500, 1000, 0, create_tipper()) {
        Ok(o) => {
            assert_eq!(o.state.tip_amount, 20);
            assert_eq!(o.payer, 980);
        }
        Err(e) => panic!("{:?}", e),
    }
}

#[test]
fn dynamic_tip_refuses_a_short_payer() {
    let data = params([400, 33, 2000, 100], 1);
    assert!(matches!(
        tip_dynamic(&data, 500, 10, 0, create_tipper()),
        Err(ErrorCode::InsufficientFunds)
    ));
}
