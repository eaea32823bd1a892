use dao_chain_client::config::ChainConfig;
use dao_chain_client::error::ProcessError;
use dao_chain_client::quantity::{round_up_product, Quantity};
use dao_chain_client::signing::fee;

fn number(value: f64) -> Quantity {
    Quantity { bits: value.to_bits() }
}

/// What the machine's own arithmetic gives.
fn expected(count: u64, factor: f64) -> Option<u64> {
    let product = (count as f64 * factor).ceil();
    if !product.is_finite() || product < 0.0 || product >= u64::MAX as f64 {
        None
    } else {
        Some(product as u64)
    }
}

fn config(price: f64, adjustment: f64) -> ChainConfig {
    ChainConfig {
        denom: "ujuno".into(),
        prefix: "juno".into(),
        chain_id: "testing".into(),
        derivation_path: "m/44'/118'/0'/0/0".into(),
        gas_price: number(price),
        gas_adjustment: number(adjustment),
        rpc_endpoint: Some("http://127.0.0.1:26657".into()),
        grpc_endpoint: None,
    }
}

#[test]
fn signs_and_finiteness_are_read_from_the_bits() {
    for value in [
        0.0,
        -0.0,
        1.0,
        -1.0,
        0.1,
        -0.1,
        f64::MIN_POSITIVE,
        -f64::MIN_POSITIVE,
        5e-324,
        -5e-324,
        f64::MAX,
        f64::MIN,
        f64::INFINITY,
        f64::NEG_INFINITY,
        f64::NAN,
    ] {
        let quantity = number(value);
        assert_eq!(quantity.is_finite(), value.is_finite(), "{value}");
        if value.is_finite() {
            assert_eq!(quantity.is_below_zero(), value < 0.0, "{value}");
            assert_eq!(quantity.is_above_zero(), value > 0.0, "{value}");
        }
    }
}

#[test]
fn products_agree_with_the_machine_at_the_edges() {
    let factors = [
        0.0,
        -0.0,
        5e-324,
        -5e-324,
        1e-300,
        f64::MIN_POSITIVE,
        0.1,
        -0.1,
        0.25,
        0.5,
        -0.5,
        0.9999999999999999,
        1.0,
        -1.0,
        1.0000000000000002,
        1.1,
        1.3,
        1.5,
        2.0,
        3.7,
        1e9,
        9007199254740992.0,
        9007199254740994.0,
        1.8446744073709552e19,
        1.844674407370955e19,
        1e300,
        f64::MAX,
        f64::MIN,
        f64::INFINITY,
        f64::NEG_INFINITY,
        f64::NAN,
    ];
    let counts = [
        0,
        1,
        2,
        3,
        10,
        20001,
        30002,
        (1 << 52) - 1,
        1 << 52,
        (1 << 53) - 1,
        1 << 53,
        (1 << 53) + 1,
        (1 << 53) + 3,
        (1 << 54) + 2,
        (1 << 54) + 6,
        (1 << 63) - 1,
        1 << 63,
        u64::MAX - 2048,
        u64::MAX - 1024,
        u64::MAX - 1023,
        u64::MAX,
    ];
    for factor in factors {
        for count in counts {
            assert_eq!(
                round_up_product(count, number(factor)),
                expected(count, factor),
                "{count} * {factor}"
            );
        }
    }
}

#[test]
fn products_agree_with_the_machine_on_many_numbers() {
    let mut state: u64 = 0x9E37_79B9_7F4A_7C15;
    let mut next = move || {
        state ^= state << 13;
        state ^= state >> 7;
        state ^= state << 17;
        state
    };
    for round in 0..200_000 {
        let count = next() >> (next() % 64);
        let bits = if round % 2 == 0 {
            next()
        } else {
            // Factors around one, where most of the rounding takes place.
            let exponent = 1023 - 40 + next() % 80;
            (exponent << 52) | (next() & 0xF_FFFF_FFFF_FFFF)
        };
        let factor = f64::from_bits(bits);
        assert_eq!(
            round_up_product(count, Quantity { bits }),
            expected(count, factor),
            "{count} * {factor}"
        );
    }
}

#[test]
fn fees_are_exact_and_never_saturate() {
    let quoted = fee(20001, &config(0.1, 1.5)).unwrap();
    assert_eq!((quoted.gas_limit(), quoted.amount()), (30002, 3001));
    assert_eq!(quoted.denom().as_str(), "ujuno");
    let free = fee(20001, &config(0.0, 1.5)).unwrap();
    assert_eq!((free.gas_limit(), free.amount()), (30002, 0));
    let none = fee(0, &config(0.1, 1.5)).unwrap();
    assert_eq!((none.gas_limit(), none.amount()), (0, 0));
    for (gas, price, adjustment) in [
        (u64::MAX, 0.1, 1.5),
        (u64::MAX, 0.1, 1.0),
        (1 << 40, 1e10, 1.5),
        (1, f64::NAN, 1.5),
        (1, 0.1, f64::INFINITY),
        (1, -1.0, 1.5),
        (1, 0.1, -1.5),
    ] {
        assert!(matches!(
            fee(gas, &config(price, adjustment)),
            Err(ProcessError::Protocol(text))
                if text == "simulated fee is outside the supported u64 range"
        ));
    }
    let mut unnamed = config(0.1, 1.5);
    unnamed.denom = "x".into();
    let refusal = "x".parse::<cosmrs::Denom>().unwrap_err().to_string();
    assert!(matches!(
        fee(20001, &unnamed),
        Err(ProcessError::Protocol(text)) if text == refusal
    ));
}

#[test]
fn an_adjustment_of_at_least_one_covers_the_simulated_gas() {
    for adjustment in [1.0, 1.0000000000000002, 1.1, 1.5, 7.25] {
        for gas in [0, 1, 2, 3, 20001, 999_999_999, (1 << 53) - 1] {
            let quoted = fee(gas, &config(0.1, adjustment)).unwrap();
            assert!(quoted.gas_limit() >= gas);
        }
    }
    // Above the numbers that the format holds exactly, the conversion itself may round down.
    assert_eq!(fee((1 << 53) + 1, &config(0.1, 1.0)).unwrap().gas_limit(), 1 << 53);
}
