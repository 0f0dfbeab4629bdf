use supervisor_webui::request_params::RequestParams;

fn all_shapes() -> Vec<RequestParams> {
    vec![
        RequestParams::StringI32I32 { a: "p".to_string(), b: 1, c: 2 },
        RequestParams::StringString { a: "p".to_string(), b: "q".to_string() },
        RequestParams::StringBool { a: "p".to_string(), b: true },
        RequestParams::I32I32 { a: 3, b: 4 },
        RequestParams::String { a: "p".to_string() },
        RequestParams::Bool { a: false },
        RequestParams::Empty {},
    ]
}

fn accepted(p: &RequestParams) -> Vec<bool> {
    let c = |p: &RequestParams| match p {
        RequestParams::StringI32I32 { a, b, c } => RequestParams::StringI32I32 { a: a.clone(), b: *b, c: *c },
        RequestParams::StringString { a, b } => RequestParams::StringString { a: a.clone(), b: b.clone() },
        RequestParams::StringBool { a, b } => RequestParams::StringBool { a: a.clone(), b: *b },
        RequestParams::I32I32 { a, b } => RequestParams::I32I32 { a: *a, b: *b },
        RequestParams::String { a } => RequestParams::String { a: a.clone() },
        RequestParams::Bool { a } => RequestParams::Bool { a: *a },
        RequestParams::Empty {} => RequestParams::Empty {},
    };
    vec![
        c(p).to_string_i32_i32().is_ok(),
        c(p).to_string_string().is_ok(),
        c(p).to_string_bool().is_ok(),
        c(p).to_i32_i32().is_ok(),
        c(p).to_string().is_ok(),
        c(p).to_bool().is_ok(),
        c(p).is_empty().is_ok(),
    ]
}

#[test]
fn each_value_is_accepted_by_exactly_one_conversion() {
    for (k, p) in all_shapes().iter().enumerate() {
        let acc = accepted(p);
        assert_eq!(acc.iter().filter(|x| **x).count(), 1);
        assert!(acc[k]);
    }
}

#[test]
fn conversions_give_back_the_fields() {
    let p = RequestParams::StringI32I32 { a: "worker".to_string(), b: -5, c: 100 };
    assert_eq!(p.to_string_i32_i32(), Ok(("worker".to_string(), -5, 100)));
    let p = RequestParams::StringString { a: "worker".to_string(), b: "HUP".to_string() };
    assert_eq!(p.to_string_string(), Ok(("worker".to_string(), "HUP".to_string())));
    let p = RequestParams::StringBool { a: "worker".to_string(), b: true };
    assert_eq!(p.to_string_bool(), Ok(("worker".to_string(), true)));
    let p = RequestParams::I32I32 { a: 0, b: 1024 };
    assert_eq!(p.to_i32_i32(), Ok((0, 1024)));
    let p = RequestParams::String { a: "group".to_string() };
    assert_eq!(p.to_string(), Ok("group".to_string()));
    let p = RequestParams::Bool { a: true };
    assert_eq!(p.to_bool(), Ok(true));
    let p = RequestParams::Empty {};
    assert_eq!(p.is_empty(), Ok(()));
}

#[test]
fn mismatched_conversions_are_bad_requests() {
    assert_eq!(RequestParams::Empty {}.to_string_i32_i32(), Err("Bad request".to_string()));
    assert_eq!(RequestParams::Empty {}.to_string_string(), Err("Bad request".to_string()));
    assert_eq!(RequestParams::Bool { a: true }.to_string_bool(), Err("Bad request".to_string()));
    assert_eq!(RequestParams::String { a: "x".to_string() }.to_i32_i32(), Err("Bad request".to_string()));
    assert_eq!(RequestParams::I32I32 { a: 1, b: 2 }.to_string(), Err("Bad request".to_string()));
    assert_eq!(RequestParams::Empty {}.to_bool(), Err("Bad request".to_string()));
    assert_eq!(RequestParams::Bool { a: false }.is_empty(), Err("Bad request".to_string()));
}
