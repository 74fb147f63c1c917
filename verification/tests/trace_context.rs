use drive_ocr::trace_context::{extract, find_value, inject, SpanContext};

#[test]
fn inject_writes_the_w3c_header() {
    let context = SpanContext {
        trace_id: 0x0af7651916cd43dd8448eb211c80319c,
        span_id: 0xb7ad6b7169203331,
        sampled: true,
        trace_state: String::new(),
    };
    let properties = inject(&context);
    assert_eq!(
        properties,
        vec![
            (
                "traceparent".to_string(),
                "00-0af7651916cd43dd8448eb211c80319c-b7ad6b7169203331-01".to_string()
            ),
            ("tracestate".to_string(), String::new()),
        ]
    );
}

#[test]
fn extract_inverts_inject() {
    let context =
        SpanContext { trace_id: 1, span_id: u64::MAX, sampled: false, trace_state: String::new() };
    assert_eq!(extract(&inject(&context)), Some(context));
    let context = SpanContext {
        trace_id: u128::MAX,
        span_id: 1,
        sampled: true,
        trace_state: "rojo=00f067aa0ba902b7,congo=t61rcWkgMzE".to_string(),
    };
    assert_eq!(
        inject(&context)[1],
        ("tracestate".to_string(), "rojo=00f067aa0ba902b7,congo=t61rcWkgMzE".to_string())
    );
    assert_eq!(extract(&inject(&context)), Some(context));
}

#[test]
fn invalid_context_is_not_injected() {
    let context =
        SpanContext { trace_id: 0, span_id: 7, sampled: true, trace_state: "a=b".to_string() };
    assert_eq!(inject(&context), Vec::<(String, String)>::new());
    assert_eq!(extract(&inject(&context)), None);
    let context = SpanContext { trace_id: 7, span_id: 0, sampled: true, trace_state: String::new() };
    assert_eq!(inject(&context), Vec::<(String, String)>::new());
}

#[test]
fn extract_without_header_finds_nothing() {
    assert_eq!(extract(&Vec::new()), None);
    assert_eq!(extract(&vec![("tracestate".to_string(), "a=b".to_string())]), None);
    assert_eq!(extract(&vec![("traceparent".to_string(), "garbage".to_string())]), None);
    assert_eq!(
        extract(&vec![(
            "traceparent".to_string(),
            "00-00000000000000000000000000000000-b7ad6b7169203331-01".to_string()
        )]),
        None
    );
}

#[test]
fn extract_takes_the_last_header() {
    let properties = vec![
        (
            "traceparent".to_string(),
            "00-0af7651916cd43dd8448eb211c80319c-b7ad6b7169203331-01".to_string(),
        ),
        (
            "traceparent".to_string(),
            "00-000000000000000000000000000000ff-0000000000000010-00".to_string(),
        ),
    ];
    assert_eq!(
        extract(&properties),
        Some(SpanContext {
            trace_id: 0xff,
            span_id: 0x10,
            sampled: false,
            trace_state: String::new()
        })
    );
}

/// A few hundred contexts, spread over the whole range of identifiers.
fn contexts() -> Vec<SpanContext> {
    let mut state: u128 = 0x2545f4914f6cdd1d_9e3779b97f4a7c15;
    let mut contexts = Vec::new();
    for round in 0..300u32 {
        state = state.wrapping_mul(0x5851f42d4c957f2d_14057b7ef767814f).wrapping_add(0xb);
        let trace_id = (state >> (round % 120)).max(1);
        state = state.wrapping_mul(0x5851f42d4c957f2d_14057b7ef767814f).wrapping_add(0xb);
        let span_id = (((state >> 64) as u64) >> (round % 60)).max(1);
        let trace_state = match round % 3 {
            0 => String::new(),
            1 => format!("vendor{}=value{}", round, round),
            _ => format!("a/b@c=*{},k_{}=-{}-", round, round, round),
        };
        contexts.push(SpanContext { trace_id, span_id, sampled: round % 2 == 0, trace_state });
    }
    contexts
}

#[test]
fn the_header_is_version_ids_and_flags_in_fixed_width() {
    for context in contexts() {
        let header = format!(
            "00-{:032x}-{:016x}-{:02x}",
            context.trace_id,
            context.span_id,
            u8::from(context.sampled)
        );
        assert_eq!(
            inject(&context),
            vec![
                ("traceparent".to_string(), header),
                ("tracestate".to_string(), context.trace_state.clone())
            ]
        );
    }
}

#[test]
fn a_header_in_fixed_width_is_read_back_digit_by_digit() {
    for context in contexts() {
        let header = format!(
            "00-{:032x}-{:016x}-{:02x}",
            context.trace_id,
            context.span_id,
            u8::from(context.sampled)
        );
        let properties = vec![
            ("tracestate".to_string(), context.trace_state.clone()),
            ("traceparent".to_string(), header),
        ];
        assert_eq!(extract(&properties), Some(context.clone()));
        assert_eq!(extract(&inject(&context)), Some(context));
    }
}

#[test]
fn find_value_takes_the_last_entry_of_a_key() {
    let entries = vec![
        ("a".to_string(), "1".to_string()),
        ("b".to_string(), "2".to_string()),
        ("a".to_string(), "3".to_string()),
    ];
    assert_eq!(find_value(&entries, "a"), Some("3".to_string()));
    assert_eq!(find_value(&entries, "b"), Some("2".to_string()));
    assert_eq!(find_value(&entries, "c"), None);
    assert_eq!(find_value(&Vec::new(), "a"), None);
}

fn with_state(trace_state: &str) -> SpanContext {
    SpanContext { trace_id: 5, span_id: 6, sampled: true, trace_state: trace_state.to_string() }
}

#[test]
fn a_trace_state_that_cannot_be_read_travels_as_an_empty_one() {
    for unreadable in ["no separator", "a=b,c", "UPPER=x", "a=b=c,", "=x,é=1"] {
        let context = with_state(unreadable);
        assert_eq!(inject(&context)[1], ("tracestate".to_string(), String::new()));
        assert_eq!(extract(&inject(&context)), Some(with_state("")));
    }
}

#[test]
fn a_trace_state_is_spelled_as_the_propagator_spells_it() {
    // Equal signs in front of a value are dropped, a closing comma too.
    for (given, written) in [("a==b", "a=b"), ("a=b,", "a=b"), ("a=b,c===d,", "a=b,c=d"), ("a=", "a=")] {
        let context = with_state(given);
        assert_eq!(inject(&context)[1], ("tracestate".to_string(), written.to_string()));
        assert_eq!(extract(&inject(&context)), Some(with_state(written)));
        // What was read back is written again as it is.
        let back = extract(&inject(&context)).unwrap();
        assert_eq!(extract(&inject(&back)), Some(back));
    }
}

#[test]
fn the_trace_state_is_read_only_with_a_valid_parent() {
    let state = ("tracestate".to_string(), "a=b".to_string());
    assert_eq!(extract(&vec![state.clone()]), None);
    assert_eq!(
        extract(&vec![state.clone(), ("traceparent".to_string(), "garbage".to_string())]),
        None
    );
    assert_eq!(
        extract(&vec![
            state,
            (
                "traceparent".to_string(),
                "00-00000000000000000000000000000005-0000000000000006-01".to_string()
            )
        ]),
        Some(with_state("a=b"))
    );
}
