use gbln_ffi::accessors::gbln_value_as_i32;
use gbln_ffi::builders::{gbln_array_push, gbln_object_insert};
use gbln_ffi::config::{gbln_config_new, GblnConfig};
use gbln_ffi::constructors::{
    gbln_value_new_array, gbln_value_new_bool, gbln_value_new_object, gbln_value_new_str,
};
use gbln_ffi::containers::{
    gbln_array_get, gbln_array_len, gbln_object_get, gbln_object_len, gbln_value_type,
};
use gbln_ffi::error::{EngineError, ErrorChannel, ErrorKind};
use gbln_ffi::io::{finish_write, gbln_read_io, gbln_write_io};
use gbln_ffi::parse::{deliver_value, gbln_parse};
use gbln_ffi::serialize::{
    gbln_last_error_message, gbln_last_error_suggestion, gbln_to_string, gbln_to_string_pretty,
    wrap_rendering,
};
use gbln_ffi::{get_last_error, GblnErrorCode, GblnValue, GblnValueType, Value};

fn failure(kind: ErrorKind, message: &str, suggestion: Option<&str>) -> EngineError {
    EngineError {
        kind,
        message: String::from(message),
        suggestion: suggestion.map(String::from),
    }
}

#[test]
fn parse_then_inspect() {
    let mut channel = ErrorChannel::new();
    let mut out = None;
    let mut seen = String::new();
    let code = gbln_parse(&mut channel, Some(b"{\"n\": 42}"), Some(&mut out), |text: &str| {
        seen = String::from(text);
        Ok(Value::Object(vec![(String::from("n"), Value::I32(42))]))
    });
    assert_eq!(code, GblnErrorCode::Success);
    assert_eq!(seen, "{\"n\": 42}");
    assert_eq!(get_last_error(&channel), None);
    let root = out.unwrap();
    assert_eq!(gbln_value_type(Some(root.inner())), GblnValueType::Object);
    assert_eq!(gbln_object_len(Some(root.inner())), 1);
    let n = gbln_object_get(Some(root.inner()), Some(b"n"));
    assert_eq!(gbln_value_type(n), GblnValueType::I32);
    let mut ok = false;
    assert_eq!(gbln_value_as_i32(n, Some(&mut ok)), 42);
    assert!(ok);
}

#[test]
fn parse_hands_the_decoded_text_to_the_engine() {
    let mut channel = ErrorChannel::new();
    let mut out = None;
    let mut seen = String::new();
    gbln_parse(&mut channel, Some("caf\u{e9}".as_bytes()), Some(&mut out), |text: &str| {
        seen = String::from(text);
        Ok(Value::Null)
    });
    assert_eq!(seen, "caf\u{e9}");
    assert_eq!(out, Some(GblnValue::new(Value::Null)));
}

#[test]
fn parse_refuses_absent_inputs_without_asking_the_engine() {
    let mut channel = ErrorChannel::new();
    let mut out = Some(GblnValue::new(Value::U8(1)));
    let mut asked = false;
    let code = gbln_parse(&mut channel, None, Some(&mut out), |_: &str| {
        asked = true;
        Ok(Value::Null)
    });
    assert_eq!(code, GblnErrorCode::ErrorNullPointer);
    assert!(!asked);
    assert_eq!(out, Some(GblnValue::new(Value::U8(1))));
    assert_eq!(get_last_error(&channel), Some((String::from("Null pointer"), None)));

    let mut channel = ErrorChannel::new();
    let code = gbln_parse(&mut channel, Some(b"x"), None, |_: &str| {
        asked = true;
        Ok(Value::Null)
    });
    assert_eq!(code, GblnErrorCode::ErrorNullPointer);
    assert!(!asked);
    assert_eq!(get_last_error(&channel), Some((String::from("Null pointer"), None)));
}

#[test]
fn parse_refuses_malformed_input_without_asking_the_engine() {
    let mut channel = ErrorChannel::new();
    let mut out = None;
    let mut asked = false;
    let code = gbln_parse(&mut channel, Some(&[0x7b, 0xff]), Some(&mut out), |_: &str| {
        asked = true;
        Ok(Value::Null)
    });
    assert_eq!(code, GblnErrorCode::ErrorNullPointer);
    assert!(!asked);
    assert_eq!(out, None);
    let (message, suggestion) = get_last_error(&channel).unwrap();
    assert!(message.starts_with("Invalid UTF-8: "));
    assert!(message.len() > "Invalid UTF-8: ".len());
    assert_eq!(suggestion, None);
}

#[test]
fn parse_maps_each_engine_failure_to_its_code() {
    let kinds = [
        (ErrorKind::UnexpectedCharacter, GblnErrorCode::ErrorUnexpectedChar),
        (ErrorKind::UnterminatedString, GblnErrorCode::ErrorUnterminatedString),
        (ErrorKind::UnexpectedToken, GblnErrorCode::ErrorUnexpectedToken),
        (ErrorKind::UnexpectedEof, GblnErrorCode::ErrorUnexpectedEof),
        (ErrorKind::InvalidSyntax, GblnErrorCode::ErrorInvalidSyntax),
        (ErrorKind::IntegerOutOfRange, GblnErrorCode::ErrorIntOutOfRange),
        (ErrorKind::StringTooLong, GblnErrorCode::ErrorStringTooLong),
        (ErrorKind::TypeMismatch, GblnErrorCode::ErrorTypeMismatch),
        (ErrorKind::InvalidTypeHint, GblnErrorCode::ErrorInvalidTypeHint),
        (ErrorKind::DuplicateKey, GblnErrorCode::ErrorDuplicateKey),
        (ErrorKind::IoError, GblnErrorCode::ErrorIo),
    ];
    for (kind, expected) in kinds {
        let mut channel = ErrorChannel::new();
        let mut out = Some(GblnValue::new(Value::Bool(true)));
        let code = gbln_parse(&mut channel, Some(b"?"), Some(&mut out), |_: &str| {
            Err(failure(kind, "engine said no", Some("engine hint")))
        });
        assert_eq!(code, expected);
        assert_eq!(out, Some(GblnValue::new(Value::Bool(true))));
        assert_eq!(gbln_last_error_message(&channel), Some(String::from("engine said no")));
        assert_eq!(gbln_last_error_suggestion(&channel), Some(String::from("engine hint")));
    }
}

#[test]
fn deliver_value_stores_a_fresh_handle() {
    let mut channel = ErrorChannel::new();
    let mut out = None;
    assert_eq!(
        deliver_value(&mut channel, Ok(Value::I64(-9)), &mut out),
        GblnErrorCode::Success
    );
    assert_eq!(out, Some(GblnValue::new(Value::I64(-9))));
    assert_eq!(get_last_error(&channel), None);

    let code = deliver_value(
        &mut channel,
        Err(failure(ErrorKind::UnexpectedEof, "ended early", None)),
        &mut out,
    );
    assert_eq!(code, GblnErrorCode::ErrorUnexpectedEof);
    assert_eq!(out, Some(GblnValue::new(Value::I64(-9))));
    assert_eq!(get_last_error(&channel), Some((String::from("ended early"), None)));
}

#[test]
fn build_then_serialize() {
    let mut channel = ErrorChannel::new();
    let mut object = gbln_value_new_object();
    let mut flag = Some(gbln_value_new_bool(true));
    let mut name = gbln_value_new_str(&mut channel, Some(b"abc"), 8);
    assert_eq!(
        gbln_object_insert(&mut channel, Some(&mut object), Some(b"flag"), &mut flag),
        GblnErrorCode::Success
    );
    assert_eq!(
        gbln_object_insert(&mut channel, Some(&mut object), Some(b"name"), &mut name),
        GblnErrorCode::Success
    );
    let mut array = gbln_value_new_array();
    let mut slot = Some(object);
    assert_eq!(
        gbln_array_push(&mut channel, Some(&mut array), &mut slot),
        GblnErrorCode::Success
    );

    let expected = Value::Array(vec![Value::Object(vec![
        (String::from("flag"), Value::Bool(true)),
        (String::from("name"), Value::Str(String::from("abc"))),
    ])]);
    let mut same = false;
    let text = gbln_to_string(&mut channel, Some(array.inner()), |value: &Value| {
        same = *value == expected;
        String::from("[{flag<b>(t)name<s8>(abc)}]")
    });
    assert!(same);
    assert_eq!(text, Some(String::from("[{flag<b>(t)name<s8>(abc)}]")));
    assert_eq!(get_last_error(&channel), None);
    assert_eq!(gbln_array_len(Some(array.inner())), 1);
    let element = gbln_array_get(Some(array.inner()), 0);
    assert_eq!(gbln_object_len(element), 2);
}

#[test]
fn rendering_of_an_absent_handle() {
    let mut channel = ErrorChannel::new();
    let mut asked = false;
    let text = gbln_to_string(&mut channel, None, |_: &Value| {
        asked = true;
        String::new()
    });
    assert_eq!(text, None);
    assert!(!asked);
    assert_eq!(get_last_error(&channel), Some((String::from("Null pointer"), None)));

    let mut channel = ErrorChannel::new();
    let text = gbln_to_string_pretty(&mut channel, None, |_: &Value| {
        asked = true;
        String::new()
    });
    assert_eq!(text, None);
    assert!(!asked);
    assert_eq!(get_last_error(&channel), Some((String::from("Null pointer"), None)));
}

#[test]
fn rendering_with_nul_is_not_handed_out() {
    let mut channel = ErrorChannel::new();
    let value = Value::Str(String::from("a\0b"));
    let text = gbln_to_string(&mut channel, Some(&value), |_: &Value| String::from("(a\0b)"));
    assert_eq!(text, None);
    assert_eq!(
        get_last_error(&channel),
        Some((String::from("Failed to create C string"), None))
    );

    let mut channel = ErrorChannel::new();
    let text =
        gbln_to_string_pretty(&mut channel, Some(&value), |_: &Value| String::from("\0"));
    assert_eq!(text, None);
    assert_eq!(
        gbln_last_error_message(&channel),
        Some(String::from("Failed to create C string"))
    );
}

#[test]
fn pretty_rendering_is_handed_out_as_the_engine_gave_it() {
    let mut channel = ErrorChannel::new();
    let value = Value::U8(3);
    let text = gbln_to_string_pretty(&mut channel, Some(&value), |v: &Value| {
        format!("value: {:?}\n", v)
    });
    assert_eq!(text, Some(String::from("value: U8(3)\n")));
    assert_eq!(get_last_error(&channel), None);
    assert_eq!(wrap_rendering(&mut channel, String::new()), Some(String::new()));
    assert_eq!(get_last_error(&channel), None);
}

#[test]
fn write_refuses_absent_inputs() {
    let value = Value::Null;
    let mut asked = false;
    let mut channel = ErrorChannel::new();
    let code = gbln_write_io(
        &mut channel,
        None,
        Some(b"/tmp/x"),
        None,
        |_: &Value, _: &str, _: &GblnConfig| {
            asked = true;
            Ok(())
        },
    );
    assert_eq!(code, GblnErrorCode::ErrorNullPointer);
    assert_eq!(get_last_error(&channel), Some((String::from("Null value pointer"), None)));

    let code = gbln_write_io(
        &mut channel,
        Some(&value),
        None,
        None,
        |_: &Value, _: &str, _: &GblnConfig| {
            asked = true;
            Ok(())
        },
    );
    assert_eq!(code, GblnErrorCode::ErrorNullPointer);
    assert_eq!(get_last_error(&channel), Some((String::from("Null path pointer"), None)));

    let code = gbln_write_io(
        &mut channel,
        None,
        None,
        None,
        |_: &Value, _: &str, _: &GblnConfig| {
            asked = true;
            Ok(())
        },
    );
    assert_eq!(code, GblnErrorCode::ErrorNullPointer);
    assert_eq!(get_last_error(&channel), Some((String::from("Null value pointer"), None)));
    assert!(!asked);
}

#[test]
fn write_refuses_a_malformed_path_with_the_io_code() {
    let value = Value::Null;
    let mut asked = false;
    let mut channel = ErrorChannel::new();
    let code = gbln_write_io(
        &mut channel,
        Some(&value),
        Some(&[0x2f, 0xfe]),
        None,
        |_: &Value, _: &str, _: &GblnConfig| {
            asked = true;
            Ok(())
        },
    );
    assert_eq!(code, GblnErrorCode::ErrorIo);
    assert!(!asked);
    let (message, suggestion) = get_last_error(&channel).unwrap();
    assert!(message.starts_with("Invalid UTF-8 in path: "));
    assert!(message.len() > "Invalid UTF-8 in path: ".len());
    assert_eq!(suggestion, None);
}

#[test]
fn write_uses_the_io_preset_where_no_configuration_is_given() {
    let value = Value::I16(5);
    let mut channel = ErrorChannel::new();
    let mut seen = None;
    let code = gbln_write_io(
        &mut channel,
        Some(&value),
        Some(b"/tmp/x.io.gbln.xz"),
        None,
        |v: &Value, p: &str, c: &GblnConfig| {
            seen = Some((*v == Value::I16(5), String::from(p), *c));
            Ok(())
        },
    );
    assert_eq!(code, GblnErrorCode::Success);
    assert_eq!(get_last_error(&channel), None);
    assert_eq!(seen, Some((true, String::from("/tmp/x.io.gbln.xz"), GblnConfig::io_format())));
}

#[test]
fn write_hands_the_given_configuration_to_the_engine() {
    let value = Value::I16(5);
    let mut channel = ErrorChannel::new();
    let config = gbln_config_new(false, false, 1, 4, false);
    let mut seen = None;
    let code = gbln_write_io(
        &mut channel,
        Some(&value),
        Some("/tmp/\u{e9}.gbln".as_bytes()),
        Some(&config),
        |_: &Value, p: &str, c: &GblnConfig| {
            seen = Some((String::from(p), *c));
            Ok(())
        },
    );
    assert_eq!(code, GblnErrorCode::Success);
    assert_eq!(seen, Some((String::from("/tmp/\u{e9}.gbln"), config)));
}

#[test]
fn write_reports_every_engine_failure_as_io() {
    let value = Value::Null;
    for kind in [ErrorKind::IoError, ErrorKind::TypeMismatch, ErrorKind::InvalidSyntax] {
        let mut channel = ErrorChannel::new();
        let code = gbln_write_io(
            &mut channel,
            Some(&value),
            Some(b"/nowhere/x"),
            None,
            |_: &Value, _: &str, _: &GblnConfig| {
                Err(failure(kind, "cannot write", Some("check the path")))
            },
        );
        assert_eq!(code, GblnErrorCode::ErrorIo);
        assert_eq!(
            get_last_error(&channel),
            Some((String::from("cannot write"), Some(String::from("check the path"))))
        );
    }
    let mut channel = ErrorChannel::new();
    assert_eq!(finish_write(&mut channel, Ok(())), GblnErrorCode::Success);
    assert_eq!(get_last_error(&channel), None);
    assert_eq!(
        finish_write(&mut channel, Err(failure(ErrorKind::IoError, "disk full", None))),
        GblnErrorCode::ErrorIo
    );
    assert_eq!(get_last_error(&channel), Some((String::from("disk full"), None)));
}

#[test]
fn read_refuses_absent_inputs_and_malformed_paths() {
    let mut asked = false;
    let mut channel = ErrorChannel::new();
    let mut out = None;
    let code = gbln_read_io(&mut channel, None, Some(&mut out), |_: &str| {
        asked = true;
        Ok(Value::Null)
    });
    assert_eq!(code, GblnErrorCode::ErrorNullPointer);
    assert_eq!(get_last_error(&channel), Some((String::from("Null pointer"), None)));

    let code = gbln_read_io(&mut channel, Some(b"/tmp/x"), None, |_: &str| {
        asked = true;
        Ok(Value::Null)
    });
    assert_eq!(code, GblnErrorCode::ErrorNullPointer);

    let code = gbln_read_io(&mut channel, Some(&[0xc3]), Some(&mut out), |_: &str| {
        asked = true;
        Ok(Value::Null)
    });
    assert_eq!(code, GblnErrorCode::ErrorIo);
    assert!(gbln_last_error_message(&channel).unwrap().starts_with("Invalid UTF-8 in path: "));
    assert!(!asked);
    assert_eq!(out, None);
}

#[test]
fn read_delivers_the_value_or_the_code_of_the_failure() {
    let mut channel = ErrorChannel::new();
    let mut out = None;
    let mut seen = String::new();
    let code = gbln_read_io(&mut channel, Some(b"/tmp/x.io.gbln.xz"), Some(&mut out), |p: &str| {
        seen = String::from(p);
        Ok(Value::Array(vec![Value::U64(1), Value::Null]))
    });
    assert_eq!(code, GblnErrorCode::Success);
    assert_eq!(seen, "/tmp/x.io.gbln.xz");
    let root = out.unwrap();
    assert_eq!(gbln_array_len(Some(root.inner())), 2);

    let mut out = None;
    let code = gbln_read_io(&mut channel, Some(b"/tmp/missing"), Some(&mut out), |_: &str| {
        Err(failure(ErrorKind::IoError, "no such file", None))
    });
    assert_eq!(code, GblnErrorCode::ErrorIo);
    assert_eq!(out, None);
    assert_eq!(get_last_error(&channel), Some((String::from("no such file"), None)));

    let code = gbln_read_io(&mut channel, Some(b"/tmp/broken"), Some(&mut out), |_: &str| {
        Err(failure(ErrorKind::UnterminatedString, "string never ends", Some("close it")))
    });
    assert_eq!(code, GblnErrorCode::ErrorUnterminatedString);
    assert_eq!(
        get_last_error(&channel),
        Some((String::from("string never ends"), Some(String::from("close it"))))
    );
}

#[test]
fn write_then_read_through_one_store() {
    let mut store: Option<(String, Value)> = None;
    let mut channel = ErrorChannel::new();
    let value = Value::Object(vec![
        (String::from("a"), Value::I8(-1)),
        (String::from("b"), Value::Str(String::from("text"))),
        (String::from("c"), Value::F64(2.5f64.to_bits())),
    ]);
    let config = GblnConfig::io_format();
    let code = gbln_write_io(
        &mut channel,
        Some(&value),
        Some(b"/tmp/x.io.gbln.xz"),
        Some(&config),
        |v: &Value, p: &str, _: &GblnConfig| {
            let copy = match v {
                Value::Object(fields) => Value::Object(
                    fields
                        .iter()
                        .map(|(k, f)| {
                            let leaf = match f {
                                Value::I8(n) => Value::I8(*n),
                                Value::Str(s) => Value::Str(String::from(s.as_str())),
                                Value::F64(bits) => Value::F64(*bits),
                                _ => Value::Null,
                            };
                            (String::from(k.as_str()), leaf)
                        })
                        .collect(),
                ),
                _ => Value::Null,
            };
            store = Some((String::from(p), copy));
            Ok(())
        },
    );
    assert_eq!(code, GblnErrorCode::Success);

    let mut out = None;
    let code = gbln_read_io(&mut channel, Some(b"/tmp/x.io.gbln.xz"), Some(&mut out), |p: &str| {
        match store.take() {
            Some((path, kept)) if path == p => Ok(kept),
            _ => Err(failure(ErrorKind::IoError, "no such file", None)),
        }
    });
    assert_eq!(code, GblnErrorCode::Success);
    assert_eq!(out.unwrap().into_inner(), value);
}
