use base64::Engine;
use ditherwave::category::{category_name, EffectCategory};
use ditherwave::effect::EffectError;
use ditherwave::plugin::{
    check_manifest_param, decode_pixels, encode_pixels, encode_response, parse_category,
    read_response, ManifestDefault, ParamShape, PluginError, PluginRequest, PluginResponse,
};
use std::collections::HashMap;

type ParamValues = HashMap<String, serde_json::Value>;

#[test]
fn parse_category_accepts_all_documented_values_and_rejects_others() {
    for (s, expected) in [
        ("error_diffusion", EffectCategory::ErrorDiffusion),
        ("ordered", EffectCategory::Ordered),
        ("pattern", EffectCategory::Pattern),
        ("glitch", EffectCategory::Glitch),
        ("special", EffectCategory::Special),
        ("color", EffectCategory::Color),
    ] {
        assert_eq!(parse_category(s).unwrap(), expected);
    }
    assert!(parse_category("not-a-category").is_err());
}

#[test]
fn parse_category_names_the_accepted_values_in_its_error() {
    match parse_category("blur") {
        Err(PluginError::Manifest(m)) => assert_eq!(
            m,
            "unknown category 'blur' (expected one of: error_diffusion, ordered, pattern, glitch, special, color)"
        ),
        _ => panic!("expected a manifest error"),
    }
}

#[test]
fn category_names_shown_in_the_effect_list() {
    assert_eq!(category_name(EffectCategory::ErrorDiffusion), "ErrorDiffusion");
    assert_eq!(category_name(EffectCategory::Color), "Color");
}

#[test]
fn build_param_def_handles_every_kind() {
    assert!(matches!(
        check_manifest_param("on", "bool", false, false, &None, &ManifestDefault::Boolean(true)),
        Ok(ParamShape::Bool { default: true })
    ));
    assert!(matches!(
        check_manifest_param("n", "int", true, true, &None, &ManifestDefault::Integer(3)),
        Ok(ParamShape::Int { default: 3 })
    ));
    let Ok(ParamShape::Choice { options, default }) = check_manifest_param(
        "mode",
        "choice",
        false,
        false,
        &Some(vec!["a".to_string(), "b".to_string()]),
        &ManifestDefault::Text("a".into()),
    ) else {
        panic!("expected Choice");
    };
    assert_eq!(options, vec!["a".to_string(), "b".to_string()]);
    assert_eq!(default, "a");
    assert!(matches!(
        check_manifest_param("f", "float", true, true, &None, &ManifestDefault::Float),
        Ok(ParamShape::Float)
    ));
}

#[test]
fn build_param_def_rejects_a_kind_missing_its_required_fields() {
    let broken = check_manifest_param("n", "int", false, true, &None, &ManifestDefault::Integer(3));
    assert!(broken.is_err());
    match broken {
        Err(PluginError::Manifest(m)) => assert_eq!(m, "param 'n': 'int' kind requires 'min'"),
        _ => panic!("expected a manifest error"),
    }
}

#[test]
fn unknown_param_kind_is_refused() {
    match check_manifest_param("x", "slider", true, true, &None, &ManifestDefault::Other) {
        Err(PluginError::Manifest(m)) => assert_eq!(
            m,
            "param 'x': unknown kind 'slider' (expected one of: bool, int, float, choice)"
        ),
        _ => panic!("expected a manifest error"),
    }
    assert!(check_manifest_param("b", "bool", false, false, &None, &ManifestDefault::Integer(1)).is_err());
}

#[test]
fn ok_and_err_responses_carry_their_payload() {
    let ok = PluginResponse::ok("QUJD".into());
    assert_eq!(ok.pixels_base64.as_deref(), Some("QUJD"));
    assert!(ok.error.is_none());
    let err = PluginResponse::err("boom");
    assert!(err.pixels_base64.is_none());
    assert_eq!(err.error.as_deref(), Some("boom"));
}

#[test]
fn decode_then_encode_round_trips_bytes() {
    let original = vec![10u8, 20, 30, 255, 40, 50, 60, 255];
    let request: PluginRequest<ParamValues> = PluginRequest {
        width: 2,
        height: 1,
        pixels_base64: base64::engine::general_purpose::STANDARD.encode(&original),
        params: Default::default(),
        seed: 0,
    };

    let decoded = decode_pixels(&request).unwrap();
    assert_eq!(decoded, original);

    let response = encode_response(&decoded);
    assert_eq!(response.pixels_base64.as_deref(), Some(request.pixels_base64.as_str()));
}

#[test]
fn decode_pixels_rejects_invalid_base64() {
    let request: PluginRequest<ParamValues> = PluginRequest {
        width: 1,
        height: 1,
        pixels_base64: "not valid base64!!".into(),
        params: Default::default(),
        seed: 0,
    };
    let err = decode_pixels(&request).unwrap_err();
    assert!(err.starts_with("invalid pixels_base64: "));
}

#[test]
fn encoding_uses_the_standard_padded_alphabet() {
    assert_eq!(encode_pixels(b"ABC"), "QUJD");
    assert_eq!(encode_pixels(&[0xff, 0xfe]), "//4=");
}

#[test]
fn read_response_prefers_the_plugin_error() {
    let r = read_response(
        PluginResponse { pixels_base64: Some("QUJD".into()), error: Some("bad".into()) },
        1,
        1,
        3,
    );
    assert!(matches!(r, Err(EffectError::Plugin(m)) if m == "bad"));
}

#[test]
fn read_response_refuses_an_empty_or_malformed_reply() {
    let none = read_response(PluginResponse { pixels_base64: None, error: None }, 1, 1, 4);
    assert!(matches!(none, Err(EffectError::Plugin(m)) if m == "plugin returned neither pixels nor an error"));
    let garbled = read_response(PluginResponse::ok("@@@".into()), 1, 1, 4);
    assert!(matches!(garbled, Err(EffectError::Plugin(m)) if m.starts_with("invalid pixels in plugin response: ")));
}

#[test]
fn read_response_checks_the_buffer_size() {
    let wrong = read_response(PluginResponse::ok("QUJD".into()), 1, 1, 4);
    assert!(matches!(wrong, Err(EffectError::Plugin(m)) if m == "plugin returned 3 bytes, expected 4 for a 1x1 image"));
    let right = read_response(PluginResponse::ok(encode_pixels(&[1, 2, 3, 4])), 1, 1, 4);
    assert_eq!(right.unwrap(), vec![1, 2, 3, 4]);
}

#[test]
fn a_choice_without_options_is_refused() {
    match check_manifest_param("mode", "choice", false, false, &None, &ManifestDefault::Text("a".into())) {
        Err(PluginError::Manifest(m)) => assert_eq!(m, "param 'mode': 'choice' kind requires 'options'"),
        _ => panic!("expected a manifest error"),
    }
}
