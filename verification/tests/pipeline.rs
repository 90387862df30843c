use ditherwave::algorithms::pattern::Threshold;
use ditherwave::algorithms::{builtins, BuiltinEffect};
use ditherwave::effect::EffectError;
use ditherwave::image::{ColorSpace, WorkingImage};
use ditherwave::recipe::{default_enabled, Recipe};
use ditherwave::registry::Registry;
use ditherwave::stack::{EffectNode, EffectStack};
use ditherwave::text::decimal_string;
use std::collections::HashMap;

type ParamValues = HashMap<String, serde_json::Value>;

fn node(key: &str, enabled: bool) -> EffectNode<ParamValues> {
    EffectNode { id: key.into(), effect_key: key.into(), params: Default::default(), enabled }
}

fn stack_with_one_node(key: &str, params: ParamValues) -> EffectStack<ParamValues> {
    EffectStack {
        nodes: vec![EffectNode { id: "0".into(), effect_key: key.into(), params, enabled: true }],
    }
}

#[test]
fn registry_with_builtins_holds_every_effect_once() {
    let registry = Registry::with_builtins(|b: BuiltinEffect| b);
    let keys = registry.keys();
    assert_eq!(keys.len(), 15);
    assert_eq!(registry.get("pattern.threshold"), Some(&BuiltinEffect::Threshold));
    assert_eq!(registry.get("does.not.exist"), None);
}

#[test]
fn register_replaces_an_effect_under_the_same_key() {
    let mut registry: Registry<u32> = Registry::new();
    registry.register("a", 1);
    registry.register("b", 2);
    registry.register("a", 3);
    assert_eq!(registry.get("a"), Some(&3));
    assert_eq!(registry.get("b"), Some(&2));
    assert_eq!(registry.keys(), vec!["a".to_string(), "b".to_string()]);
}

/// A `w`x`h` image with every RGBA pixel set to `gray` (alpha opaque).
fn solid_image(w: u32, h: u32, gray: f32) -> WorkingImage<f32> {
    let mut pixels = vec![gray; (w * h * 4) as usize];
    for a in pixels.iter_mut().skip(3).step_by(4) {
        *a = 1.0;
    }
    WorkingImage { width: w, height: h, color_space: ColorSpace::Srgb, pixels }
}

/// Applies a built-in effect with default parameters; only the threshold
/// is needed here.
fn apply_builtin(
    effect: &BuiltinEffect,
    image: &WorkingImage<f32>,
    _params: &ParamValues,
) -> Result<WorkingImage<f32>, EffectError> {
    match effect {
        BuiltinEffect::Threshold => Ok(Threshold.apply(image, |c: f32| if c >= 0.5 { 1.0 } else { 0.0 })),
        other => Err(EffectError::InvalidParam(other.key().to_string())),
    }
}

#[test]
fn empty_stack_returns_the_input_unchanged() {
    let input = solid_image(2, 2, 0.5);
    let stack: EffectStack<ParamValues> = EffectStack::default();
    let registry = Registry::with_builtins(|b: BuiltinEffect| b);
    let out = stack.run(input.clone(), &registry, apply_builtin).unwrap();
    assert_eq!(out.pixels, input.pixels);
}

#[test]
fn chains_effects_in_order() {
    // Threshold at the default 0.5 cutoff turns mid-gray fully white, then a
    // second threshold node has nothing left to do; running it through the
    // stack must match chaining the two applications by hand.
    let input = solid_image(2, 2, 0.6);
    let registry = Registry::with_builtins(|b: BuiltinEffect| b);
    let stack = EffectStack {
        nodes: vec![node("pattern.threshold", true), node("pattern.threshold", true)],
    };

    let via_stack = stack.run(input.clone(), &registry, apply_builtin).unwrap();

    let threshold = registry.get("pattern.threshold").unwrap();
    let params = ParamValues::new();
    let manual =
        apply_builtin(threshold, &apply_builtin(threshold, &input, &params).unwrap(), &params).unwrap();

    assert_eq!(via_stack.pixels, manual.pixels);
}

#[test]
fn skips_disabled_nodes() {
    let input = solid_image(2, 2, 0.6);
    let registry = Registry::with_builtins(|b: BuiltinEffect| b);
    let stack = EffectStack { nodes: vec![node("pattern.threshold", false)] };

    let out = stack.run(input.clone(), &registry, apply_builtin).unwrap();
    assert_eq!(out.pixels, input.pixels, "disabled node must not run");
}

#[test]
fn unknown_effect_key_is_an_error() {
    let input = solid_image(2, 2, 0.5);
    let stack = EffectStack { nodes: vec![node("does.not.exist", true)] };
    let registry = Registry::with_builtins(|b: BuiltinEffect| b);
    assert!(stack.run(input, &registry, apply_builtin).is_err());
}

#[test]
fn a_run_applies_enabled_nodes_in_order_and_stops_at_the_first_error() {
    let registry = Registry::with_builtins(|b: BuiltinEffect| b);
    // Each application appends the effect's display name to the trace.
    let trace = |e: &BuiltinEffect, image: &Vec<String>, _p: &ParamValues| {
        let mut next = image.clone();
        next.push(e.display_name().to_string());
        if e.key() == "glitch.scanlines" {
            Err(EffectError::Plugin(next.join(",")))
        } else {
            Ok(next)
        }
    };
    let stack = EffectStack {
        nodes: vec![
            node("pattern.threshold", true),
            node("glitch.scanlines", false),
            node("ordered.bayer_4x4", true),
        ],
    };
    let out = stack.run(Vec::new(), &registry, trace).unwrap();
    assert_eq!(out, vec!["Threshold".to_string(), "Bayer 4x4".to_string()]);

    let failing = EffectStack {
        nodes: vec![
            node("pattern.threshold", true),
            node("glitch.scanlines", true),
            node("ordered.bayer_4x4", true),
        ],
    };
    let err = failing.run(Vec::new(), &registry, trace).unwrap_err();
    assert!(matches!(err, EffectError::Plugin(m) if m == "Threshold,Scanlines"));

    let unknown = EffectStack {
        nodes: vec![node("pattern.threshold", true), node("does.not.exist", true)],
    };
    let err = unknown.run(Vec::new(), &registry, trace).unwrap_err();
    assert!(matches!(err, EffectError::InvalidParam(k) if k == "does.not.exist"));
}

#[test]
fn to_stack_reconstructs_an_equivalent_effect_stack() {
    let mut params = ParamValues::new();
    params.insert("threshold".into(), serde_json::Value::from(0.3));
    let original = stack_with_one_node("pattern.threshold", params);

    let recipe = Recipe::from_stack("r", &original);
    let rebuilt = recipe.to_stack();

    assert_eq!(rebuilt.nodes.len(), original.nodes.len());
    assert_eq!(rebuilt.nodes[0].effect_key, original.nodes[0].effect_key);
    assert_eq!(rebuilt.nodes[0].params, original.nodes[0].params);
    assert_eq!(rebuilt.nodes[0].enabled, original.nodes[0].enabled);
}

#[test]
fn recipe_records_its_tool_and_numbers_rebuilt_nodes() {
    let stack = EffectStack {
        nodes: (0..12).map(|i| node(if i % 2 == 0 { "a" } else { "b" }, i % 3 != 0)).collect(),
    };
    let recipe = Recipe::from_stack("twelve", &stack);
    assert_eq!(recipe.meta.name, "twelve");
    assert_eq!(recipe.meta.created_with, "ditherwave-recipe 0.1.0");
    let rebuilt = recipe.to_stack();
    assert_eq!(rebuilt.nodes[11].id, "11");
    assert_eq!(rebuilt.nodes[3].enabled, false);
    assert_eq!(rebuilt.nodes[3].effect_key, "b");
    assert!(default_enabled());
}

#[test]
fn decimal_strings() {
    assert_eq!(decimal_string(0), "0");
    assert_eq!(decimal_string(7), "7");
    assert_eq!(decimal_string(1024), "1024");
    assert_eq!(decimal_string(u64::MAX), u64::MAX.to_string());
}

#[test]
fn built_in_registry_stores_each_effect_under_its_own_key() {
    let registry = Registry::with_builtins(|b: BuiltinEffect| b);
    let keys = registry.keys();
    assert_eq!(keys.len(), builtins().len());
    for key in &keys {
        assert_eq!(registry.get(key).unwrap().key(), key.as_str());
    }
    for b in builtins() {
        assert_eq!(registry.get(b.key()), Some(&b));
    }
}
