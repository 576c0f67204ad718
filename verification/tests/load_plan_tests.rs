//! Tests for what a load call computes: the quantization plan and the hook
//! extension table.

use web_rwkv_ffi::hooks::{hook_table, hooks_v6, hooks_v7, HookEntry, HookOp, HookPoint};
use web_rwkv_ffi::info::ModelVersion;
use web_rwkv_ffi::quant::{quant_plan, Quant};

#[test]
fn quant_plan_lists_each_precision_in_order() {
    let plan = quant_plan(2, 1, 1);
    assert_eq!(
        plan,
        vec![
            (0, Quant::Int8),
            (1, Quant::Int8),
            (0, Quant::Nf4),
            (0, Quant::Sf4),
        ]
    );
}

#[test]
fn quant_plan_empty_when_nothing_quantized() {
    assert_eq!(quant_plan(0, 0, 0), Vec::<(usize, Quant)>::new());
}

#[test]
fn v6_hooks_extend_every_layer_once() {
    let hooks = hooks_v6(3);
    assert_eq!(hooks.len(), 3);
    for (layer, entry) in hooks.iter().enumerate() {
        assert_eq!(entry.point, HookPoint::PreAttTimeDecayActivate(layer));
        assert_eq!(entry.op, HookOp::ExtTimeDecay);
    }
}

#[test]
fn v7_hooks_extend_every_layer_twice() {
    let hooks = hooks_v7(2);
    assert_eq!(
        hooks,
        vec![
            HookEntry { point: HookPoint::PostAttAdapt(0), op: HookOp::AffineDouble },
            HookEntry { point: HookPoint::PostAttControl(0), op: HookOp::ExtControl },
            HookEntry { point: HookPoint::PostAttAdapt(1), op: HookOp::AffineDouble },
            HookEntry { point: HookPoint::PostAttControl(1), op: HookOp::ExtControl },
        ]
    );
}

#[test]
fn older_generations_ignore_the_extended_flag() {
    assert!(hook_table(ModelVersion::V4, true, 8).is_empty());
    assert!(hook_table(ModelVersion::V5, true, 8).is_empty());
}

#[test]
fn without_the_flag_no_table_is_built() {
    assert!(hook_table(ModelVersion::V6, false, 8).is_empty());
    assert!(hook_table(ModelVersion::V7, false, 8).is_empty());
}

#[test]
fn extended_table_dispatches_on_the_generation() {
    assert_eq!(hook_table(ModelVersion::V6, true, 4), hooks_v6(4));
    assert_eq!(hook_table(ModelVersion::V7, true, 4), hooks_v7(4));
}
