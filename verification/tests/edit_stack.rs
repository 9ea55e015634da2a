use rustroom::adjustments::PhotoAdjustments;
use rustroom::pipeline::{build_edit_stack, masked_edit_for, plan_edits, EditKind, EditOperation, MaskType, MaskedEdit};

#[test]
fn default_adjustments_are_neutral() {
    let a = PhotoAdjustments::default();
    for v in [
        a.temperature, a.tint, a.exposure, a.contrast, a.highlights, a.shadows, a.whites, a.blacks,
        a.texture, a.clarity, a.dehaze, a.hue, a.saturation,
    ] {
        assert_eq!(v, 50);
    }
}

#[test]
fn neutral_panel_builds_empty_stack() {
    let stack = build_edit_stack(&PhotoAdjustments::default());
    assert!(stack.is_empty());
    assert!(plan_edits(&stack).is_empty());
}

#[test]
fn hue_alone_builds_no_edit() {
    let mut a = PhotoAdjustments::default();
    a.hue = 90;
    assert!(build_edit_stack(&a).is_empty());
}

#[test]
fn moved_sliders_build_entries_in_order() {
    let mut a = PhotoAdjustments::default();
    a.contrast = 20;
    a.exposure = 70;
    a.hue = 10;
    let stack = build_edit_stack(&a);
    assert_eq!(
        stack,
        vec![EditOperation::Exposure(70, MaskType::Global), EditOperation::Contrast(20, MaskType::Global)]
    );
}

#[test]
fn every_slider_moved_builds_twelve_entries() {
    let a = PhotoAdjustments {
        temperature: 1,
        tint: 2,
        exposure: 3,
        contrast: 4,
        highlights: 5,
        shadows: 6,
        whites: 7,
        blacks: 8,
        texture: 9,
        clarity: 10,
        dehaze: 11,
        hue: 12,
        saturation: 13,
    };
    let stack = build_edit_stack(&a);
    assert_eq!(
        stack,
        vec![
            EditOperation::Exposure(3, MaskType::Global),
            EditOperation::Exposure(5, MaskType::Highlights),
            EditOperation::Exposure(6, MaskType::Shadows),
            EditOperation::Exposure(7, MaskType::Whites),
            EditOperation::Exposure(8, MaskType::Blacks),
            EditOperation::Contrast(4, MaskType::Global),
            EditOperation::Saturation(13, MaskType::Global),
            EditOperation::Temperature(1, MaskType::Global),
            EditOperation::Tint(2, MaskType::Global),
            EditOperation::Texture(9, MaskType::Global),
            EditOperation::Clarity(10, MaskType::Global),
            EditOperation::Dehaze(11, MaskType::Global),
        ]
    );
    let plan = plan_edits(&stack);
    assert_eq!(plan.len(), 12);
    assert_eq!(plan[1], MaskedEdit { kind: EditKind::Exposure, value: 5, mask: MaskType::Highlights });
    assert_eq!(plan[11], MaskedEdit { kind: EditKind::Dehaze, value: 11, mask: MaskType::Global });
}

#[test]
fn slider_at_bounds_is_an_edit() {
    let mut a = PhotoAdjustments::default();
    a.whites = 0;
    a.blacks = 100;
    assert_eq!(
        build_edit_stack(&a),
        vec![EditOperation::Exposure(0, MaskType::Whites), EditOperation::Exposure(100, MaskType::Blacks)]
    );
}

#[test]
fn targeted_non_exposure_edits_are_skipped() {
    assert_eq!(masked_edit_for(&EditOperation::Contrast(80, MaskType::Shadows)), None);
    assert_eq!(masked_edit_for(&EditOperation::Dehaze(80, MaskType::Blacks)), None);
    assert_eq!(
        masked_edit_for(&EditOperation::Exposure(80, MaskType::Shadows)),
        Some(MaskedEdit { kind: EditKind::Exposure, value: 80, mask: MaskType::Shadows })
    );
    let stack = vec![
        EditOperation::Tint(30, MaskType::Highlights),
        EditOperation::Tint(40, MaskType::Global),
        EditOperation::Saturation(60, MaskType::Whites),
    ];
    assert_eq!(plan_edits(&stack), vec![MaskedEdit { kind: EditKind::Tint, value: 40, mask: MaskType::Global }]);
}

#[test]
fn built_stack_is_fully_rendered() {
    let mut a = PhotoAdjustments::default();
    a.shadows = 65;
    a.clarity = 35;
    let stack = build_edit_stack(&a);
    let plan = plan_edits(&stack);
    assert_eq!(
        plan,
        vec![
            MaskedEdit { kind: EditKind::Exposure, value: 65, mask: MaskType::Shadows },
            MaskedEdit { kind: EditKind::Clarity, value: 35, mask: MaskType::Global },
        ]
    );
}
