use leaf_layer::param::ONE_F32_BITS;
use leaf_layer::shape::count;
use leaf_layer::{DimCheckMode, ParamConfig, ShareError};

fn config(mode: DimCheckMode) -> ParamConfig {
    let mut p = ParamConfig::default();
    p.share_mode = mode;
    p
}

fn check(mode: DimCheckMode, one: Vec<usize>, two: Vec<usize>) -> Result<(), ShareError> {
    config(mode).check_dimensions(
        &one,
        &two,
        "w".to_string(),
        "owner".to_string(),
        "sharer".to_string(),
    )
}

#[test]
fn strict_accepts_equal_shapes() {
    assert_eq!(check(DimCheckMode::Strict, vec![2, 3, 4], vec![2, 3, 4]), Ok(()));
    assert_eq!(check(DimCheckMode::Strict, vec![], vec![]), Ok(()));
}

#[test]
fn strict_rejects_same_count_other_shape() {
    let r = check(DimCheckMode::Strict, vec![6, 4], vec![2, 3, 4]);
    assert_eq!(
        r,
        Err(ShareError::ShapeMismatch {
            param_name: "w".to_string(),
            owner_name: "owner".to_string(),
            layer_name: "sharer".to_string(),
            owner_shape: vec![2, 3, 4],
            sharer_shape: vec![6, 4],
        })
    );
}

#[test]
fn strict_rejects_permuted_dimensions() {
    assert!(check(DimCheckMode::Strict, vec![3, 2], vec![2, 3]).is_err());
}

#[test]
fn permissive_accepts_same_count() {
    assert_eq!(check(DimCheckMode::Permissive, vec![6, 4], vec![2, 3, 4]), Ok(()));
    assert_eq!(check(DimCheckMode::Permissive, vec![24], vec![2, 3, 4]), Ok(()));
    assert_eq!(check(DimCheckMode::Permissive, vec![0, 5], vec![7, 0]), Ok(()));
}

#[test]
fn permissive_rejects_other_count() {
    let r = check(DimCheckMode::Permissive, vec![5], vec![2, 3]);
    assert_eq!(
        r,
        Err(ShareError::CountMismatch {
            param_name: "w".to_string(),
            owner_name: "owner".to_string(),
            layer_name: "sharer".to_string(),
            owner_shape: vec![2, 3],
            sharer_shape: vec![5],
        })
    );
}

#[test]
fn count_of_shapes() {
    assert_eq!(count(&vec![]), 1);
    assert_eq!(count(&vec![2, 3, 4]), 24);
    assert_eq!(count(&vec![usize::MAX, 0]), 0);
    assert_eq!(count(&vec![usize::MAX]), usize::MAX);
}

#[test]
fn multipliers_default_to_one() {
    let p = ParamConfig::default();
    assert_eq!(p.lr_mult(), ONE_F32_BITS);
    assert_eq!(p.decay_mult(), ONE_F32_BITS);
    assert_eq!(f32::from_bits(p.lr_mult()), 1.0);
    assert_eq!(f32::from_bits(p.decay_mult()), 1.0);
    assert_eq!(p.name, "");
    assert_eq!(p.share_mode, DimCheckMode::Strict);
}

#[test]
fn multipliers_return_configured_value() {
    let mut p = ParamConfig::default();
    p.lr_mult = Some(2.5f32.to_bits());
    p.decay_mult = Some(0.0f32.to_bits());
    assert_eq!(f32::from_bits(p.lr_mult()), 2.5);
    assert_eq!(f32::from_bits(p.decay_mult()), 0.0);
}
