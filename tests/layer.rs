use leaf_layer::{Layer, LayerConfig, LayerType, ParamConfig};

fn config_with(tops: usize, bottoms: usize) -> LayerConfig {
    let mut c = LayerConfig::new("layer".to_string(), LayerType::Sigmoid);
    for i in 0..tops {
        c.add_top(format!("top{}", i));
    }
    for i in 0..bottoms {
        c.add_bottom(format!("bottom{}", i));
    }
    c
}

#[test]
fn new_config_is_empty() {
    let c = LayerConfig::new("ip".to_string(), LayerType::Sigmoid);
    assert_eq!(c.name, "ip");
    assert_eq!(c.layer_type(), LayerType::Sigmoid);
    assert_eq!(c.tops_len(), 0);
    assert_eq!(c.bottoms_len(), 0);
    assert_eq!(c.params_len(), 0);
    assert!(c.top(0).is_none());
    assert!(c.bottom(0).is_none());
    assert!(c.param(0).is_none());
}

#[test]
fn config_accessors() {
    let mut c = config_with(2, 1);
    c.add_param(ParamConfig::default());
    assert_eq!(c.top(1), Some(&"top1".to_string()));
    assert_eq!(c.top(2), None);
    assert_eq!(c.bottom(0), Some(&"bottom0".to_string()));
    assert_eq!(c.bottom(1), None);
    assert_eq!(c.param(0).map(|p| p.name.clone()), Some(String::new()));
    assert!(c.param(1).is_none());
    assert_eq!(c.tops_len(), 2);
    assert_eq!(c.bottoms_len(), 1);
    assert_eq!(c.params_len(), 1);
}

#[test]
fn propagate_down_len_checks() {
    let mut c = config_with(0, 3);
    assert!(c.check_propagate_down_len());
    c.set_propagate_down(vec![true, false]);
    assert!(!c.check_propagate_down_len());
    c.set_propagate_down(vec![true, false, true]);
    assert!(c.check_propagate_down_len());
    c.propagate_down = vec![true; 4];
    assert!(!c.check_propagate_down_len());
}

#[test]
fn set_param_propagate_down_grows_with_true() {
    let mut l: Layer<u8> = Layer::from_config(config_with(1, 1));
    assert_eq!(l.param_propagate_down(0), None);
    l.set_param_propagate_down(3, false);
    assert_eq!(l.param_propagate_down(0), Some(true));
    assert_eq!(l.param_propagate_down(1), Some(true));
    assert_eq!(l.param_propagate_down(2), Some(true));
    assert_eq!(l.param_propagate_down(3), Some(false));
    assert_eq!(l.param_propagate_down(4), None);
    l.set_param_propagate_down(1, false);
    assert_eq!(l.param_propagate_down(1), Some(false));
    assert_eq!(l.param_propagate_down(3), Some(false));
}

#[test]
fn set_param_propagate_down_twice_is_same() {
    let mut l: Layer<u8> = Layer::from_config(config_with(0, 0));
    l.set_param_propagate_down(2, false);
    let once: Vec<Option<bool>> = (0..5).map(|i| l.param_propagate_down(i)).collect();
    l.set_param_propagate_down(2, false);
    let twice: Vec<Option<bool>> = (0..5).map(|i| l.param_propagate_down(i)).collect();
    assert_eq!(once, twice);
    assert_eq!(once, vec![Some(true), Some(true), Some(false), None, None]);
}

#[test]
fn loss_is_defined_for_declared_tops_only() {
    let l: Layer<u8> = Layer::from_config(config_with(2, 0));
    assert_eq!(l.loss(0), Some(&0));
    assert_eq!(l.loss(1), Some(&0));
    assert_eq!(l.loss(2), None);
    assert_eq!(l.loss(usize::MAX), None);
    assert_eq!(l.config().tops_len(), 2);
}

#[test]
fn set_loss_on_declared_top() {
    let mut l: Layer<u8> = Layer::from_config(config_with(2, 0));
    assert!(l.set_loss(1, 0.5f32.to_bits()));
    assert_eq!(l.loss(1).map(|w| f32::from_bits(*w)), Some(0.5));
    assert!(!l.set_loss(2, 1.0f32.to_bits()));
    assert_eq!(l.loss(2), None);
}

#[test]
fn loss_tops_skips_zero_and_undeclared() {
    let mut l: Layer<u8> = Layer::from_config(config_with(4, 0));
    l.set_loss(0, 1.0f32.to_bits());
    l.set_loss(1, (-0.0f32).to_bits());
    l.set_loss(3, 2.0f32.to_bits());
    assert_eq!(l.loss_tops(4), vec![0, 3]);
    assert_eq!(l.loss_tops(6), vec![0, 3]);
    assert_eq!(l.loss_tops(3), vec![0]);
    assert_eq!(l.loss_tops(0), Vec::<usize>::new());
}

#[test]
fn fresh_layer_has_no_loss_tops() {
    let l: Layer<u8> = Layer::from_config(config_with(3, 0));
    assert!(l.loss_tops(3).is_empty());
    assert!(l.blobs.is_empty());
}

#[test]
fn sigmoid_capabilities() {
    let t = LayerType::Sigmoid;
    assert!(!t.auto_top_blobs());
    assert_eq!(t.min_top_blobs(), 0);
    assert_eq!(t.exact_num_top_blobs(), 0);
    assert_eq!(t.exact_num_bottom_blobs(), 0);
    assert!(t.allow_force_backward(0));
}
