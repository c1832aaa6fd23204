use rodas5p_integrators::error::CoreError;
use rodas5p_integrators::policy_redesign_v25::{PersistenceLatch, PointFeature};

#[test]
fn latch_requires_positive_k() {
    match PersistenceLatch::new(0) {
        Err(CoreError::InvalidInput(message)) => {
            assert_eq!(message, "persistence confirmation requires k>=1")
        }
        _ => panic!("k=0 must be refused"),
    }
}

#[test]
fn latch_fires_once_per_excursion() {
    let mut latch = PersistenceLatch::new(2).unwrap();
    let signals = [true, true, true, false, true, false, true, true];
    let fired: Vec<bool> = signals.iter().map(|&s| latch.update(s)).collect();
    assert_eq!(fired, vec![false, true, false, false, false, false, false, true]);
}

#[test]
fn latch_with_k1_fires_on_every_excursion_start() {
    let mut latch = PersistenceLatch::new(1).unwrap();
    let fired: Vec<bool> = [true, true, false, true, false, false, true]
        .iter()
        .map(|&s| latch.update(s))
        .collect();
    assert_eq!(fired, vec![true, false, false, true, false, false, true]);
}

#[test]
fn point_feature_labels() {
    assert_eq!(PointFeature::JvpPressure.as_str(), "jvp-pressure");
    assert_eq!(PointFeature::StepContraction.as_str(), "step-contraction");
    assert_eq!(PointFeature::ErrorCurvature.as_str(), "error-curvature");
}
