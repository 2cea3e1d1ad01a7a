use quick_noise::perlin::{NoiseError, OctavePasses, PassMode};

#[test]
fn zero_octaves_are_an_invalid_parameter() {
    assert!(matches!(OctavePasses::new(0), Err(NoiseError::InvalidParameter)));
}

#[test]
fn empty_octave_list_is_an_invalid_parameter() {
    let octaves: Vec<(u32, u32)> = Vec::new();
    assert!(matches!(OctavePasses::new(octaves.len()), Err(NoiseError::InvalidParameter)));
}

#[test]
fn single_octave_initialises_once() {
    let mut passes = match OctavePasses::new(1) {
        Ok(passes) => passes,
        Err(_) => panic!("one octave was refused"),
    };
    assert_eq!(passes.count(), 1);
    assert_eq!(passes.done(), 0);
    assert_eq!(passes.next_pass(), Some(PassMode::Initialize));
    assert_eq!(passes.done(), 1);
    assert_eq!(passes.next_pass(), None);
    assert_eq!(passes.next_pass(), None);
    assert_eq!(passes.done(), 1);
}

#[test]
fn later_octaves_accumulate() {
    let mut passes = match OctavePasses::new(4) {
        Ok(passes) => passes,
        Err(_) => panic!("four octaves were refused"),
    };
    let mut seen = Vec::new();
    while let Some(mode) = passes.next_pass() {
        seen.push(mode);
    }
    assert_eq!(
        seen,
        vec![
            PassMode::Initialize,
            PassMode::Accumulate,
            PassMode::Accumulate,
            PassMode::Accumulate
        ]
    );
    assert_eq!(passes.done(), 4);
    assert_eq!(passes.count(), 4);
}
