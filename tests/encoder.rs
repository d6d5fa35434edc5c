use subtone::encoder::{Encoder, EncoderDirection, EncoderPhase, LineWait};

fn feed(enc: &mut Encoder, samples: &[(bool, bool)]) -> Vec<Option<EncoderDirection>> {
    samples.iter().map(|&(a, b)| enc.step(a, b)).collect()
}

#[test]
fn clean_step_up() {
    let mut enc = Encoder::new(true, true);
    let out = feed(
        &mut enc,
        &[(true, true), (false, true), (false, false), (true, false), (true, true)],
    );
    assert_eq!(out, vec![None, None, None, None, Some(EncoderDirection::Up)]);
    assert_eq!(enc.phase, EncoderPhase::Armed);
    assert_eq!(enc.state(), (true, true));
}

#[test]
fn clean_step_down() {
    let mut enc = Encoder::new(true, true);
    let out = feed(
        &mut enc,
        &[(true, true), (true, false), (false, false), (false, true), (true, true)],
    );
    assert_eq!(out, vec![None, None, None, None, Some(EncoderDirection::Down)]);
}

#[test]
fn two_steps_in_a_row() {
    let mut enc = Encoder::new(true, true);
    let up = [(false, true), (false, false), (true, false), (true, true)];
    let down = [(true, false), (false, false), (false, true), (true, true)];
    assert_eq!(enc.step(true, true), None);
    assert_eq!(feed(&mut enc, &up)[3], Some(EncoderDirection::Up));
    assert_eq!(feed(&mut enc, &down)[3], Some(EncoderDirection::Down));
}

#[test]
fn noise_drops_the_step() {
    let mut enc = Encoder::new(true, true);
    // A falls first, then the lines jump back to rest: no step
    let out = feed(&mut enc, &[(true, true), (false, true), (true, true)]);
    assert_eq!(out, vec![None, None, None]);
    assert_eq!(enc.phase, EncoderPhase::Rest);
    // both falling at once is ambiguous: no step either
    let out = feed(&mut enc, &[(true, true), (false, false), (true, false), (true, true)]);
    assert_eq!(out, vec![None, None, None, None]);
}

#[test]
fn repeated_samples_are_held() {
    let mut enc = Encoder::new(false, false);
    let out = feed(
        &mut enc,
        &[
            (false, false),
            (true, true),
            (true, true),
            (false, true),
            (false, true),
            (false, false),
            (false, false),
            (true, false),
            (true, false),
            (true, true),
        ],
    );
    assert_eq!(out.iter().filter(|o| o.is_some()).count(), 1);
    assert_eq!(out[9], Some(EncoderDirection::Up));
}

#[test]
fn waits_follow_the_sequence() {
    let mut enc = Encoder::new(true, true);
    assert_eq!(enc.wait_for(), LineWait::Levels { a: true, b: true });
    enc.step(true, true);
    assert_eq!(enc.wait_for(), LineWait::EitherLow);
    enc.step(false, true);
    assert_eq!(enc.wait_for(), LineWait::Levels { a: false, b: false });
    enc.step(false, false);
    assert_eq!(enc.wait_for(), LineWait::Levels { a: true, b: false });
    enc.step(true, false);
    assert_eq!(enc.wait_for(), LineWait::Levels { a: true, b: true });
}

#[test]
fn new_keeps_levels() {
    let enc = Encoder::new(false, true);
    assert_eq!(enc.state(), (false, true));
    assert_eq!(enc.phase, EncoderPhase::Rest);
}
