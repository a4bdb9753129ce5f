use nescore::chnl::Envelope;

fn clock_period(envelope: &mut Envelope, period: u32) {
    for _ in 0..period {
        envelope.tick();
    }
}

#[test]
fn decay_reload() {
    let mut envelope = Envelope::default();
    envelope.set_constant(false);
    envelope.set_volume(10);
    envelope.set_loop(true);

    envelope.start();
    // First tick to initialize the envelope unit
    envelope.tick();

    assert_eq!(envelope.output(), 15);

    // Clock decay and check envelope output
    for output in (0..15).rev() {
        // Envelope period is volume + 1
        clock_period(&mut envelope, 10 + 1);
        assert_eq!(envelope.output(), output);
    }

    clock_period(&mut envelope, 10 + 1);

    assert_eq!(envelope.output(), 15);
}

#[test]
fn decay_no_reload() {
    let mut envelope = Envelope::default();
    envelope.set_loop(false);
    envelope.set_volume(10);

    envelope.start();
    // First tick to initialize the envelope unit
    envelope.tick();

    assert_eq!(envelope.output(), 15);

    // Clock decay and check envelope output
    for output in (0..15).rev() {
        // Envelope period is volume + 1
        clock_period(&mut envelope, 10 + 1);
        assert_eq!(envelope.output(), output);
    }

    clock_period(&mut envelope, 10 + 1);

    assert_eq!(envelope.output(), 0);
}

#[test]
fn constant() {
    let mut envelope = Envelope::default();
    envelope.set_volume(15);
    envelope.set_constant(true);

    envelope.start();

    for _ in 0..22 {
        envelope.tick();
    }

    assert_eq!(envelope.output(), 15);
}
