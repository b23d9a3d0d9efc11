use wginit::{Backend, BuildError, BuildOutcome, BuildStep, Builder};

fn drive(builder: &mut Builder, outcomes: &[BuildOutcome]) -> Vec<BuildStep> {
    let mut steps = vec![builder.step()];
    for outcome in outcomes {
        assert!(builder.expects(*outcome));
        let next = builder.advance(*outcome);
        assert_eq!(next, builder.step());
        steps.push(next);
    }
    steps
}

#[test]
fn build_starts_with_the_probe() {
    let builder = Builder::new(4);
    assert_eq!(builder.step(), BuildStep::ProbeDefaultBackend);
    assert_eq!(builder.suspend_count(), 4);
}

#[test]
fn build_runs_through_on_the_default_backend() {
    let mut builder = Builder::new(0);
    let steps = drive(
        &mut builder,
        &[
            BuildOutcome::Probed { adapter_found: true },
            BuildOutcome::SurfaceCreated,
            BuildOutcome::AdapterFound,
            BuildOutcome::DeviceCreated { width: 1024, height: 768 },
            BuildOutcome::Configured,
        ],
    );
    assert_eq!(
        steps,
        vec![
            BuildStep::ProbeDefaultBackend,
            BuildStep::CreateSurface { backend: Backend::Default },
            BuildStep::RequestAdapter,
            BuildStep::RequestDevice,
            BuildStep::ConfigureSurface { width: 1024, height: 768 },
            BuildStep::Finish,
        ]
    );
}

#[test]
fn build_falls_back_when_the_probe_finds_nothing() {
    let mut builder = Builder::new(0);
    let next = builder.advance(BuildOutcome::Probed { adapter_found: false });
    assert_eq!(next, BuildStep::CreateSurface { backend: Backend::Fallback });
    let steps = drive(
        &mut builder,
        &[
            BuildOutcome::SurfaceCreated,
            BuildOutcome::AdapterFound,
            BuildOutcome::DeviceCreated { width: 5, height: 6 },
            BuildOutcome::Configured,
        ],
    );
    assert_eq!(steps.last(), Some(&BuildStep::Finish));
}

#[test]
fn build_configures_a_hidden_window_at_one_by_one() {
    let mut builder = Builder::new(0);
    let steps = drive(
        &mut builder,
        &[
            BuildOutcome::Probed { adapter_found: true },
            BuildOutcome::SurfaceCreated,
            BuildOutcome::AdapterFound,
            BuildOutcome::DeviceCreated { width: 0, height: 0 },
        ],
    );
    assert_eq!(steps.last(), Some(&BuildStep::ConfigureSurface { width: 1, height: 1 }));
    let mut builder = Builder::new(0);
    let steps = drive(
        &mut builder,
        &[
            BuildOutcome::Probed { adapter_found: true },
            BuildOutcome::SurfaceCreated,
            BuildOutcome::AdapterFound,
            BuildOutcome::DeviceCreated { width: 0, height: 480 },
        ],
    );
    assert_eq!(steps.last(), Some(&BuildStep::ConfigureSurface { width: 1, height: 480 }));
}

#[test]
fn build_gives_up_without_a_surface() {
    let mut builder = Builder::new(0);
    let steps = drive(
        &mut builder,
        &[BuildOutcome::Probed { adapter_found: true }, BuildOutcome::SurfaceFailed],
    );
    assert_eq!(steps.last(), Some(&BuildStep::Abort { error: BuildError::NoSurface }));
}

#[test]
fn build_gives_up_without_an_adapter() {
    let mut builder = Builder::new(0);
    let steps = drive(
        &mut builder,
        &[
            BuildOutcome::Probed { adapter_found: false },
            BuildOutcome::SurfaceCreated,
            BuildOutcome::AdapterMissing,
        ],
    );
    assert_eq!(steps.last(), Some(&BuildStep::Abort { error: BuildError::NoAdapter }));
}

#[test]
fn build_gives_up_without_a_device() {
    let mut builder = Builder::new(0);
    let steps = drive(
        &mut builder,
        &[
            BuildOutcome::Probed { adapter_found: true },
            BuildOutcome::SurfaceCreated,
            BuildOutcome::AdapterFound,
            BuildOutcome::DeviceFailed,
        ],
    );
    assert_eq!(steps.last(), Some(&BuildStep::Abort { error: BuildError::NoDevice }));
}

#[test]
fn finished_and_aborted_builds_take_no_more_outcomes() {
    let all = [
        BuildOutcome::Probed { adapter_found: true },
        BuildOutcome::Probed { adapter_found: false },
        BuildOutcome::SurfaceCreated,
        BuildOutcome::SurfaceFailed,
        BuildOutcome::AdapterFound,
        BuildOutcome::AdapterMissing,
        BuildOutcome::DeviceCreated { width: 1, height: 1 },
        BuildOutcome::DeviceFailed,
        BuildOutcome::Configured,
    ];
    let mut finished = Builder::new(0);
    drive(
        &mut finished,
        &[
            BuildOutcome::Probed { adapter_found: true },
            BuildOutcome::SurfaceCreated,
            BuildOutcome::AdapterFound,
            BuildOutcome::DeviceCreated { width: 2, height: 2 },
            BuildOutcome::Configured,
        ],
    );
    let mut aborted = Builder::new(0);
    drive(&mut aborted, &[BuildOutcome::Probed { adapter_found: true }, BuildOutcome::SurfaceFailed]);
    for outcome in all {
        assert!(!finished.expects(outcome));
        assert!(!aborted.expects(outcome));
    }
}

#[test]
fn each_step_takes_only_its_own_outcomes() {
    let builder = Builder::new(0);
    assert!(builder.expects(BuildOutcome::Probed { adapter_found: false }));
    assert!(!builder.expects(BuildOutcome::SurfaceCreated));
    assert!(!builder.expects(BuildOutcome::Configured));

    let mut builder = Builder::new(0);
    builder.advance(BuildOutcome::Probed { adapter_found: true });
    assert!(builder.expects(BuildOutcome::SurfaceCreated));
    assert!(builder.expects(BuildOutcome::SurfaceFailed));
    assert!(!builder.expects(BuildOutcome::Probed { adapter_found: true }));
    assert!(!builder.expects(BuildOutcome::AdapterFound));

    builder.advance(BuildOutcome::SurfaceCreated);
    assert!(builder.expects(BuildOutcome::AdapterFound));
    assert!(builder.expects(BuildOutcome::AdapterMissing));
    assert!(!builder.expects(BuildOutcome::DeviceFailed));

    builder.advance(BuildOutcome::AdapterFound);
    assert!(builder.expects(BuildOutcome::DeviceCreated { width: 0, height: 0 }));
    assert!(builder.expects(BuildOutcome::DeviceFailed));
    assert!(!builder.expects(BuildOutcome::Configured));

    builder.advance(BuildOutcome::DeviceCreated { width: 3, height: 3 });
    assert!(builder.expects(BuildOutcome::Configured));
    assert!(!builder.expects(BuildOutcome::DeviceFailed));
}

#[test]
fn finished_build_yields_a_bundle_with_its_tag() {
    let mut builder = Builder::new(9);
    drive(
        &mut builder,
        &[
            BuildOutcome::Probed { adapter_found: true },
            BuildOutcome::SurfaceCreated,
            BuildOutcome::AdapterFound,
            BuildOutcome::DeviceCreated { width: 640, height: 480 },
            BuildOutcome::Configured,
        ],
    );
    assert_eq!(builder.suspend_count(), 9);
    let wgpu = builder.finish('d', 'q', 'a', 's');
    assert_eq!(wgpu.device, 'd');
    assert_eq!(wgpu.queue, 'q');
    assert_eq!(wgpu.adapter, 'a');
    assert_eq!(wgpu.surface, 's');
    assert_eq!(wgpu.suspend_count, 9);
}
