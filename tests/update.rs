use probe_sidecar::probe::{Attempt, Method, Probe, Watch};
use probe_sidecar::target::{Kind, Orchestration, Target};

/// A target whose probes each test for a flag, polled once per period, as
/// a fixture that steps the orchestration by whole periods.
struct Fixture {
    target: Target,
    orchestration: Orchestration,
    startup: Watch,
    liveness: Watch,
    readiness: Watch,
    startup_flag: bool,
    liveness_flag: bool,
    readiness_flag: bool,
}

fn flag_probe(name: &str) -> Probe {
    Probe {
        method: Method::Exec {
            program: "test".to_string(),
            args: vec!["-f".to_string(), name.to_string()],
        },
        initial_delay: 0,
        period: 100,
        timeout: 10,
        success_threshold: 1,
        failure_threshold: 1,
    }
}

impl Fixture {
    fn new(with_liveness: bool, with_readiness: bool, with_startup: bool) -> Fixture {
        let target = Target {
            name: "test".to_string(),
            startup: if with_startup { Some(flag_probe("startup")) } else { None },
            liveness: if with_liveness { Some(flag_probe("liveness")) } else { None },
            readiness: if with_readiness { Some(flag_probe("readiness")) } else { None },
        };
        let orchestration = Orchestration::new(&target);
        let probe = flag_probe("any");
        Fixture {
            target,
            orchestration,
            startup: probe.watch(0),
            liveness: probe.watch(0),
            readiness: probe.watch(0),
            startup_flag: false,
            liveness_flag: false,
            readiness_flag: false,
        }
    }

    fn live(&self) -> bool {
        self.orchestration.status.live
    }

    fn ready(&self) -> bool {
        self.orchestration.status.ready
    }

    /// One period: every watcher being consumed polls its flag.
    fn tick(&mut self) {
        for kind in [Kind::Startup, Kind::Liveness, Kind::Readiness] {
            if !self.orchestration.wants(kind) {
                continue;
            }
            let (watch, flag, probe) = match kind {
                Kind::Startup => (&mut self.startup, self.startup_flag, &self.target.startup),
                Kind::Liveness => (&mut self.liveness, self.liveness_flag, &self.target.liveness),
                Kind::Readiness => (&mut self.readiness, self.readiness_flag, &self.target.readiness),
            };
            let probe = probe.as_ref().unwrap();
            watch.advance(probe.period);
            let attempt = Attempt::Exited { code: Some(if flag { 0 } else { 1 }) };
            if let Some(status) = watch.poll(probe, attempt) {
                self.orchestration.on_event(kind, status);
            }
        }
    }

    /// Two periods.
    fn wait(&mut self) {
        self.tick();
        self.tick();
    }
}

#[test]
fn test_update_empty() {
    let mut fixture = Fixture::new(false, false, false);
    fixture.wait();
    assert!(fixture.live());
    assert!(fixture.ready());
}

#[test]
fn test_update_liveness() {
    let mut fixture = Fixture::new(true, false, false);
    assert!(fixture.live());
    assert!(fixture.ready());

    fixture.liveness_flag = true;
    fixture.wait();
    assert!(fixture.live());
    assert!(fixture.ready());

    fixture.liveness_flag = false;
    fixture.wait();
    assert!(!fixture.live());
    assert!(fixture.ready());

    fixture.liveness_flag = true;
    fixture.wait();
    assert!(!fixture.live());
    assert!(fixture.ready());
}

#[test]
fn test_update_readiness() {
    let mut fixture = Fixture::new(false, true, false);
    assert!(fixture.live());
    assert!(!fixture.ready());

    fixture.wait();
    assert!(fixture.live());
    assert!(!fixture.ready());

    fixture.readiness_flag = true;
    fixture.wait();
    assert!(fixture.live());
    assert!(fixture.ready());

    fixture.readiness_flag = false;
    fixture.wait();
    assert!(fixture.live());
    assert!(!fixture.ready());

    fixture.readiness_flag = true;
    fixture.wait();
    assert!(fixture.live());
    assert!(fixture.ready());
}

#[test]
fn test_update_startup() {
    let mut fixture = Fixture::new(false, false, true);
    assert!(fixture.live());
    assert!(!fixture.ready());

    fixture.wait();
    assert!(fixture.live());
    assert!(!fixture.ready());

    fixture.startup_flag = true;
    fixture.wait();
    assert!(fixture.live());
    assert!(fixture.ready());

    fixture.startup_flag = false;
    fixture.wait();
    assert!(fixture.live());
    assert!(fixture.ready());
}

#[test]
fn test_update_all() {
    let mut fixture = Fixture::new(true, true, true);
    assert!(fixture.live());
    assert!(!fixture.ready());

    fixture.wait();
    assert!(fixture.live());
    assert!(!fixture.ready());

    fixture.liveness_flag = true;
    fixture.readiness_flag = true;
    fixture.wait();
    assert!(fixture.live());
    assert!(!fixture.ready());

    fixture.liveness_flag = false;
    fixture.readiness_flag = false;
    fixture.wait();
    assert!(fixture.live());
    assert!(!fixture.ready());

    fixture.liveness_flag = true;
    fixture.readiness_flag = true;
    fixture.wait();
    assert!(fixture.live());
    assert!(!fixture.ready());

    fixture.startup_flag = true;
    fixture.wait();
    assert!(fixture.live());
    assert!(fixture.ready());

    fixture.readiness_flag = false;
    fixture.startup_flag = false;
    fixture.wait();
    assert!(fixture.live());
    assert!(!fixture.ready());

    fixture.readiness_flag = true;
    fixture.wait();
    assert!(fixture.live());
    assert!(fixture.ready());

    fixture.liveness_flag = false;
    fixture.readiness_flag = false;
    fixture.wait();
    assert!(!fixture.live());
    assert!(!fixture.ready());

    fixture.liveness_flag = true;
    fixture.readiness_flag = true;
    fixture.wait();
    assert!(!fixture.live());
    assert!(fixture.ready());
}

#[test]
fn liveness_flag_absent_fails_within_one_period() {
    let mut fixture = Fixture::new(true, false, false);
    fixture.tick();
    assert!(!fixture.live());
    assert!(fixture.ready());
    fixture.liveness_flag = true;
    fixture.tick();
    assert!(!fixture.live());
    assert!(fixture.ready());
}

#[test]
fn readiness_flag_flips_within_one_period() {
    let mut fixture = Fixture::new(false, true, false);
    assert!(!fixture.ready());
    for _ in 0..3 {
        fixture.readiness_flag = true;
        fixture.tick();
        assert!(fixture.ready());
        fixture.readiness_flag = false;
        fixture.tick();
        assert!(!fixture.ready());
    }
    assert!(fixture.live());
}

#[test]
fn steady_branches_wait_for_startup() {
    let mut fixture = Fixture::new(true, true, true);
    fixture.liveness_flag = false;
    fixture.readiness_flag = true;
    for _ in 0..5 {
        fixture.tick();
        assert!(fixture.live());
        assert!(!fixture.ready());
        assert!(!fixture.orchestration.started);
    }
    fixture.startup_flag = true;
    fixture.tick();
    assert!(fixture.orchestration.started);
    assert!(!fixture.live());
    assert!(fixture.ready());
}

#[test]
fn events_of_idle_watchers_are_ignored() {
    let target = Target { name: "t".to_string(), startup: None, liveness: None, readiness: None };
    let mut o = Orchestration::new(&target);
    assert!(o.started);
    assert!(o.status.live && o.status.ready);
    for kind in [Kind::Startup, Kind::Liveness, Kind::Readiness] {
        assert!(!o.wants(kind));
        o.on_event(kind, probe_sidecar::probe::Status::Failure);
    }
    assert!(o.status.live && o.status.ready);
}
